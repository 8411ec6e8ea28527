//! The recoverable outcomes of program creation. Violated internal
//! preconditions (a mixed handle variant, a null handle from the create
//! call) are not errors of this kind: they are kept impossible by the
//! callers' contracts.

use vstd::prelude::*;
use vstd::string::StringExecFns;

verus! {

/// Error that can be triggered when creating a `Program`.
#[derive(Clone, PartialEq, Eq, Debug)]
pub enum ProgramCreationError {
    /// Error while compiling one of the shaders.
    CompilationError(String),
    /// Error while linking the program.
    LinkingError(String),
    /// One of the requested shader types is not supported by the backend.
    ShaderTypeNotSupported,
    /// The backend doesn't provide a shader compiler.
    CompilationNotSupported,
    /// Transform-feedback varyings were requested, but transform feedback
    /// is not supported by the backend.
    TransformFeedbackNotSupported,
}

impl ProgramCreationError {
    /// The full human-readable message, diagnostic text included.
    pub open spec fn spec_message(self) -> Seq<char> {
        match self {
            ProgramCreationError::CompilationError(s) =>
                "Compilation error in one of the shaders: "@ + s@,
            ProgramCreationError::LinkingError(s) =>
                "Error while linking shaders together: "@ + s@,
            ProgramCreationError::ShaderTypeNotSupported =>
                "One of the request shader type is not supported by the backend"@,
            ProgramCreationError::CompilationNotSupported =>
                "The backend doesn't support shaders compilation"@,
            ProgramCreationError::TransformFeedbackNotSupported =>
                "You requested transform feedback, but this feature is not supported by the backend"@,
        }
    }

    /// Builds the full human-readable message.
    pub fn message(&self) -> (r: String)
        ensures
            r@ == self.spec_message(),
    {
        match self {
            ProgramCreationError::CompilationError(s) => "Compilation error in one of the shaders: "
                .to_owned()
                .concat(s.as_str()),
            ProgramCreationError::LinkingError(s) => "Error while linking shaders together: "
                .to_owned()
                .concat(s.as_str()),
            ProgramCreationError::ShaderTypeNotSupported =>
                "One of the request shader type is not supported by the backend".to_owned(),
            ProgramCreationError::CompilationNotSupported =>
                "The backend doesn't support shaders compilation".to_owned(),
            ProgramCreationError::TransformFeedbackNotSupported =>
                "You requested transform feedback, but this feature is not supported by the backend"
                .to_owned(),
        }
    }

    /// A short description of the error kind, without diagnostic text.
    pub fn description(&self) -> (r: &'static str)
        ensures
            self is CompilationError ==> r@ == "Compilation error in one of the shaders"@,
            self is LinkingError ==> r@ == "Error while linking shaders together"@,
            self is ShaderTypeNotSupported ==> r@
                == "One of the request shader type is not supported by the backend"@,
            self is CompilationNotSupported ==> r@
                == "The backend doesn't support shaders compilation"@,
            self is TransformFeedbackNotSupported ==> r@
                == "Transform feedback is not supported by the backend."@,
    {
        match self {
            ProgramCreationError::CompilationError(_) => "Compilation error in one of the shaders",
            ProgramCreationError::LinkingError(_) => "Error while linking shaders together",
            ProgramCreationError::ShaderTypeNotSupported =>
                "One of the request shader type is not supported by the backend",
            ProgramCreationError::CompilationNotSupported =>
                "The backend doesn't support shaders compilation",
            ProgramCreationError::TransformFeedbackNotSupported =>
                "Transform feedback is not supported by the backend.",
        }
    }
}

} // verus!
