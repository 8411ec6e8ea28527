//! The native calls this subsystem issues, recorded as plain values.
//!
//! Every operation of the library returns, besides its result, the exact
//! sequence of driver commands it decided on. A host loop performs them in
//! order; tests inspect them directly.

use vstd::prelude::*;

use crate::handle::Handle;
use crate::input::ShaderStage;

verus! {

/// Native enumerant for interleaved transform-feedback capture.
pub const GL_INTERLEAVED_ATTRIBS: u32 = 0x8C8C;

/// Native enumerant for separate transform-feedback capture.
pub const GL_SEPARATE_ATTRIBS: u32 = 0x8C8D;

/// Native error-queue value: no error pending.
pub const GL_NO_ERROR: u32 = 0;

/// Native error-queue value: an argument was out of range.
pub const GL_INVALID_VALUE: u32 = 0x0501;

/// Native error-queue value: an operation was not allowed in this state.
pub const GL_INVALID_OPERATION: u32 = 0x0502;

/// One driver command, in the order the subsystem would issue it.
#[derive(Clone, Copy, PartialEq, Eq, Structural, Debug)]
pub enum GlCommand {
    /// Hand one stage's source to the shader-compilation collaborator.
    CompileShader { stage: ShaderStage },
    /// Create an empty program object of the profile's handle variant.
    CreateProgram,
    /// Attach a compiled shader to the program.
    AttachShader { program: Handle, shader: Handle },
    /// Configure transform-feedback varyings before the link.
    /// `modern` selects the versioned call over the extension call.
    SetTransformFeedbackVaryings { program: u32, count: usize, native_mode: u32, modern: bool },
    /// Link the program, under the process-wide compiler lock and with
    /// debug-output error reporting suppressed for the duration.
    LinkProgram { program: Handle },
    /// Read the link-status flag of the program.
    QueryLinkStatus { program: Handle },
    /// Read the driver error queue once.
    QueryErrorFlag,
    /// Ask for the length of the link diagnostic log.
    QueryInfoLogLength { program: Handle },
    /// Fetch the diagnostic log into a buffer of exactly `buffer_len` bytes.
    FetchInfoLog { program: Handle, buffer_len: i32 },
    /// Submit a precompiled binary blob to the program.
    LoadProgramBinary { program: u32, format: u32, len: usize },
    /// Ask for the length of the program's compiled binary.
    QueryBinaryLength { program: u32 },
    /// Fetch the compiled binary into a buffer of exactly `buffer_len` bytes.
    FetchBinary { program: u32, buffer_len: i32 },
    /// Ask the context for the output slot of a named fragment output.
    QueryFragDataLocation { program: u32 },
    /// Tell the vertex-array-object cache to drop bindings that reference
    /// the program.
    PurgeVertexArrayObjects { program: Handle },
    /// Unbind the currently bound program.
    UnbindProgram,
    /// Delete the program object.
    DeleteProgram { program: Handle },
}

} // verus!
