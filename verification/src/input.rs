//! What a program is built from: shader sources or a precompiled binary,
//! and the stage enumeration the builder derives from it.

use vstd::prelude::*;

verus! {

/// The five shader stages the builder can hand to the compiler, in the
/// order they are compiled.
#[derive(Clone, Copy, PartialEq, Eq, Structural, Debug)]
pub enum ShaderStage {
    Vertex,
    Fragment,
    Geometry,
    TessellationControl,
    TessellationEvaluation,
}

/// How transform-feedback outputs are captured into buffers.
#[derive(Clone, Copy, PartialEq, Eq, Structural, Debug)]
pub enum TransformFeedbackMode {
    /// All varyings interleaved in one buffer.
    Interleaved,
    /// One buffer per varying.
    Separate,
}

/// A program's compiled binary: an opaque format tag plus an opaque blob,
/// meaningful only to the driver that produced it.
#[derive(Clone, Debug)]
pub struct Binary {
    pub format: u32,
    pub content: Vec<u8>,
}

/// What `Program::new` consumes: either full source text per stage, or a
/// binary blob produced by an earlier `get_binary_if_supported` call.
#[derive(Debug)]
pub enum ProgramCreationInput {
    /// Compile and link from source. Vertex and fragment stages are
    /// mandatory; the others optional. Transform-feedback varyings, when
    /// requested, are paired with a capture mode.
    SourceCode {
        vertex_shader: String,
        fragment_shader: String,
        geometry_shader: Option<String>,
        tessellation_control_shader: Option<String>,
        tessellation_evaluation_shader: Option<String>,
        transform_feedback_varyings: Option<(Vec<String>, TransformFeedbackMode)>,
    },
    /// Reload a previously linked program from its binary.
    Binary { data: Binary },
}

/// One stage's source, paired with its kind, as the builder enumerates them.
#[derive(Debug)]
pub struct StageSource {
    pub source: String,
    pub stage: ShaderStage,
}

impl ProgramCreationInput {
    /// The stage kinds this input asks the builder to compile, in order:
    /// vertex, fragment, then each optional stage that is present.
    pub open spec fn spec_stage_kinds(self) -> Seq<ShaderStage> {
        match self {
            ProgramCreationInput::SourceCode {
                geometry_shader,
                tessellation_control_shader,
                tessellation_evaluation_shader,
                ..
            } => {
                seq![ShaderStage::Vertex, ShaderStage::Fragment]
                    + (if geometry_shader is Some { seq![ShaderStage::Geometry] } else { Seq::empty() })
                    + (if tessellation_control_shader is Some { seq![ShaderStage::TessellationControl] } else { Seq::empty() })
                    + (if tessellation_evaluation_shader is Some { seq![ShaderStage::TessellationEvaluation] } else { Seq::empty() })
            },
            ProgramCreationInput::Binary { .. } => Seq::empty(),
        }
    }

    /// The source text of each stage this input asks the builder to
    /// compile, in the same order as [`ProgramCreationInput::spec_stage_kinds`].
    pub open spec fn spec_stage_sources(self) -> Seq<Seq<char>> {
        match self {
            ProgramCreationInput::SourceCode {
                vertex_shader,
                fragment_shader,
                geometry_shader,
                tessellation_control_shader,
                tessellation_evaluation_shader,
                ..
            } => {
                seq![vertex_shader@, fragment_shader@] + (match geometry_shader {
                    Some(g) => seq![g@],
                    None => Seq::empty(),
                }) + (match tessellation_control_shader {
                    Some(tc) => seq![tc@],
                    None => Seq::empty(),
                }) + (match tessellation_evaluation_shader {
                    Some(te) => seq![te@],
                    None => Seq::empty(),
                })
            },
            ProgramCreationInput::Binary { .. } => Seq::empty(),
        }
    }

    /// Whether this input holds a tessellation stage.
    pub open spec fn spec_has_tessellation(self) -> bool {
        match self {
            ProgramCreationInput::SourceCode {
                tessellation_control_shader,
                tessellation_evaluation_shader,
                ..
            } => tessellation_control_shader is Some || tessellation_evaluation_shader is Some,
            ProgramCreationInput::Binary { .. } => false,
        }
    }

    /// Whether this input requests transform feedback.
    pub open spec fn spec_requests_transform_feedback(self) -> bool {
        match self {
            ProgramCreationInput::SourceCode { transform_feedback_varyings, .. } =>
                transform_feedback_varyings is Some,
            ProgramCreationInput::Binary { .. } => false,
        }
    }
}

/// Enumerates the stages of a source-code input, in compilation order,
/// each with its source text, and reports whether a tessellation stage is
/// among them.
pub fn enumerate_stages(input: &ProgramCreationInput) -> (r: (Vec<StageSource>, bool))
    requires
        input is SourceCode,
    ensures
        r.0@.len() == input.spec_stage_kinds().len(),
        forall|i: int|
            0 <= i < r.0@.len() ==> (#[trigger] r.0@[i]).stage == input.spec_stage_kinds()[i],
        forall|i: int|
            0 <= i < r.0@.len() ==> (#[trigger] r.0@[i]).source@ == input.spec_stage_sources()[i],
        r.1 == input.spec_has_tessellation(),
        ({
            &&& r.0@.len() >= 2
            &&& r.0@[0].stage == ShaderStage::Vertex
            &&& r.0@[1].stage == ShaderStage::Fragment
        }),
{
    match input {
        ProgramCreationInput::SourceCode {
            vertex_shader,
            fragment_shader,
            geometry_shader,
            tessellation_control_shader,
            tessellation_evaluation_shader,
            ..
        } => {
            let mut has_tessellation: bool = false;
            let mut stages: Vec<StageSource> = Vec::new();
            stages.push(StageSource { source: vertex_shader.clone(), stage: ShaderStage::Vertex });
            stages.push(
                StageSource { source: fragment_shader.clone(), stage: ShaderStage::Fragment },
            );
            if let Some(gs) = geometry_shader {
                stages.push(StageSource { source: gs.clone(), stage: ShaderStage::Geometry });
            }
            if let Some(tc) = tessellation_control_shader {
                has_tessellation = true;
                stages.push(
                    StageSource { source: tc.clone(), stage: ShaderStage::TessellationControl },
                );
            }
            if let Some(te) = tessellation_evaluation_shader {
                has_tessellation = true;
                stages.push(
                    StageSource { source: te.clone(), stage: ShaderStage::TessellationEvaluation },
                );
            }
            proof {
                assert(stages@.map_values(|s: StageSource| s.stage) =~= input.spec_stage_kinds());
                assert(stages@.map_values(|s: StageSource| s.source@)
                    =~= input.spec_stage_sources());
            }
            (stages, has_tessellation)
        },
        ProgramCreationInput::Binary { .. } => {
            proof {
                assert(false);
            }
            (Vec::new(), false)
        },
    }
}

} // verus!
