//! The two creation paths: source-to-program and binary-to-program.
//!
//! Both decide, from the capability profile and from the driver's replies,
//! the exact command sequence to issue and the outcome, and construct the
//! program object only after a confirmed link.

use vstd::prelude::*;

use crate::capabilities::Capabilities;
use crate::commands::{GlCommand, GL_INTERLEAVED_ATTRIBS, GL_SEPARATE_ATTRIBS};
use crate::error::ProgramCreationError;
use crate::handle::Handle;
use crate::input::{ProgramCreationInput, ShaderStage, TransformFeedbackMode};
use crate::link::{
    check_link_outcome,
    spec_link_failure_message,
    spec_link_failure_needs_log,
};
use crate::program::{spec_assembled, Program};
use crate::reflection::Reflection;

verus! {

/// Every reply the driver would give during one creation attempt, laid out
/// up front so the whole decision pipeline is a function of plain values.
/// The host gathers each reply by performing the command that asks for it.
#[derive(Debug)]
pub struct DriverScript {
    /// Per compiled stage, in compilation order: the compiled-shader
    /// handle, or the compiler's diagnostic text.
    pub compile_results: Vec<Result<Handle, String>>,
    /// What the create-program call returned.
    pub created_program: Handle,
    /// The link-status flag; zero means the link failed.
    pub link_status: i32,
    /// What one read of the error queue returned after a failed link.
    pub error_flag: u32,
    /// The diagnostic log length the driver reported.
    pub info_log_length: i32,
    /// The diagnostic log text, decoded at the boundary.
    pub info_log: String,
    /// What the reflection harvester returned after a successful link.
    pub reflection: Reflection,
}

impl DriverScript {
    /// The replies are consistent with a profile that compiles `n_stages`
    /// stages: every handle is of the profile's variant and the created
    /// program is not null.
    pub open spec fn wf_for(self, caps: Capabilities, n_stages: int) -> bool {
        &&& self.compile_results@.len() >= n_stages
        &&& forall|i: int|
            0 <= i < n_stages && (#[trigger] self.compile_results@[i]) is Ok
                ==> caps.spec_handle_matches(self.compile_results@[i]->Ok_0)
        &&& caps.spec_handle_matches(self.created_program)
        &&& !self.created_program.spec_is_null()
        &&& self.reflection.wf()
    }
}

/// The index of the first failed compilation among the first `n` replies,
/// or `n` when they all succeeded.
pub open spec fn spec_first_failure(results: Seq<Result<Handle, String>>, n: int) -> int
    decreases n,
{
    if n <= 0 {
        0
    } else if spec_first_failure(results, n - 1) < n - 1 {
        spec_first_failure(results, n - 1)
    } else if results[n - 1] is Err {
        n - 1
    } else {
        n
    }
}

/// Once a failure is found at `i`, looking further does not move it.
pub proof fn lemma_first_failure_extend(results: Seq<Result<Handle, String>>, i: int, n: int)
    requires
        0 <= i < n <= results.len(),
        spec_first_failure(results, i) == i,
        results[i] is Err,
    ensures
        spec_first_failure(results, n) == i,
    decreases n,
{
    if n > i + 1 {
        lemma_first_failure_extend(results, i, n - 1);
    }
}

/// The commands that hand the first `k` stages to the compiler.
pub open spec fn spec_compile_cmds(stages: Seq<ShaderStage>, k: int) -> Seq<GlCommand> {
    Seq::new(k as nat, |i: int| GlCommand::CompileShader { stage: stages[i] })
}

/// The compiled-shader handles of the first `n` replies, all successful.
pub open spec fn spec_ok_handles(results: Seq<Result<Handle, String>>, n: int) -> Seq<Handle> {
    Seq::new(n as nat, |i: int| results[i]->Ok_0)
}

/// The commands that attach each compiled shader to the program.
pub open spec fn spec_attach_cmds(program: Handle, shaders: Seq<Handle>) -> Seq<GlCommand> {
    Seq::new(shaders.len(), |i: int| GlCommand::AttachShader { program, shader: shaders[i] })
}

/// The native enumerant a capture mode converts to.
pub open spec fn spec_native_mode(mode: TransformFeedbackMode) -> u32 {
    match mode {
        TransformFeedbackMode::Interleaved => GL_INTERLEAVED_ATTRIBS,
        TransformFeedbackMode::Separate => GL_SEPARATE_ATTRIBS,
    }
}

/// The command that configures transform feedback before the link, when
/// varyings were requested: the version-appropriate call with the native
/// enumerant. Empty when none were requested.
pub open spec fn spec_tf_cmds(
    caps: Capabilities,
    input: ProgramCreationInput,
    id: Handle,
) -> Seq<GlCommand> {
    match input {
        ProgramCreationInput::SourceCode { transform_feedback_varyings: Some((names, mode)), .. } => seq![
            GlCommand::SetTransformFeedbackVaryings {
                program: id->Id_0,
                count: names@.len() as usize,
                native_mode: spec_native_mode(mode),
                modern: caps.version.spec_at_least(crate::version::Api::Gl, 3, 0),
            },
        ],
        _ => Seq::empty(),
    }
}

/// The status check after a link: one read of the link-status flag, then
/// on failure one read of the error queue, then — only when the queue was
/// clean — the ask-size-then-fetch pair for the diagnostic log.
pub open spec fn spec_link_check_cmds(id: Handle, script: DriverScript) -> Seq<GlCommand> {
    seq![GlCommand::QueryLinkStatus { program: id }] + (if script.link_status == 0 {
        seq![GlCommand::QueryErrorFlag] + (if spec_link_failure_needs_log(script.error_flag) {
            seq![
                GlCommand::QueryInfoLogLength { program: id },
                GlCommand::FetchInfoLog { program: id, buffer_len: script.info_log_length },
            ]
        } else {
            Seq::empty()
        })
    } else {
        Seq::empty()
    })
}

/// The link call followed by its status check.
pub open spec fn spec_link_cmds(id: Handle, script: DriverScript) -> Seq<GlCommand> {
    seq![GlCommand::LinkProgram { program: id }] + spec_link_check_cmds(id, script)
}

/// Transform feedback was requested against a profile that has no support
/// for it: the attempt must fail before any program object is created.
pub open spec fn spec_tf_unsupported(caps: Capabilities, input: ProgramCreationInput) -> bool {
    input.spec_requests_transform_feedback() && !caps.spec_supports_transform_feedback()
}

/// The exact command sequence the source path issues, for every outcome.
pub open spec fn spec_source_trace(
    caps: Capabilities,
    input: ProgramCreationInput,
    script: DriverScript,
) -> Seq<GlCommand> {
    let stages = input.spec_stage_kinds();
    let n = stages.len() as int;
    if spec_tf_unsupported(caps, input) {
        Seq::empty()
    } else {
        let k = spec_first_failure(script.compile_results@, n);
        if k < n {
            spec_compile_cmds(stages, k + 1)
        } else {
            spec_compile_cmds(stages, n) + seq![GlCommand::CreateProgram] + spec_attach_cmds(
                script.created_program,
                spec_ok_handles(script.compile_results@, n),
            ) + spec_tf_cmds(caps, input, script.created_program) + spec_link_cmds(
                script.created_program,
                script,
            )
        }
    }
}

/// The exact command sequence the binary path issues, for every outcome.
pub open spec fn spec_binary_trace(data_len: int, format: u32, script: DriverScript) -> Seq<
    GlCommand,
> {
    seq![
        GlCommand::CreateProgram,
        GlCommand::LoadProgramBinary {
            program: script.created_program->Id_0,
            format,
            len: data_len as usize,
        },
    ] + spec_link_check_cmds(script.created_program, script)
}

/// What the source path returns, for every outcome.
pub open spec fn spec_source_result(
    caps: Capabilities,
    input: ProgramCreationInput,
    script: DriverScript,
    r: Result<Program, ProgramCreationError>,
) -> bool {
    let stages = input.spec_stage_kinds();
    let n = stages.len() as int;
    let k = spec_first_failure(script.compile_results@, n);
    if spec_tf_unsupported(caps, input) {
        r matches Err(ProgramCreationError::TransformFeedbackNotSupported)
    } else if k < n {
        r matches Err(e) && (e matches ProgramCreationError::CompilationError(m) && m@
            == script.compile_results@[k]->Err_0@)
    } else if script.link_status == 0 {
        r matches Err(e) && (e matches ProgramCreationError::LinkingError(m) && m@
            == spec_link_failure_message(script.error_flag, script.info_log@))
    } else {
        r matches Ok(p) && spec_assembled(
            p,
            caps,
            script.created_program,
            script.reflection,
            input.spec_has_tessellation(),
        )
    }
}

/// The stage kinds of an enumerated stage list.
pub open spec fn spec_stage_kinds_of(stages: Seq<crate::input::StageSource>) -> Seq<ShaderStage> {
    Seq::new(stages.len(), |i: int| stages[i].stage)
}

/// Hands each stage to the compiler in order, stopping at the first
/// failure, which becomes the compilation error.
#[verifier::loop_isolation(false)]
fn compile_all(stages: &Vec<crate::input::StageSource>, script: &DriverScript) -> (res: (
    Result<Vec<Handle>, ProgramCreationError>,
    Vec<GlCommand>,
))
    requires
        stages@.len() <= script.compile_results@.len(),
    ensures
        ({
            let kinds = spec_stage_kinds_of(stages@);
            let n = stages@.len() as int;
            let k = spec_first_failure(script.compile_results@, n);
            &&& res.1@ == spec_compile_cmds(
                kinds,
                if k < n {
                    k + 1
                } else {
                    n
                },
            )
            &&& if k < n {
                res.0 matches Err(e) && (e matches ProgramCreationError::CompilationError(m) && m@
                    == script.compile_results@[k]->Err_0@)
            } else {
                res.0 matches Ok(hs) && hs@ == spec_ok_handles(script.compile_results@, n)
            }
        }),
{
    let ghost results = script.compile_results@;
    let ghost kinds = spec_stage_kinds_of(stages@);
    let ghost n = stages@.len() as int;
    let n_stages = stages.len();
    let mut trace: Vec<GlCommand> = Vec::new();
    let mut shaders: Vec<Handle> = Vec::new();
    let mut i: usize = 0;
    proof {
        assert(trace@ =~= spec_compile_cmds(kinds, 0));
    }
    while i < n_stages
        invariant
            i <= n_stages,
            spec_first_failure(results, i as int) == i as int,
            shaders@ == spec_ok_handles(results, i as int),
            trace@ == spec_compile_cmds(kinds, i as int),
        decreases n_stages - i,
    {
        trace.push(GlCommand::CompileShader { stage: stages[i].stage });
        proof {
            assert(trace@ =~= spec_compile_cmds(kinds, i as int + 1));
        }
        match &script.compile_results[i] {
            Ok(h) => {
                shaders.push(*h);
                proof {
                    assert(shaders@ =~= spec_ok_handles(results, i as int + 1));
                }
            },
            Err(text) => {
                proof {
                    lemma_first_failure_extend(results, i as int, n);
                }
                return (Err(ProgramCreationError::CompilationError(text.clone())), trace);
            },
        }
        i = i + 1;
    }
    (Ok(shaders), trace)
}

/// The attach command for each compiled shader, in order.
#[verifier::loop_isolation(false)]
fn attach_all(id: Handle, shaders: &Vec<Handle>) -> (tr: Vec<GlCommand>)
    ensures
        tr@ == spec_attach_cmds(id, shaders@),
{
    let mut tr: Vec<GlCommand> = Vec::new();
    let n = shaders.len();
    let mut j: usize = 0;
    proof {
        assert(tr@ =~= spec_attach_cmds(id, shaders@.take(0)));
    }
    while j < n
        invariant
            j <= n,
            tr@ == spec_attach_cmds(id, shaders@.take(j as int)),
        decreases n - j,
    {
        tr.push(GlCommand::AttachShader { program: id, shader: shaders[j] });
        proof {
            assert(tr@ =~= spec_attach_cmds(id, shaders@.take(j as int + 1)));
        }
        j = j + 1;
    }
    proof {
        assert(shaders@.take(n as int) =~= shaders@);
    }
    tr
}

/// Compiles and links a program from source.
///
/// Validates transform-feedback availability before any other work,
/// compiles each present stage in order and aborts on the first failure,
/// then creates the program, attaches the shaders, configures the
/// requested varyings, links, checks the status once, and on success
/// harvests reflection and builds the program object.
#[verifier::loop_isolation(false)]
#[verifier::rlimit(80)]
pub fn from_source_impl(
    caps: &Capabilities,
    input: &ProgramCreationInput,
    script: &DriverScript,
) -> (r: (Result<Program, ProgramCreationError>, Vec<GlCommand>))
    requires
        input is SourceCode,
        caps.spec_supports_programs(),
        script.wf_for(*caps, input.spec_stage_kinds().len() as int),
        input.spec_requests_transform_feedback() && caps.spec_supports_transform_feedback()
            ==> caps.spec_supports_modern(),
    ensures
        spec_source_result(*caps, *input, *script, r.0),
        r.1@ == spec_source_trace(*caps, *input, *script),
{
    let ghost stages_spec = input.spec_stage_kinds();
    let ghost n = stages_spec.len() as int;
    let ghost results = script.compile_results@;

    let (stages, has_tessellation_shaders) = crate::input::enumerate_stages(input);
    proof {
        assert(spec_stage_kinds_of(stages@) =~= stages_spec);
    }

    // Feature validation comes first: no driver work may precede it.
    let tf_requested = match input {
        ProgramCreationInput::SourceCode { transform_feedback_varyings, .. } =>
            transform_feedback_varyings.is_some(),
        ProgramCreationInput::Binary { .. } => false,
    };
    if tf_requested && !caps.supports_transform_feedback() {
        let trace: Vec<GlCommand> = Vec::new();
        proof {
            assert(trace@ =~= Seq::<GlCommand>::empty());
        }
        return (Err(ProgramCreationError::TransformFeedbackNotSupported), trace);
    }

    // Compile each stage in order; the first failure aborts the attempt.
    let (compiled, mut trace) = compile_all(&stages, script);
    let shaders = match compiled {
        Ok(shaders) => shaders,
        Err(e) => {
            return (Err(e), trace);
        },
    };

    // Create the empty program object; a null handle cannot occur here.
    trace.push(GlCommand::CreateProgram);
    let id = script.created_program;

    // Attach each compiled shader, with the ABI-matching call.
    let mut attach_trace = attach_all(id, &shaders);
    trace.append(&mut attach_trace);

    // Configure transform feedback, via the version-appropriate call.
    match input {
        ProgramCreationInput::SourceCode {
            transform_feedback_varyings: Some((names, mode)),
            ..
        } => {
            let raw = match id {
                Handle::Id(raw) => raw,
                Handle::Object(_) => {
                    proof {
                        assert(false);
                    }
                    0
                },
            };
            let native_mode = match *mode {
                TransformFeedbackMode::Interleaved => GL_INTERLEAVED_ATTRIBS,
                TransformFeedbackMode::Separate => GL_SEPARATE_ATTRIBS,
            };
            let modern = caps.version.at_least(crate::version::Api::Gl, 3, 0);
            trace.push(
                GlCommand::SetTransformFeedbackVaryings {
                    program: raw,
                    count: names.len(),
                    native_mode,
                    modern,
                },
            );
        },
        _ => {},
    }
    proof {
        assert(trace@ =~= spec_compile_cmds(stages_spec, n) + seq![GlCommand::CreateProgram]
            + spec_attach_cmds(id, spec_ok_handles(results, n)) + spec_tf_cmds(
            *caps,
            *input,
            id,
        ));
    }
    let ghost pre_link = trace@;

    // Link under the process-wide compiler lock, then check the status
    // exactly once.
    trace.push(GlCommand::LinkProgram { program: id });
    trace.push(GlCommand::QueryLinkStatus { program: id });
    if script.link_status == 0 {
        trace.push(GlCommand::QueryErrorFlag);
        if script.error_flag == crate::commands::GL_NO_ERROR {
            trace.push(GlCommand::QueryInfoLogLength { program: id });
            trace.push(
                GlCommand::FetchInfoLog { program: id, buffer_len: script.info_log_length },
            );
        }
    }
    proof {
        assert(trace@ =~= pre_link + spec_link_cmds(id, *script));
    }
    let outcome = check_link_outcome(script.link_status, script.error_flag, &script.info_log);
    match outcome {
        Err(e) => (Err(e), trace),
        Ok(()) => {
            // Harvest reflection only after confirmed link success.
            let program = Program::assemble(caps, id, &script.reflection, has_tessellation_shaders);
            (Ok(program), trace)
        },
    }
}

/// What the binary path returns, for every outcome.
pub open spec fn spec_binary_result(
    caps: Capabilities,
    script: DriverScript,
    r: Result<Program, ProgramCreationError>,
) -> bool {
    if script.link_status == 0 {
        r matches Err(e) && (e matches ProgramCreationError::LinkingError(m) && m@
            == spec_link_failure_message(script.error_flag, script.info_log@))
    } else {
        r matches Ok(p) && spec_assembled(p, caps, script.created_program, script.reflection, true)
    }
}

/// Creates a program from a precompiled binary blob.
///
/// Only the modern handle variant can load a binary. The blob is submitted
/// with its stored format tag and byte length, link success is checked
/// exactly as on the source path, and reflection is harvested identically.
/// Whether tessellation stages are inside a binary cannot be told from the
/// blob, so this path conservatively reports them as present.
pub fn from_binary_impl(
    caps: &Capabilities,
    input: &ProgramCreationInput,
    script: &DriverScript,
) -> (r: (Result<Program, ProgramCreationError>, Vec<GlCommand>))
    requires
        input is Binary,
        caps.spec_supports_modern(),
        script.wf_for(*caps, 0),
    ensures
        spec_binary_result(*caps, *script, r.0),
        r.1@ == spec_binary_trace(
            input->Binary_data.content@.len() as int,
            input->Binary_data.format,
            *script,
        ),
{
    let data = match input {
        ProgramCreationInput::Binary { data } => data,
        ProgramCreationInput::SourceCode { .. } => {
            proof {
                assert(false);
            }
            return (Err(ProgramCreationError::CompilationNotSupported), Vec::new());
        },
    };
    let mut trace: Vec<GlCommand> = Vec::new();
    trace.push(GlCommand::CreateProgram);
    let id = script.created_program;
    let raw = match id {
        Handle::Id(raw) => raw,
        Handle::Object(_) => {
            proof {
                assert(false);
            }
            0
        },
    };
    trace.push(
        GlCommand::LoadProgramBinary { program: raw, format: data.format, len: data.content.len() },
    );
    trace.push(GlCommand::QueryLinkStatus { program: id });
    if script.link_status == 0 {
        trace.push(GlCommand::QueryErrorFlag);
        if script.error_flag == crate::commands::GL_NO_ERROR {
            trace.push(GlCommand::QueryInfoLogLength { program: id });
            trace.push(
                GlCommand::FetchInfoLog { program: id, buffer_len: script.info_log_length },
            );
        }
    }
    let outcome = check_link_outcome(script.link_status, script.error_flag, &script.info_log);
    proof {
        assert(trace@ =~= spec_binary_trace(
            input->Binary_data.content@.len() as int,
            input->Binary_data.format,
            *script,
        ));
    }
    match outcome {
        Err(e) => (Err(e), trace),
        Ok(()) => {
            let program = Program::assemble(caps, id, &script.reflection, true);
            (Ok(program), trace)
        },
    }
}

impl Program {
    /// Builds a new program, from source or from a binary, whichever the
    /// input holds.
    pub fn new(caps: &Capabilities, input: &ProgramCreationInput, script: &DriverScript) -> (r: (
        Result<Program, ProgramCreationError>,
        Vec<GlCommand>,
    ))
        requires
            caps.spec_supports_programs(),
            input is SourceCode ==> script.wf_for(*caps, input.spec_stage_kinds().len() as int),
            input is SourceCode ==> (input.spec_requests_transform_feedback()
                && caps.spec_supports_transform_feedback() ==> caps.spec_supports_modern()),
            input is Binary ==> caps.spec_supports_modern() && script.wf_for(*caps, 0),
        ensures
            input is SourceCode ==> spec_source_result(*caps, *input, *script, r.0) && r.1@
                == spec_source_trace(*caps, *input, *script),
            input is Binary ==> spec_binary_result(*caps, *script, r.0) && r.1@
                == spec_binary_trace(
                input->Binary_data.content@.len() as int,
                input->Binary_data.format,
                *script,
            ),
    {
        match input {
            ProgramCreationInput::SourceCode { .. } => from_source_impl(caps, input, script),
            ProgramCreationInput::Binary { .. } => from_binary_impl(caps, input, script),
        }
    }

    /// Builds a new program from source code for the vertex, fragment and
    /// optionally geometry stage, with no transform feedback requested.
    pub fn from_source(
        caps: &Capabilities,
        vertex_shader: &str,
        fragment_shader: &str,
        geometry_shader: Option<&str>,
        script: &DriverScript,
    ) -> (r: (Result<Program, ProgramCreationError>, Vec<GlCommand>))
        requires
            caps.spec_supports_programs(),
            script.wf_for(*caps, if geometry_shader is Some { 3int } else { 2int }),
        ensures
            ({
                let stages = seq![ShaderStage::Vertex, ShaderStage::Fragment] + (
                if geometry_shader is Some {
                    seq![ShaderStage::Geometry]
                } else {
                    Seq::empty()
                });
                let n = stages.len() as int;
                let k = spec_first_failure(script.compile_results@, n);
                &&& (if k < n {
                    r.0 matches Err(e) && (e matches ProgramCreationError::CompilationError(m)
                        && m@ == script.compile_results@[k]->Err_0@)
                } else if script.link_status == 0 {
                    r.0 matches Err(e) && (e matches ProgramCreationError::LinkingError(m) && m@
                        == spec_link_failure_message(script.error_flag, script.info_log@))
                } else {
                    r.0 matches Ok(p) && spec_assembled(
                        p,
                        *caps,
                        script.created_program,
                        script.reflection,
                        false,
                    )
                })
                &&& r.1@ == (if k < n {
                    spec_compile_cmds(stages, k + 1)
                } else {
                    spec_compile_cmds(stages, n) + seq![GlCommand::CreateProgram]
                        + spec_attach_cmds(
                        script.created_program,
                        spec_ok_handles(script.compile_results@, n),
                    ) + spec_link_cmds(script.created_program, *script)
                })
            }),
    {
        let geometry: Option<String> = match geometry_shader {
            Some(g) => Some(g.to_owned()),
            None => None,
        };
        let input = ProgramCreationInput::SourceCode {
            vertex_shader: vertex_shader.to_owned(),
            fragment_shader: fragment_shader.to_owned(),
            geometry_shader: geometry,
            tessellation_control_shader: None,
            tessellation_evaluation_shader: None,
            transform_feedback_varyings: None,
        };
        proof {
            assert(input.spec_stage_kinds() =~= seq![ShaderStage::Vertex, ShaderStage::Fragment]
                + (if geometry_shader is Some {
                seq![ShaderStage::Geometry]
            } else {
                Seq::empty()
            }));
        }
        let r = from_source_impl(caps, &input, script);
        proof {
            assert(spec_tf_cmds(*caps, input, script.created_program) =~= Seq::<
                GlCommand,
            >::empty());
            assert(!spec_tf_unsupported(*caps, input));
        }
        r
    }
}

} // verus!
