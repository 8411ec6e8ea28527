use shader_program::builder::DriverScript;
use shader_program::capabilities::{Capabilities, Extensions};
use shader_program::commands::{GlCommand, GL_INTERLEAVED_ATTRIBS, GL_SEPARATE_ATTRIBS};
use shader_program::error::ProgramCreationError;
use shader_program::handle::Handle;
use shader_program::input::{Binary, ProgramCreationInput, ShaderStage, TransformFeedbackMode};
use shader_program::program::Program;
use shader_program::reflection::{Attribute, Reflection, TransformFeedbackVarying, Uniform, UniformBlock};
use shader_program::table::NamedTable;
use shader_program::version::{Api, Version};

fn modern_caps() -> Capabilities {
    Capabilities {
        version: Version { api: Api::Gl, major: 3, minor: 3 },
        extensions: Extensions {
            gl_arb_shader_objects: false,
            gl_ext_transform_feedback: false,
            gl_arb_get_program_binary: false,
        },
    }
}

fn legacy_caps() -> Capabilities {
    Capabilities {
        version: Version { api: Api::Gl, major: 1, minor: 5 },
        extensions: Extensions {
            gl_arb_shader_objects: true,
            gl_ext_transform_feedback: false,
            gl_arb_get_program_binary: false,
        },
    }
}

fn empty_reflection() -> Reflection {
    Reflection {
        uniforms: NamedTable::new(),
        uniform_blocks: NamedTable::new(),
        attributes: NamedTable::new(),
        transform_feedback: None,
    }
}

fn sample_reflection() -> Reflection {
    let mut uniforms: NamedTable<Uniform> = NamedTable::new();
    uniforms.insert("mvp".to_owned(), Uniform { location: 0, size: 1 });
    uniforms.insert("light_dir".to_owned(), Uniform { location: 4, size: 1 });
    let mut attributes: NamedTable<Attribute> = NamedTable::new();
    attributes.insert("position".to_owned(), Attribute { location: 0, size: 1 });
    let mut uniform_blocks: NamedTable<UniformBlock> = NamedTable::new();
    uniform_blocks.insert("Globals".to_owned(), UniformBlock { binding: 1, size: 64 });
    Reflection {
        uniforms,
        uniform_blocks,
        attributes,
        transform_feedback: None,
    }
}

fn ok_script(reflection: Reflection) -> DriverScript {
    DriverScript {
        compile_results: vec![Ok(Handle::Id(11)), Ok(Handle::Id(12)), Ok(Handle::Id(13))],
        created_program: Handle::Id(7),
        link_status: 1,
        error_flag: 0,
        info_log_length: 0,
        info_log: String::new(),
        reflection,
    }
}

fn source_input(
    geometry: Option<&str>,
    varyings: Option<(Vec<String>, TransformFeedbackMode)>,
) -> ProgramCreationInput {
    ProgramCreationInput::SourceCode {
        vertex_shader: "void main() {}".to_owned(),
        fragment_shader: "void main() {}".to_owned(),
        geometry_shader: geometry.map(|s| s.to_owned()),
        tessellation_control_shader: None,
        tessellation_evaluation_shader: None,
        transform_feedback_varyings: varyings,
    }
}

#[test]
fn successful_build_exposes_reflection_names() {
    let caps = modern_caps();
    let input = source_input(None, None);
    let script = ok_script(sample_reflection());
    let (result, trace) = Program::new(&caps, &input, &script);
    let program = result.expect("link succeeded");
    assert!(program.get_uniform("mvp").is_some());
    assert_eq!(program.get_uniform("mvp").unwrap().location, 0);
    assert!(program.get_uniform("light_dir").is_some());
    assert!(program.get_uniform("absent").is_none());
    assert!(program.get_attribute("position").is_some());
    assert!(program.get_attribute("mvp").is_none());
    assert_eq!(program.uniforms().len(), 2);
    assert_eq!(program.attributes().len(), 1);
    assert_eq!(program.get_uniform_blocks().len(), 1);
    assert!(!program.has_tessellation_shaders());
    assert_eq!(program.get_id(), Handle::Id(7));
    // vertex + fragment compile, create, two attaches, link, one status check
    assert_eq!(
        trace,
        vec![
            GlCommand::CompileShader { stage: ShaderStage::Vertex },
            GlCommand::CompileShader { stage: ShaderStage::Fragment },
            GlCommand::CreateProgram,
            GlCommand::AttachShader { program: Handle::Id(7), shader: Handle::Id(11) },
            GlCommand::AttachShader { program: Handle::Id(7), shader: Handle::Id(12) },
            GlCommand::LinkProgram { program: Handle::Id(7) },
            GlCommand::QueryLinkStatus { program: Handle::Id(7) },
        ]
    );
}

#[test]
fn compilation_failure_aborts_without_program() {
    let caps = modern_caps();
    let input = source_input(None, None);
    let mut script = ok_script(empty_reflection());
    script.compile_results = vec![
        Ok(Handle::Id(11)),
        Err("0:3: 'undeclared_identifier' : undeclared identifier".to_owned()),
    ];
    let (result, trace) = Program::new(&caps, &input, &script);
    match result {
        Err(ProgramCreationError::CompilationError(text)) => {
            assert!(!text.is_empty());
            assert!(text.contains("undeclared identifier"));
        }
        other => panic!("expected a compilation error, got {:?}", other),
    }
    // both stages were handed to the compiler, and nothing else happened
    assert_eq!(
        trace,
        vec![
            GlCommand::CompileShader { stage: ShaderStage::Vertex },
            GlCommand::CompileShader { stage: ShaderStage::Fragment },
        ]
    );
    assert!(!trace.contains(&GlCommand::CreateProgram));
}

#[test]
fn first_compile_failure_wins() {
    let caps = modern_caps();
    let input = source_input(None, None);
    let mut script = ok_script(empty_reflection());
    script.compile_results = vec![
        Err("vertex broken".to_owned()),
        Err("fragment broken".to_owned()),
    ];
    let (result, trace) = Program::new(&caps, &input, &script);
    match result {
        Err(ProgramCreationError::CompilationError(text)) => assert_eq!(text, "vertex broken"),
        other => panic!("expected a compilation error, got {:?}", other),
    }
    assert_eq!(trace, vec![GlCommand::CompileShader { stage: ShaderStage::Vertex }]);
}

#[test]
fn link_failure_yields_log_and_single_status_check() {
    let caps = modern_caps();
    let input = source_input(None, None);
    let mut script = ok_script(empty_reflection());
    script.link_status = 0;
    script.error_flag = 0;
    script.info_log_length = 20;
    script.info_log = "mismatched varying interface".to_owned();
    let (result, trace) = Program::new(&caps, &input, &script);
    match result {
        Err(ProgramCreationError::LinkingError(text)) => {
            assert_eq!(text, "mismatched varying interface");
        }
        other => panic!("expected a linking error, got {:?}", other),
    }
    let status_checks = trace
        .iter()
        .filter(|c| matches!(c, GlCommand::QueryLinkStatus { .. }))
        .count();
    assert_eq!(status_checks, 1);
    // the diagnostic protocol ran: error queue once, then size, then fetch
    assert!(trace.contains(&GlCommand::QueryErrorFlag));
    assert!(trace.contains(&GlCommand::QueryInfoLogLength { program: Handle::Id(7) }));
    assert!(trace.contains(&GlCommand::FetchInfoLog { program: Handle::Id(7), buffer_len: 20 }));
}

#[test]
fn link_failure_with_pending_error_names_the_code() {
    let caps = modern_caps();
    let input = source_input(None, None);
    let mut script = ok_script(empty_reflection());
    script.link_status = 0;
    script.error_flag = 0x0501; // GL_INVALID_VALUE
    let (result, trace) = Program::new(&caps, &input, &script);
    match result {
        Err(ProgramCreationError::LinkingError(text)) => {
            assert_eq!(text, "glLinkProgram triggered GL_INVALID_VALUE");
        }
        other => panic!("expected a linking error, got {:?}", other),
    }
    // the log is not fetched when the error queue was dirty
    assert!(!trace.contains(&GlCommand::QueryInfoLogLength { program: Handle::Id(7) }));
}

#[test]
fn transform_feedback_unsupported_fails_before_any_work() {
    let caps = legacy_caps(); // no modern version, no transform-feedback extension
    let input = source_input(
        None,
        Some((vec!["out_pos".to_owned()], TransformFeedbackMode::Interleaved)),
    );
    let mut script = ok_script(empty_reflection());
    script.compile_results = vec![Ok(Handle::Object(21)), Ok(Handle::Object(22))];
    script.created_program = Handle::Object(9);
    let (result, trace) = Program::new(&caps, &input, &script);
    match result {
        Err(ProgramCreationError::TransformFeedbackNotSupported) => {}
        other => panic!("expected transform feedback to be unsupported, got {:?}", other),
    }
    assert!(trace.is_empty());
    assert!(!trace.contains(&GlCommand::CreateProgram));
}

#[test]
fn transform_feedback_configured_before_link() {
    let caps = modern_caps();
    let input = source_input(
        None,
        Some((
            vec!["out_pos".to_owned(), "out_norm".to_owned()],
            TransformFeedbackMode::Separate,
        )),
    );
    let script = ok_script(empty_reflection());
    let (result, trace) = Program::new(&caps, &input, &script);
    assert!(result.is_ok());
    let tf_at = trace
        .iter()
        .position(|c| matches!(c, GlCommand::SetTransformFeedbackVaryings { .. }))
        .expect("varyings configured");
    let link_at = trace
        .iter()
        .position(|c| matches!(c, GlCommand::LinkProgram { .. }))
        .unwrap();
    assert!(tf_at < link_at);
    assert_eq!(
        trace[tf_at],
        GlCommand::SetTransformFeedbackVaryings {
            program: 7,
            count: 2,
            native_mode: GL_SEPARATE_ATTRIBS,
            modern: true,
        }
    );
    assert_eq!(GL_INTERLEAVED_ATTRIBS, 0x8C8C);
    assert_eq!(GL_SEPARATE_ATTRIBS, 0x8C8D);
}

#[test]
fn all_five_stages_compile_in_order() {
    let caps = modern_caps();
    let input = ProgramCreationInput::SourceCode {
        vertex_shader: "v".to_owned(),
        fragment_shader: "f".to_owned(),
        geometry_shader: Some("g".to_owned()),
        tessellation_control_shader: Some("tc".to_owned()),
        tessellation_evaluation_shader: Some("te".to_owned()),
        transform_feedback_varyings: None,
    };
    let mut script = ok_script(empty_reflection());
    script.compile_results = vec![
        Ok(Handle::Id(1)),
        Ok(Handle::Id(2)),
        Ok(Handle::Id(3)),
        Ok(Handle::Id(4)),
        Ok(Handle::Id(5)),
    ];
    let (result, trace) = Program::new(&caps, &input, &script);
    let program = result.expect("link succeeded");
    assert!(program.has_tessellation_shaders());
    let compiled: Vec<ShaderStage> = trace
        .iter()
        .filter_map(|c| match c {
            GlCommand::CompileShader { stage } => Some(*stage),
            _ => None,
        })
        .collect();
    assert_eq!(
        compiled,
        vec![
            ShaderStage::Vertex,
            ShaderStage::Fragment,
            ShaderStage::Geometry,
            ShaderStage::TessellationControl,
            ShaderStage::TessellationEvaluation,
        ]
    );
}

#[test]
fn from_source_convenience_matches_dispatch() {
    let caps = modern_caps();
    let script = ok_script(sample_reflection());
    let (result, trace) = Program::from_source(&caps, "vs", "fs", None, &script);
    let program = result.expect("link succeeded");
    assert!(program.get_uniform("mvp").is_some());
    assert!(!program.has_tessellation_shaders());
    assert_eq!(trace.len(), 7);
}

#[test]
fn binary_path_reports_tessellation_conservatively() {
    let caps = modern_caps();
    let input = ProgramCreationInput::Binary {
        data: Binary { format: 0xBEEF, content: vec![1, 2, 3, 4] },
    };
    let script = ok_script(sample_reflection());
    let (result, trace) = Program::new(&caps, &input, &script);
    let program = result.expect("link succeeded");
    // tessellation presence cannot be told from a blob: reported as present
    assert!(program.has_tessellation_shaders());
    assert!(program.get_uniform("mvp").is_some());
    assert_eq!(
        trace,
        vec![
            GlCommand::CreateProgram,
            GlCommand::LoadProgramBinary { program: 7, format: 0xBEEF, len: 4 },
            GlCommand::QueryLinkStatus { program: Handle::Id(7) },
        ]
    );
}

#[test]
fn binary_round_trip_preserves_name_set() {
    // a profile recent enough that taking the binary is supported
    let caps_bin = Capabilities {
        version: Version { api: Api::Gl, major: 4, minor: 1 },
        ..modern_caps()
    };
    let source_script = ok_script(sample_reflection());
    let (first, _) = Program::new(&caps_bin, &source_input(None, None), &source_script);
    let first = first.expect("source link succeeded");
    let (binary, _) = first.get_binary(64, &vec![9u8; 64], 0x1234);
    assert_eq!(binary.content.len(), 64);

    // the driver reflects the reloaded program identically
    let binary_script = ok_script(sample_reflection());
    let input = ProgramCreationInput::Binary { data: binary };
    let (second, _) = Program::new(&caps_bin, &input, &binary_script);
    let second = second.expect("binary link succeeded");

    for name in ["mvp", "light_dir", "position", "absent"] {
        assert_eq!(
            first.get_uniform(name).is_some(),
            second.get_uniform(name).is_some(),
            "uniform name set differs at {name}"
        );
        assert_eq!(
            first.get_attribute(name).is_some(),
            second.get_attribute(name).is_some(),
            "attribute name set differs at {name}"
        );
    }
    assert_eq!(first.uniforms().len(), second.uniforms().len());
    assert_eq!(first.attributes().len(), second.attributes().len());
}

#[test]
fn legacy_profile_builds_with_object_handles() {
    let caps = legacy_caps();
    let input = source_input(None, None);
    let mut script = ok_script(empty_reflection());
    script.compile_results = vec![Ok(Handle::Object(21)), Ok(Handle::Object(22))];
    script.created_program = Handle::Object(9);
    let (result, trace) = Program::new(&caps, &input, &script);
    let program = result.expect("link succeeded");
    assert_eq!(program.get_id(), Handle::Object(9));
    assert!(trace.contains(&GlCommand::AttachShader {
        program: Handle::Object(9),
        shader: Handle::Object(21)
    }));
}

#[test]
fn transform_feedback_varyings_stored_when_reflected() {
    let caps = modern_caps();
    let input = source_input(
        None,
        Some((vec!["out_pos".to_owned()], TransformFeedbackMode::Interleaved)),
    );
    let mut reflection = empty_reflection();
    reflection.transform_feedback = Some((
        vec![TransformFeedbackVarying { name: "out_pos".to_owned(), size: 16 }],
        TransformFeedbackMode::Interleaved,
    ));
    let script = ok_script(reflection);
    let (result, _) = Program::new(&caps, &input, &script);
    let program = result.expect("link succeeded");
    let varyings = program.get_transform_feedback_varyings();
    assert_eq!(varyings.len(), 1);
    assert_eq!(varyings[0].name, "out_pos");
    assert_eq!(varyings[0].size, 16);
    assert_eq!(
        program.get_transform_feedback_mode(),
        Some(TransformFeedbackMode::Interleaved)
    );
}

#[test]
fn no_transform_feedback_means_empty_varyings() {
    let caps = modern_caps();
    let script = ok_script(empty_reflection());
    let (result, _) = Program::new(&caps, &source_input(None, None), &script);
    let program = result.expect("link succeeded");
    assert!(program.get_transform_feedback_varyings().is_empty());
    assert_eq!(program.get_transform_feedback_mode(), None);
}

#[test]
fn enumerate_stages_carries_sources_in_order() {
    let input = ProgramCreationInput::SourceCode {
        vertex_shader: "vertex src".to_owned(),
        fragment_shader: "fragment src".to_owned(),
        geometry_shader: Some("geometry src".to_owned()),
        tessellation_control_shader: Some("tc src".to_owned()),
        tessellation_evaluation_shader: Some("te src".to_owned()),
        transform_feedback_varyings: None,
    };
    let (stages, has_tessellation) = shader_program::input::enumerate_stages(&input);
    assert!(has_tessellation);
    let listed: Vec<(&str, ShaderStage)> =
        stages.iter().map(|s| (s.source.as_str(), s.stage)).collect();
    assert_eq!(
        listed,
        vec![
            ("vertex src", ShaderStage::Vertex),
            ("fragment src", ShaderStage::Fragment),
            ("geometry src", ShaderStage::Geometry),
            ("tc src", ShaderStage::TessellationControl),
            ("te src", ShaderStage::TessellationEvaluation),
        ]
    );
}
