use shader_program::builder::DriverScript;
use shader_program::capabilities::{Capabilities, Extensions};
use shader_program::commands::GlCommand;
use shader_program::error::ProgramCreationError;
use shader_program::handle::Handle;
use shader_program::input::{ProgramCreationInput, TransformFeedbackMode};
use shader_program::link::check_link_outcome;
use shader_program::program::Program;
use shader_program::reflection::Reflection;
use shader_program::table::NamedTable;
use shader_program::version::{Api, Version};

fn caps_with(version: Version, extensions: Extensions) -> Capabilities {
    Capabilities { version, extensions }
}

fn no_extensions() -> Extensions {
    Extensions {
        gl_arb_shader_objects: false,
        gl_ext_transform_feedback: false,
        gl_arb_get_program_binary: false,
    }
}

fn build_program(caps: &Capabilities, created: Handle, compiled: Vec<Handle>) -> Program {
    let script = DriverScript {
        compile_results: compiled.into_iter().map(Ok).collect(),
        created_program: created,
        link_status: 1,
        error_flag: 0,
        info_log_length: 0,
        info_log: String::new(),
        reflection: Reflection {
            uniforms: NamedTable::new(),
            uniform_blocks: NamedTable::new(),
            attributes: NamedTable::new(),
            transform_feedback: None,
        },
    };
    let input = ProgramCreationInput::SourceCode {
        vertex_shader: "v".to_owned(),
        fragment_shader: "f".to_owned(),
        geometry_shader: None,
        tessellation_control_shader: None,
        tessellation_evaluation_shader: None,
        transform_feedback_varyings: None,
    };
    let (result, _) = Program::new(caps, &input, &script);
    result.expect("link succeeded")
}

fn modern_program() -> Program {
    let caps = caps_with(Version { api: Api::Gl, major: 3, minor: 0 }, no_extensions());
    build_program(&caps, Handle::Id(5), vec![Handle::Id(1), Handle::Id(2)])
}

fn legacy_program() -> Program {
    let caps = caps_with(
        Version { api: Api::Gl, major: 1, minor: 5 },
        Extensions { gl_arb_shader_objects: true, ..no_extensions() },
    );
    build_program(&caps, Handle::Object(8), vec![Handle::Object(1), Handle::Object(2)])
}

#[test]
fn frag_data_location_found_and_cached() {
    let mut program = modern_program();
    assert!(program.needs_frag_data_query("color"));
    let first = program.get_frag_data_location("color", 2);
    assert_eq!(first, Some(2));
    // the cache now answers; the reply is ignored on the second call
    assert!(!program.needs_frag_data_query("color"));
    let second = program.get_frag_data_location("color", -1);
    assert_eq!(second, Some(2));
}

#[test]
fn frag_data_location_negative_sentinel_is_not_found_and_cached() {
    let mut program = modern_program();
    assert_eq!(program.get_frag_data_location("ghost_output", -1), None);
    // the miss is cached too, so absent names stay cheap
    assert!(!program.needs_frag_data_query("ghost_output"));
    assert_eq!(program.get_frag_data_location("ghost_output", 7), None);
}

#[test]
fn frag_data_location_legacy_always_not_found_without_query() {
    let mut program = legacy_program();
    // the legacy variant cannot be queried at all
    assert!(!program.needs_frag_data_query("color"));
    assert_eq!(program.get_frag_data_location("color", 3), None);
    assert_eq!(program.get_frag_data_location("color", 3), None);
}

#[test]
fn frag_data_location_distinct_names_cached_independently() {
    let mut program = modern_program();
    assert_eq!(program.get_frag_data_location("a", 0), Some(0));
    assert_eq!(program.get_frag_data_location("b", 1), Some(1));
    assert_eq!(program.get_frag_data_location("a", 9), Some(0));
    assert_eq!(program.get_frag_data_location("b", 9), Some(1));
}

#[test]
fn destroy_purges_once_then_unbinds_then_deletes() {
    let program = modern_program();
    let id = program.get_id();
    // the program is the one currently bound
    let (trace, bound_after) = program.destroy(id);
    assert_eq!(
        trace,
        vec![
            GlCommand::PurgeVertexArrayObjects { program: id },
            GlCommand::UnbindProgram,
            GlCommand::DeleteProgram { program: id },
        ]
    );
    let purges = trace
        .iter()
        .filter(|c| matches!(c, GlCommand::PurgeVertexArrayObjects { program } if *program == id))
        .count();
    assert_eq!(purges, 1);
    assert_eq!(bound_after, Handle::Id(0));
}

#[test]
fn destroy_leaves_other_binding_alone() {
    let program = modern_program();
    let id = program.get_id();
    let other = Handle::Id(99);
    let (trace, bound_after) = program.destroy(other);
    assert_eq!(
        trace,
        vec![
            GlCommand::PurgeVertexArrayObjects { program: id },
            GlCommand::DeleteProgram { program: id },
        ]
    );
    assert_eq!(bound_after, other);
}

#[test]
fn binary_not_supported_is_none_not_an_error() {
    let program = modern_program(); // version 3.0, no binary extension
    assert!(!program.binary_supported());
    let (binary, trace) = program.get_binary_if_supported(0, &vec![], 0);
    assert!(binary.is_none());
    assert!(trace.is_empty());
}

#[test]
fn binary_supported_uses_size_then_fetch_protocol() {
    let caps = caps_with(
        Version { api: Api::Gl, major: 4, minor: 1 },
        no_extensions(),
    );
    let program = build_program(&caps, Handle::Id(5), vec![Handle::Id(1), Handle::Id(2)]);
    assert!(program.binary_supported());
    let blob = vec![0xAAu8, 0xBB, 0xCC];
    let (binary, trace) = program.get_binary_if_supported(3, &blob, 0x8740);
    let binary = binary.expect("supported");
    assert_eq!(binary.format, 0x8740);
    assert_eq!(binary.content, blob);
    assert_eq!(
        trace,
        vec![
            GlCommand::QueryBinaryLength { program: 5 },
            GlCommand::FetchBinary { program: 5, buffer_len: 3 },
        ]
    );
}

#[test]
fn binary_supported_by_extension_alone() {
    let caps = caps_with(
        Version { api: Api::Gl, major: 3, minor: 0 },
        Extensions { gl_arb_get_program_binary: true, ..no_extensions() },
    );
    let program = build_program(&caps, Handle::Id(5), vec![Handle::Id(1), Handle::Id(2)]);
    assert!(program.binary_supported());
}

#[test]
fn link_outcome_messages_are_exact() {
    let log = "some log".to_owned();
    assert!(check_link_outcome(1, 0, &log).is_ok());
    match check_link_outcome(0, 0, &log) {
        Err(ProgramCreationError::LinkingError(m)) => assert_eq!(m, "some log"),
        other => panic!("unexpected {:?}", other),
    }
    match check_link_outcome(0, 0x0501, &log) {
        Err(ProgramCreationError::LinkingError(m)) => {
            assert_eq!(m, "glLinkProgram triggered GL_INVALID_VALUE")
        }
        other => panic!("unexpected {:?}", other),
    }
    match check_link_outcome(0, 0x0502, &log) {
        Err(ProgramCreationError::LinkingError(m)) => {
            assert_eq!(m, "glLinkProgram triggered GL_INVALID_OPERATION")
        }
        other => panic!("unexpected {:?}", other),
    }
    match check_link_outcome(0, 0x0500, &log) {
        Err(ProgramCreationError::LinkingError(m)) => {
            assert_eq!(m, "glLinkProgram triggered an unknown error")
        }
        other => panic!("unexpected {:?}", other),
    }
}

#[test]
fn error_messages_and_descriptions() {
    let e = ProgramCreationError::CompilationError("bad token".to_owned());
    assert_eq!(e.message(), "Compilation error in one of the shaders: bad token");
    assert_eq!(e.description(), "Compilation error in one of the shaders");

    let e = ProgramCreationError::LinkingError("no main".to_owned());
    assert_eq!(e.message(), "Error while linking shaders together: no main");
    assert_eq!(e.description(), "Error while linking shaders together");

    let e = ProgramCreationError::TransformFeedbackNotSupported;
    assert_eq!(
        e.message(),
        "You requested transform feedback, but this feature is not supported by the backend"
    );
    assert_eq!(e.description(), "Transform feedback is not supported by the backend.");

    let e = ProgramCreationError::ShaderTypeNotSupported;
    assert_eq!(
        e.description(),
        "One of the request shader type is not supported by the backend"
    );
    let e = ProgramCreationError::CompilationNotSupported;
    assert_eq!(e.description(), "The backend doesn't support shaders compilation");
}

#[test]
fn version_comparison_edges() {
    let v20 = Version { api: Api::Gl, major: 2, minor: 0 };
    assert!(v20.at_least(Api::Gl, 2, 0));
    assert!(!v20.at_least(Api::Gl, 2, 1));
    assert!(v20.at_least(Api::Gl, 1, 9));
    assert!(!v20.at_least(Api::GlEs, 2, 0));
    let v15 = Version { api: Api::Gl, major: 1, minor: 5 };
    assert!(!v15.at_least(Api::Gl, 2, 0));
}

#[test]
fn capability_predicates() {
    let modern = caps_with(Version { api: Api::Gl, major: 3, minor: 0 }, no_extensions());
    assert!(modern.supports_modern());
    assert!(modern.supports_programs());
    assert!(modern.supports_transform_feedback());
    assert!(!modern.supports_binary());
    assert!(modern.handle_matches(&Handle::Id(1)));
    assert!(!modern.handle_matches(&Handle::Object(1)));

    let legacy = caps_with(
        Version { api: Api::Gl, major: 1, minor: 5 },
        Extensions {
            gl_arb_shader_objects: true,
            gl_ext_transform_feedback: true,
            gl_arb_get_program_binary: false,
        },
    );
    assert!(!legacy.supports_modern());
    assert!(legacy.supports_programs());
    assert!(legacy.supports_transform_feedback());
    assert!(legacy.handle_matches(&Handle::Object(1)));
    assert!(!legacy.handle_matches(&Handle::Id(1)));

    let bare = caps_with(Version { api: Api::Gl, major: 1, minor: 1 }, no_extensions());
    assert!(!bare.supports_programs());
}

#[test]
fn named_table_lookup_and_order() {
    let mut table: NamedTable<i32> = NamedTable::new();
    table.insert("alpha".to_owned(), 1);
    table.insert("beta".to_owned(), 2);
    assert_eq!(table.len(), 2);
    assert_eq!(table.get("alpha"), Some(1));
    assert_eq!(table.get("beta"), Some(2));
    assert_eq!(table.get("gamma"), None);
    let (name0, v0) = table.entry_at(0);
    assert_eq!((name0.as_str(), v0), ("alpha", 1));
    let (name1, v1) = table.entry_at(1);
    assert_eq!((name1.as_str(), v1), ("beta", 2));
    let copy = table.duplicate();
    assert_eq!(copy.get("alpha"), Some(1));
    assert_eq!(copy.len(), 2);
}

#[test]
fn transform_feedback_mode_values_distinct() {
    assert_ne!(TransformFeedbackMode::Interleaved, TransformFeedbackMode::Separate);
}
