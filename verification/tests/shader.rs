use gl_quad::gl::{GlCall, Query, Reply, Step};
use gl_quad::shader::{
    create_shader, log_buffer, log_bytes, log_line, Attribute, ShaderBuild, ShaderNext, ShaderPhase,
    ShaderStage,
};

const STATUS: u32 = 0x8B81;
const LOG_LENGTH: u32 = 0x8B84;

const SOURCE: &str = "void main(){}\0";

fn build(phase: ShaderPhase) -> ShaderBuild {
    ShaderBuild { source: SOURCE, phase }
}

#[test]
fn create_shader_asks_for_a_shader_of_its_kind() {
    for (stage, kind) in [(ShaderStage::Vertex, 0x8B31), (ShaderStage::Fragment, 0x8B30)] {
        assert_eq!(stage.kind(), kind);
        assert_eq!(
            create_shader(kind, stage.source()),
            ShaderNext::Ask {
                build: ShaderBuild { source: stage.source(), phase: ShaderPhase::Name },
                query: Query::CreateShader { kind },
            }
        );
    }
}

#[test]
fn new_shader_gets_its_source_and_is_compiled() {
    let turn = build(ShaderPhase::Name).resume(Reply::Name(7));
    assert_eq!(turn.line, None);
    assert_eq!(
        turn.steps,
        vec![
            Step::Call(GlCall::ShaderSource { shader: 7, source: SOURCE }),
            Step::Call(GlCall::CompileShader { shader: 7 }),
        ]
    );
    assert_eq!(
        turn.next,
        ShaderNext::Ask {
            build: build(ShaderPhase::Status { shader: 7 }),
            query: Query::GetShaderiv { shader: 7, parameter: STATUS, initial: 1 },
        }
    );
}

#[test]
fn compiled_shader_is_ready() {
    for status in [1, -1, 12] {
        let turn = build(ShaderPhase::Status { shader: 7 }).resume(Reply::Value(status));
        assert_eq!(turn.line, None);
        assert!(turn.steps.is_empty());
        assert_eq!(turn.next, ShaderNext::Ready { shader: 7 });
    }
}

#[test]
fn log_of_a_failed_shader_is_printed_quoted() {
    let turn = build(ShaderPhase::Status { shader: 7 }).resume(Reply::Value(0));
    assert_eq!(
        turn.next,
        ShaderNext::Ask {
            build: build(ShaderPhase::LogLength { shader: 7 }),
            query: Query::GetShaderiv { shader: 7, parameter: LOG_LENGTH, initial: 0 },
        }
    );
    let turn = build(ShaderPhase::LogLength { shader: 7 }).resume(Reply::Value(5));
    assert_eq!(
        turn.next,
        ShaderNext::Ask {
            build: build(ShaderPhase::Log { shader: 7 }),
            query: Query::GetShaderInfoLog { shader: 7, length: 5 },
        }
    );
    let turn = build(ShaderPhase::Log { shader: 7 }).resume(Reply::Log(b"0:1\n\0".to_vec()));
    assert_eq!(turn.line, Some("\"0:1\\n\\0\"".to_string()));
    assert_eq!(turn.next, ShaderNext::Ready { shader: 7 });
}

#[test]
fn log_line_replaces_what_is_not_utf8() {
    assert_eq!(log_line(b"a\xFFb"), "\"a\u{FFFD}b\"");
    assert_eq!(log_line("gr\u{FC}n \"x\"".as_bytes()), "\"gr\u{FC}n \\\"x\\\"\"");
    assert_eq!(log_line(b""), "\"\"");
}

#[test]
fn build_is_answered_by_what_it_waits_for() {
    let status = build(ShaderPhase::Status { shader: 1 });
    let length = build(ShaderPhase::LogLength { shader: 1 });
    let log = build(ShaderPhase::Log { shader: 1 });
    assert!(build(ShaderPhase::Name).is_answered_by(&Reply::Name(0)));
    assert!(!build(ShaderPhase::Name).is_answered_by(&Reply::Value(0)));
    assert!(status.is_answered_by(&Reply::Value(-3)));
    assert!(!status.is_answered_by(&Reply::Text(None)));
    assert!(length.is_answered_by(&Reply::Value(0)));
    assert!(!length.is_answered_by(&Reply::Value(-1)));
    assert!(log.is_answered_by(&Reply::Log(Vec::new())));
    assert!(!log.is_answered_by(&Reply::Name(1)));
}

#[test]
fn log_buffer_holds_spaces_and_a_nul() {
    assert_eq!(log_buffer(0), b"\0".to_vec());
    assert_eq!(log_buffer(4), b"    \0".to_vec());
}

#[test]
fn log_is_what_precedes_the_last_nul() {
    assert_eq!(log_bytes(log_buffer(3)), b"   ".to_vec());
    assert_eq!(log_bytes(b"bad\0\0".to_vec()), b"bad\0".to_vec());
    assert_eq!(log_bytes(b"\0".to_vec()), b"".to_vec());
}

/// Compiles a shader with the given replies, and tells what is printed, which
/// steps are taken and which shader there is in the end.
fn compile(
    kind: u32,
    source: &'static str,
    replies: Vec<Reply>,
) -> (Vec<String>, Vec<Step>, Option<u32>) {
    let mut lines = Vec::new();
    let mut steps = Vec::new();
    let mut next = create_shader(kind, source);
    for reply in replies {
        match next {
            ShaderNext::Ready { .. } => panic!("{:?} was not asked for", reply),
            ShaderNext::Ask { build, .. } => {
                assert!(build.is_answered_by(&reply));
                let turn = build.resume(reply);
                lines.extend(turn.line);
                steps.extend(turn.steps);
                next = turn.next;
            },
        }
    }
    let shader = match next {
        ShaderNext::Ready { shader } => Some(shader),
        ShaderNext::Ask { .. } => None,
    };
    (lines, steps, shader)
}

#[test]
fn any_source_can_be_compiled() {
    let (lines, steps, shader) =
        compile(0x8B31, "void main(){}\0", vec![Reply::Name(7), Reply::Value(1)]);
    assert!(lines.is_empty());
    assert_eq!(
        steps,
        vec![
            Step::Call(GlCall::ShaderSource { shader: 7, source: "void main(){}\0" }),
            Step::Call(GlCall::CompileShader { shader: 7 }),
        ]
    );
    assert_eq!(shader, Some(7));
}

#[test]
fn status_that_is_not_written_counts_as_success() {
    let mut next = create_shader(0x8B30, "\0");
    let mut lines = Vec::new();
    loop {
        match next {
            ShaderNext::Ready { shader } => {
                assert_eq!(shader, 0);
                break;
            },
            ShaderNext::Ask { build, query } => {
                let turn = build.resume(match query {
                    Query::CreateShader { kind } => {
                        assert_eq!(kind, 0x8B30);
                        Reply::Name(0)
                    },
                    Query::GetShaderiv { initial, .. } => Reply::Value(initial),
                    other => panic!("{:?}", other),
                });
                lines.extend(turn.line);
                next = turn.next;
            },
        }
    }
    assert!(lines.is_empty());
}

#[test]
fn log_that_is_not_written_is_printed_as_spaces() {
    let (lines, _, shader) = compile(
        0x8B31,
        SOURCE,
        vec![
            Reply::Name(3),
            Reply::Value(0),
            Reply::Value(2),
            Reply::Log(log_bytes(log_buffer(2))),
        ],
    );
    assert_eq!(lines, vec!["\"  \"".to_string()]);
    assert_eq!(shader, Some(3));
}

#[test]
fn sources_are_c_strings_of_the_shaders() {
    let vertex = ShaderStage::Vertex.source();
    let fragment = ShaderStage::Fragment.source();
    assert_eq!(
        vertex,
        "\n#version 400\nprecision highp float;\n\nin vec3 position;\nin vec3 color;\n\n\
         out vec3 v_color;\n\nvoid main() {\n    gl_Position = vec4(position, 1.0);\n    \
         v_color = color;\n}\n\0"
    );
    assert_eq!(
        fragment,
        "\n#version 400\nprecision highp float;\n\nin vec3 v_color;\nout vec4 kleur;\n\n\
         void main() {\n    kleur = vec4(v_color, 1.0);\n}\n\0"
    );
    for text in [vertex, fragment, Attribute::Position.name(), Attribute::Color.name()] {
        assert_eq!(text.find('\0'), Some(text.len() - 1));
    }
}

#[test]
fn attributes_have_their_names() {
    assert_eq!(Attribute::Position.name(), "position\0");
    assert_eq!(Attribute::Color.name(), "color\0");
}
