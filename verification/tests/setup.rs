use gl_quad::geometry::BufferContents;
use gl_quad::gl::{GlCall, Query, Reply, Step};
use gl_quad::playback::Playback;
use gl_quad::renderer::Renderer;
use gl_quad::report::Checkpoint;
use gl_quad::setup::{Identity, Next, RendererSetup, Turn};
use gl_quad::shader::{Attribute, ShaderStage};

/// Something that happens while a renderer is made.
#[derive(Debug, PartialEq)]
enum Effect {
    Print(String),
    Do(Step),
    Ask(Query),
}

/// Makes a renderer with the given replies, and tells what happened.
fn make(replies: Vec<Reply>) -> (Vec<Effect>, Option<Renderer>) {
    let mut effects = Vec::new();
    let mut replies = replies.into_iter();
    let mut turn: Turn = Renderer::new();
    loop {
        if let Some(line) = turn.line {
            effects.push(Effect::Print(line));
        }
        effects.extend(turn.steps.into_iter().map(Effect::Do));
        match turn.next {
            Next::Ready { renderer } => {
                assert!(replies.next().is_none());
                return (effects, Some(renderer));
            },
            Next::Ask { setup, query } => {
                effects.push(Effect::Ask(query));
                match replies.next() {
                    None => return (effects, None),
                    Some(reply) => {
                        assert!(setup.is_answered_by(&reply));
                        turn = setup.resume(reply);
                    },
                }
            },
        }
    }
}

fn call(call: GlCall) -> Effect {
    Effect::Do(Step::Call(call))
}

fn check(checkpoint: Checkpoint) -> Effect {
    Effect::Do(Step::Check(checkpoint))
}

fn text(bytes: &[u8]) -> Reply {
    Reply::Text(Some(bytes.to_vec()))
}

/// What happens once the shaders 1 and 2 are there.
fn objects_script(position: u32, color: u32) -> Vec<Effect> {
    vec![
        Effect::Ask(Query::CreateProgram),
        call(GlCall::AttachShader { program: 3, shader: 1 }),
        call(GlCall::AttachShader { program: 3, shader: 2 }),
        call(GlCall::LinkProgram { program: 3 }),
        call(GlCall::UseProgram { program: 3 }),
        call(GlCall::DeleteShader { shader: 1 }),
        call(GlCall::DeleteShader { shader: 2 }),
        Effect::Ask(Query::GenVertexArrays),
        call(GlCall::BindVertexArray { array: 4 }),
        Effect::Ask(Query::GenBuffers),
        call(GlCall::BindBuffer { target: 0x8892, buffer: 5 }),
        call(GlCall::BufferData {
            target: 0x8892,
            size: 16,
            contents: BufferContents::Vertices,
            usage: 0x88E4,
        }),
        check(Checkpoint::VerticesUploaded),
        Effect::Ask(Query::GenBuffers),
        call(GlCall::BindBuffer { target: 0x8893, buffer: 6 }),
        check(Checkpoint::ElementBufferBound),
        call(GlCall::BufferData {
            target: 0x8893,
            size: 24,
            contents: BufferContents::Indices,
            usage: 0x88E4,
        }),
        check(Checkpoint::IndicesUploaded),
        Effect::Ask(Query::GetAttribLocation { program: 3, attribute: Attribute::Position }),
        Effect::Ask(Query::GetAttribLocation { program: 3, attribute: Attribute::Color }),
        call(GlCall::VertexAttribPointer {
            index: position,
            components: 3,
            kind: 0x1406,
            normalized: 0,
            stride: 24,
            offset: 0,
        }),
        call(GlCall::VertexAttribPointer {
            index: color,
            components: 3,
            kind: 0x1406,
            normalized: 0,
            stride: 24,
            offset: 12,
        }),
        call(GlCall::EnableVertexAttribArray { index: position }),
        check(Checkpoint::PositionEnabled),
        call(GlCall::EnableVertexAttribArray { index: color }),
        check(Checkpoint::ColorEnabled),
    ]
}

fn shader_script(shader: u32, stage: ShaderStage) -> Vec<Effect> {
    vec![
        Effect::Ask(Query::CreateShader { kind: stage.kind() }),
        call(GlCall::ShaderSource { shader, source: stage.source() }),
        call(GlCall::CompileShader { shader }),
        Effect::Ask(Query::GetShaderiv { shader, parameter: 0x8B81, initial: 1 }),
    ]
}

#[test]
fn renderer_is_made_step_by_step() {
    let (effects, renderer) = make(vec![
        text(b"llvmpipe"),
        text(b"3.2"),
        text(b"4.50"),
        Reply::Name(1),
        Reply::Value(1),
        Reply::Name(2),
        Reply::Value(1),
        Reply::Name(3),
        Reply::Name(4),
        Reply::Name(5),
        Reply::Name(6),
        Reply::Value(0),
        Reply::Value(1),
    ]);
    let mut expected = vec![
        Effect::Ask(Query::GetString { name: 0x1F01 }),
        Effect::Print("Running on llvmpipe".to_string()),
        Effect::Ask(Query::GetString { name: 0x1F02 }),
        Effect::Print("OpenGL Version 3.2".to_string()),
        Effect::Ask(Query::GetString { name: 0x8B8C }),
        Effect::Print("Shaders version on 4.50".to_string()),
    ];
    expected.extend(shader_script(1, ShaderStage::Vertex));
    expected.extend(shader_script(2, ShaderStage::Fragment));
    expected.extend(objects_script(0, 1));
    assert_eq!(effects, expected);
    assert_eq!(renderer, Some(Renderer { program: 3, vao: 4, vbo: 5, ebo: 6 }));
}

#[test]
fn failed_shaders_are_logged_and_used_all_the_same() {
    let (effects, renderer) = make(vec![
        Reply::Text(None),
        Reply::Text(None),
        Reply::Text(None),
        Reply::Name(1),
        Reply::Value(0),
        Reply::Value(3),
        Reply::Log(b"bad".to_vec()),
        Reply::Name(2),
        Reply::Value(0),
        Reply::Value(0),
        Reply::Log(Vec::new()),
        Reply::Name(3),
        Reply::Name(4),
        Reply::Name(5),
        Reply::Name(6),
        Reply::Value(-1),
        Reply::Value(-1),
    ]);
    let mut expected = vec![
        Effect::Ask(Query::GetString { name: 0x1F01 }),
        Effect::Ask(Query::GetString { name: 0x1F02 }),
        Effect::Ask(Query::GetString { name: 0x8B8C }),
    ];
    for (shader, stage, length, line) in
        [(1, ShaderStage::Vertex, 3, "\"bad\""), (2, ShaderStage::Fragment, 0, "\"\"")]
    {
        expected.extend(shader_script(shader, stage));
        expected.extend(vec![
            Effect::Ask(Query::GetShaderiv { shader, parameter: 0x8B84, initial: 0 }),
            Effect::Ask(Query::GetShaderInfoLog { shader, length }),
            Effect::Print(line.to_string()),
        ]);
    }
    expected.extend(objects_script(u32::MAX, u32::MAX));
    assert_eq!(effects, expected);
    assert_eq!(renderer, Some(Renderer { program: 3, vao: 4, vbo: 5, ebo: 6 }));
}

#[test]
fn everything_made_is_deleted() {
    let (effects, renderer) = make(plain_replies());
    let mut deleted: Vec<u32> = effects
        .into_iter()
        .filter_map(|effect| match effect {
            Effect::Do(Step::Call(GlCall::DeleteShader { shader })) => Some(shader),
            _ => None,
        })
        .collect();
    for step in renderer.unwrap().drop() {
        match step {
            Step::Call(GlCall::DeleteProgram { program }) => deleted.push(program),
            Step::Call(GlCall::DeleteBuffers { buffer }) => deleted.push(buffer),
            Step::Call(GlCall::DeleteVertexArrays { array }) => deleted.push(array),
            other => panic!("{:?}", other),
        }
    }
    assert_eq!(deleted, vec![1, 2, 3, 5, 4, 6]);
}

fn plain_replies() -> Vec<Reply> {
    vec![
        Reply::Text(None),
        Reply::Text(None),
        Reply::Text(None),
        Reply::Name(1),
        Reply::Value(1),
        Reply::Name(2),
        Reply::Value(1),
        Reply::Name(3),
        Reply::Name(4),
        Reply::Name(5),
        Reply::Name(6),
        Reply::Value(0),
        Reply::Value(1),
    ]
}

/// Makes a renderer with [`plain_replies`], where the error that is pending at
/// each checkpoint is the one that `code` gives. Tells what happened, and the
/// renderer or the status that the process is left with.
fn make_with_errors(code: fn(Checkpoint) -> u32) -> (Vec<Effect>, Result<Renderer, i32>) {
    let mut effects = Vec::new();
    let mut replies = plain_replies().into_iter();
    let mut turn: Turn = Renderer::new();
    loop {
        let mut playback = Playback::new(turn.steps);
        while let Some(step) = playback.next() {
            effects.push(Effect::Do(step));
            match step {
                Step::Call(_) => playback.called(),
                Step::Check(checkpoint) => {
                    if let Some(status) = playback.checked(code(checkpoint)).exit {
                        assert_eq!(playback.next(), None);
                        return (effects, Err(status));
                    }
                },
            }
        }
        match turn.next {
            Next::Ready { renderer } => return (effects, Ok(renderer)),
            Next::Ask { setup, query } => {
                effects.push(Effect::Ask(query));
                turn = setup.resume(replies.next().unwrap());
            },
        }
    }
}

#[test]
fn renderer_is_made_if_no_check_finds_an_error() {
    let (effects, renderer) = make_with_errors(|_| 0);
    assert_eq!(effects, make(plain_replies()).0);
    assert_eq!(renderer, Ok(Renderer { program: 3, vao: 4, vbo: 5, ebo: 6 }));
}

#[test]
fn setup_stops_at_the_first_check_that_finds_an_error() {
    let cases: [(fn(Checkpoint) -> u32, Checkpoint); 5] = [
        (|_| 0x0500, Checkpoint::VerticesUploaded),
        (
            |checkpoint| if checkpoint == Checkpoint::VerticesUploaded { 0 } else { 0x0501 },
            Checkpoint::ElementBufferBound,
        ),
        (
            |checkpoint| if checkpoint == Checkpoint::IndicesUploaded { 0x0505 } else { 0 },
            Checkpoint::IndicesUploaded,
        ),
        (
            |checkpoint| if checkpoint == Checkpoint::PositionEnabled { 0x0502 } else { 0 },
            Checkpoint::PositionEnabled,
        ),
        (
            |checkpoint| if checkpoint == Checkpoint::ColorEnabled { 0xFFFF } else { 0 },
            Checkpoint::ColorEnabled,
        ),
    ];
    for (code, last) in cases {
        let (effects, outcome) = make_with_errors(code);
        let mut script = make(plain_replies()).0;
        let end = script.iter().position(|effect| *effect == check(last)).unwrap();
        script.truncate(end + 1);
        assert_eq!(effects, script);
        assert_eq!(outcome, Err(1));
    }
}

#[test]
fn whole_life_touches_and_deletes_only_its_own_objects() {
    let (effects, renderer) = make(plain_replies());
    let renderer = renderer.unwrap();
    let mut steps: Vec<Step> = effects
        .into_iter()
        .filter_map(|effect| match effect {
            Effect::Do(step) => Some(step),
            _ => None,
        })
        .collect();
    steps.extend(renderer.draw());
    steps.extend(renderer.resize(640, 480));
    steps.extend(renderer.draw());
    steps.extend(renderer.drop());
    let (mut program, mut array, mut vertices, mut elements) = (0, 0, 0, 0);
    let mut drawn = 0;
    let mut deleted = Vec::new();
    for step in steps {
        match step {
            Step::Call(GlCall::UseProgram { program: bound }) => program = bound,
            Step::Call(GlCall::BindVertexArray { array: bound }) => array = bound,
            Step::Call(GlCall::BindBuffer { target: 0x8892, buffer }) => vertices = buffer,
            Step::Call(GlCall::BindBuffer { target: 0x8893, buffer }) => elements = buffer,
            Step::Call(GlCall::DrawElements { .. }) => {
                drawn += 1;
                assert_eq!((program, array, vertices, elements), (3, 4, 5, 6));
                assert_eq!(deleted, vec![1, 2]);
            },
            Step::Call(GlCall::DeleteShader { shader }) => deleted.push(shader),
            Step::Call(GlCall::DeleteProgram { program }) => deleted.push(program),
            Step::Call(GlCall::DeleteVertexArrays { array }) => deleted.push(array),
            Step::Call(GlCall::DeleteBuffers { buffer }) => deleted.push(buffer),
            _ => {},
        }
    }
    assert_eq!(drawn, 2);
    deleted.sort();
    assert_eq!(deleted, vec![1, 2, 3, 4, 5, 6]);
}

#[test]
fn setup_waits_until_it_is_answered() {
    let (effects, renderer) = make(Vec::new());
    assert_eq!(effects, vec![Effect::Ask(Query::GetString { name: 0x1F01 })]);
    assert_eq!(renderer, None);
}

#[test]
fn setup_is_answered_by_what_it_waits_for() {
    let identify = RendererSetup::Identify { identity: Identity::Version };
    let program = RendererSetup::Program { vertex: 1, fragment: 2 };
    let array = RendererSetup::VertexArray { program: 3 };
    let vertices = RendererSetup::VertexBuffer { program: 3, vao: 4 };
    let elements = RendererSetup::ElementBuffer { program: 3, vao: 4, vbo: 5 };
    let renderer = Renderer { program: 3, vao: 4, vbo: 5, ebo: 6 };
    let position = RendererSetup::Position { renderer };
    let color = RendererSetup::Color { renderer, position: 0 };
    assert!(identify.is_answered_by(&Reply::Text(None)));
    assert!(!identify.is_answered_by(&Reply::Name(1)));
    for setup in [program, array, vertices, elements] {
        assert!(setup.is_answered_by(&Reply::Name(0)));
        assert!(!setup.is_answered_by(&Reply::Value(0)));
    }
    for setup in [position, color] {
        assert!(setup.is_answered_by(&Reply::Value(-1)));
        assert!(!setup.is_answered_by(&Reply::Log(Vec::new())));
    }
}

#[test]
fn identity_lines_replace_what_is_not_utf8() {
    assert_eq!(Identity::Renderer.line(&None), None);
    assert_eq!(
        Identity::Renderer.line(&Some(b"x\xC3(".to_vec())),
        Some("Running on x\u{FFFD}(".to_string())
    );
    assert_eq!(
        Identity::Version.line(&Some("\u{2264}3".as_bytes().to_vec())),
        Some("OpenGL Version \u{2264}3".to_string())
    );
    assert_eq!(Identity::ShadingLanguage.line_for("1.0"), "Shaders version on 1.0");
}
