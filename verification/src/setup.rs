//! Making a [`Renderer`]: one turn for each answer of OpenGL.
use crate::geometry::{BufferContents, FLOATS_PER_POSITION, FLOATS_PER_VERTEX, WORD_SIZE};
use crate::gl::{
    GlCall, Query, Reply, ReplyView, Step, ARRAY_BUFFER, ELEMENT_ARRAY_BUFFER, FLOAT, RENDERER,
    SHADING_LANGUAGE_VERSION, STATIC_DRAW, VERSION,
};
use crate::renderer::Renderer;
use crate::report::Checkpoint;
use crate::shader::{
    create_shader, shader_start, Attribute, ShaderBuild, ShaderNext, ShaderPhase, ShaderStage,
    ShaderTurn, ShaderTurnView, FRAGMENT_SHADER_SOURCE, VERTEX_SHADER_SOURCE,
};
use crate::text::{from_utf8_lossy, join, lossy_text};
use vstd::pervasive::unreached;
use vstd::prelude::*;
use vstd::utf8::{decode_utf8, valid_utf8};

verus! {

/// A string that describes the OpenGL implementation.
#[derive(Debug, Clone, Copy, PartialEq, Eq, Structural)]
pub enum Identity {
    Renderer,
    Version,
    ShadingLanguage,
}

impl Identity {
    /// OpenGL's name of the string.
    pub open spec fn spec_name(self) -> u32 {
        match self {
            Identity::Renderer => RENDERER,
            Identity::Version => VERSION,
            Identity::ShadingLanguage => SHADING_LANGUAGE_VERSION,
        }
    }

    /// What the string is introduced by.
    pub open spec fn spec_prefix(self) -> Seq<char> {
        match self {
            Identity::Renderer => "Running on "@,
            Identity::Version => "OpenGL Version "@,
            Identity::ShadingLanguage => "Shaders version on "@,
        }
    }

    /// The line that reports the string: none where there is no string.
    pub open spec fn spec_line(self, string: Option<Seq<u8>>) -> Option<Seq<char>> {
        match string {
            None => None,
            Some(bytes) => Some(self.spec_prefix() + lossy_text(bytes)),
        }
    }

    /// The line that reports the string that reads `text`.
    pub fn line_for(self, text: &str) -> (line: String)
        ensures
            line@ == self.spec_prefix() + text@,
    {
        let prefix = match self {
            Identity::Renderer => "Running on ",
            Identity::Version => "OpenGL Version ",
            Identity::ShadingLanguage => "Shaders version on ",
        };
        join(prefix, text)
    }

    /// The line that reports the string, which may be none: none where there is
    /// no string. What is not UTF-8 in the string is replaced.
    pub fn line(self, string: &Option<Vec<u8>>) -> (line: Option<String>)
        ensures
            string is Some <==> line is Some,
            string matches Some(bytes) ==> Some(line->0@) == self.spec_line(Some(bytes@)),
            string matches Some(bytes) ==> line->0@ == self.spec_prefix() + lossy_text(bytes@),
            string matches Some(bytes) ==> valid_utf8(bytes@) ==> line->0@ == self.spec_prefix()
                + decode_utf8(bytes@),
    {
        match string {
            None => None,
            Some(bytes) => {
                let text = from_utf8_lossy(bytes.as_slice());
                Some(self.line_for(text.as_str()))
            },
        }
    }
}

/// What a renderer in the making waits for.
#[derive(Debug, Clone, Copy, PartialEq, Eq)]
pub enum RendererSetup {
    /// A description of the implementation.
    Identify { identity: Identity },
    /// A shader: the fragment shader once the vertex shader is `finished`.
    Shader { finished: Option<u32>, build: ShaderBuild },
    /// The name of the program.
    Program { vertex: u32, fragment: u32 },
    /// The name of the vertex array.
    VertexArray { program: u32 },
    /// The name of the vertex buffer.
    VertexBuffer { program: u32, vao: u32 },
    /// The name of the element buffer.
    ElementBuffer { program: u32, vao: u32, vbo: u32 },
    /// The location of the position attribute.
    Position { renderer: Renderer },
    /// The location of the colour attribute.
    Color { renderer: Renderer, position: i32 },
}

/// How the making of a renderer goes on.
#[derive(Debug, Clone, Copy, PartialEq, Eq)]
pub enum Next {
    /// Hand the answer of the query to [`RendererSetup::resume`].
    Ask { setup: RendererSetup, query: Query },
    /// The renderer is there.
    Ready { renderer: Renderer },
}

/// What the making of a renderer does on an answer: prints the line, takes the
/// steps, and goes on as `next` says.
#[derive(Debug)]
pub struct Turn {
    pub line: Option<String>,
    pub steps: Vec<Step>,
    pub next: Next,
}

/// A [`Turn`] with its line and its steps as sequences.
#[verifier::ext_equal]
pub ghost struct TurnView {
    pub line: Option<Seq<char>>,
    pub steps: Seq<Step>,
    pub next: Next,
}

impl View for Turn {
    type V = TurnView;

    open spec fn view(&self) -> TurnView {
        TurnView {
            line: match self.line {
                Some(line) => Some(line@),
                None => None,
            },
            steps: self.steps@,
            next: self.next,
        }
    }
}

/// The index that an attribute's location is used as. A location of -1, which
/// is that of an unknown attribute, becomes the greatest index.
pub open spec fn location_index(location: i32) -> u32 {
    if location >= 0 {
        location as u32
    } else {
        (location + 0x1_0000_0000) as u32
    }
}

fn index_of_location(location: i32) -> (index: u32)
    ensures
        index == location_index(location),
{
    assert(location < 0 ==> location as u32 == location + 0x1_0000_0000) by (bit_vector);
    location as u32
}

/// Asks for a description of the implementation.
pub open spec fn identify(identity: Identity) -> Next {
    Next::Ask {
        setup: RendererSetup::Identify { identity },
        query: Query::GetString { name: identity.spec_name() },
    }
}

/// Starts on the shader that is next: the vertex shader, then the fragment shader.
pub open spec fn next_shader(finished: Option<u32>) -> Next {
    let stage = if finished is None {
        ShaderStage::Vertex
    } else {
        ShaderStage::Fragment
    };
    let start = shader_start(stage.spec_kind(), stage.spec_source());
    Next::Ask {
        setup: RendererSetup::Shader { finished, build: start->build },
        query: start->query,
    }
}

/// Links the shaders into the program, selects it and lets go of the shaders.
pub open spec fn link_steps(program: u32, vertex: u32, fragment: u32) -> Seq<Step> {
    seq![
        Step::Call(GlCall::AttachShader { program, shader: vertex }),
        Step::Call(GlCall::AttachShader { program, shader: fragment }),
        Step::Call(GlCall::LinkProgram { program }),
        Step::Call(GlCall::UseProgram { program }),
        Step::Call(GlCall::DeleteShader { shader: vertex }),
        Step::Call(GlCall::DeleteShader { shader: fragment }),
    ]
}

/// An upload of the contents into the buffer that is bound to the target.
pub open spec fn upload(target: u32, contents: BufferContents) -> Step {
    Step::Call(
        GlCall::BufferData {
            target,
            size: contents.spec_upload_size() as isize,
            contents,
            usage: STATIC_DRAW,
        },
    )
}

/// Binds the vertex buffer and fills it.
pub open spec fn vertex_buffer_steps(vbo: u32) -> Seq<Step> {
    seq![
        Step::Call(GlCall::BindBuffer { target: ARRAY_BUFFER, buffer: vbo }),
        upload(ARRAY_BUFFER, BufferContents::Vertices),
        Step::Check(Checkpoint::VerticesUploaded),
    ]
}

/// Binds the element buffer and fills it.
pub open spec fn element_buffer_steps(ebo: u32) -> Seq<Step> {
    seq![
        Step::Call(GlCall::BindBuffer { target: ELEMENT_ARRAY_BUFFER, buffer: ebo }),
        Step::Check(Checkpoint::ElementBufferBound),
        upload(ELEMENT_ARRAY_BUFFER, BufferContents::Indices),
        Step::Check(Checkpoint::IndicesUploaded),
    ]
}

/// Three floats of each vertex, from the given float on.
pub open spec fn attribute_pointer(location: i32, first_float: int) -> Step {
    Step::Call(
        GlCall::VertexAttribPointer {
            index: location_index(location),
            components: 3,
            kind: FLOAT,
            normalized: 0,
            stride: (FLOATS_PER_VERTEX * WORD_SIZE) as i32,
            offset: (first_float * WORD_SIZE) as usize,
        },
    )
}

/// Lays the attributes out over a vertex, the colour after the position, and
/// enables them.
pub open spec fn attribute_steps(position: i32, color: i32) -> Seq<Step> {
    seq![
        attribute_pointer(position, 0),
        attribute_pointer(color, FLOATS_PER_POSITION as int),
        Step::Call(GlCall::EnableVertexAttribArray { index: location_index(position) }),
        Step::Check(Checkpoint::PositionEnabled),
        Step::Call(GlCall::EnableVertexAttribArray { index: location_index(color) }),
        Step::Check(Checkpoint::ColorEnabled),
    ]
}

/// The turn that begins the making of a renderer.
pub open spec fn first_turn() -> TurnView {
    TurnView { line: None, steps: seq![], next: identify(Identity::Renderer) }
}

/// A turn of the shader, within the making of the renderer: once the shader is
/// there, the next shader or the program is made.
pub open spec fn within_setup(finished: Option<u32>, turn: ShaderTurnView) -> TurnView {
    TurnView {
        line: turn.line,
        steps: turn.steps,
        next: match turn.next {
            ShaderNext::Ask { build, query } => Next::Ask {
                setup: RendererSetup::Shader { finished, build },
                query,
            },
            ShaderNext::Ready { shader } => match finished {
                None => next_shader(Some(shader)),
                Some(vertex) => Next::Ask {
                    setup: RendererSetup::Program { vertex, fragment: shader },
                    query: Query::CreateProgram,
                },
            },
        },
    }
}

/// Begins the making of a renderer.
pub(crate) fn start() -> (turn: Turn)
    ensures
        turn@ == first_turn(),
{
    Turn {
        line: None,
        steps: Vec::new(),
        next: Next::Ask {
            setup: RendererSetup::Identify { identity: Identity::Renderer },
            query: Query::GetString { name: RENDERER },
        },
    }
}

fn start_shader(finished: Option<u32>) -> (next: Next)
    ensures
        next == next_shader(finished),
{
    let stage = match finished {
        None => ShaderStage::Vertex,
        Some(_) => ShaderStage::Fragment,
    };
    match create_shader(stage.kind(), stage.source()) {
        ShaderNext::Ask { build, query } => Next::Ask {
            setup: RendererSetup::Shader { finished, build },
            query,
        },
        ShaderNext::Ready { .. } => unreached(),
    }
}

fn embed(finished: Option<u32>, turn: ShaderTurn) -> (embedded: Turn)
    ensures
        embedded@ == within_setup(finished, turn@),
{
    let next = match turn.next {
        ShaderNext::Ask { build, query } => Next::Ask {
            setup: RendererSetup::Shader { finished, build },
            query,
        },
        ShaderNext::Ready { shader } => match finished {
            None => start_shader(Some(shader)),
            Some(vertex) => Next::Ask {
                setup: RendererSetup::Program { vertex, fragment: shader },
                query: Query::CreateProgram,
            },
        },
    };
    Turn { line: turn.line, steps: turn.steps, next }
}

impl RendererSetup {
    /// The reply answers what the setup waits for.
    pub open spec fn accepts(self, reply: ReplyView) -> bool {
        match self {
            RendererSetup::Identify { .. } => reply is Text,
            RendererSetup::Shader { build, .. } => build.accepts(reply),
            RendererSetup::Program { .. } => reply is Name,
            RendererSetup::VertexArray { .. } => reply is Name,
            RendererSetup::VertexBuffer { .. } => reply is Name,
            RendererSetup::ElementBuffer { .. } => reply is Name,
            RendererSetup::Position { .. } => reply is Value,
            RendererSetup::Color { .. } => reply is Value,
        }
    }

    /// The turn that the setup takes on a reply.
    pub open spec fn turn(self, reply: ReplyView) -> TurnView {
        match self {
            RendererSetup::Identify { identity } => TurnView {
                line: identity.spec_line(reply->Text_0),
                steps: seq![],
                next: match identity {
                    Identity::Renderer => identify(Identity::Version),
                    Identity::Version => identify(Identity::ShadingLanguage),
                    Identity::ShadingLanguage => next_shader(None),
                },
            },
            RendererSetup::Shader { finished, build } => within_setup(finished, build.turn(reply)),
            RendererSetup::Program { vertex, fragment } => {
                let program = reply->Name_0;
                TurnView {
                    line: None,
                    steps: link_steps(program, vertex, fragment),
                    next: Next::Ask {
                        setup: RendererSetup::VertexArray { program },
                        query: Query::GenVertexArrays,
                    },
                }
            },
            RendererSetup::VertexArray { program } => {
                let vao = reply->Name_0;
                TurnView {
                    line: None,
                    steps: seq![Step::Call(GlCall::BindVertexArray { array: vao })],
                    next: Next::Ask {
                        setup: RendererSetup::VertexBuffer { program, vao },
                        query: Query::GenBuffers,
                    },
                }
            },
            RendererSetup::VertexBuffer { program, vao } => {
                let vbo = reply->Name_0;
                TurnView {
                    line: None,
                    steps: vertex_buffer_steps(vbo),
                    next: Next::Ask {
                        setup: RendererSetup::ElementBuffer { program, vao, vbo },
                        query: Query::GenBuffers,
                    },
                }
            },
            RendererSetup::ElementBuffer { program, vao, vbo } => {
                let ebo = reply->Name_0;
                TurnView {
                    line: None,
                    steps: element_buffer_steps(ebo),
                    next: Next::Ask {
                        setup: RendererSetup::Position {
                            renderer: Renderer { program, vao, vbo, ebo },
                        },
                        query: Query::GetAttribLocation { program, attribute: Attribute::Position },
                    },
                }
            },
            RendererSetup::Position { renderer } => TurnView {
                line: None,
                steps: seq![],
                next: Next::Ask {
                    setup: RendererSetup::Color { renderer, position: reply->Value_0 },
                    query: Query::GetAttribLocation {
                        program: renderer.program,
                        attribute: Attribute::Color,
                    },
                },
            },
            RendererSetup::Color { renderer, position } => TurnView {
                line: None,
                steps: attribute_steps(position, reply->Value_0),
                next: Next::Ready { renderer },
            },
        }
    }

    /// The reply answers what the setup waits for.
    pub fn is_answered_by(&self, reply: &Reply) -> (answered: bool)
        ensures
            answered == self.accepts(reply@),
    {
        match (self, reply) {
            (RendererSetup::Identify { .. }, Reply::Text(_)) => true,
            (RendererSetup::Shader { build, .. }, _) => build.is_answered_by(reply),
            (RendererSetup::Program { .. }, Reply::Name(_)) => true,
            (RendererSetup::VertexArray { .. }, Reply::Name(_)) => true,
            (RendererSetup::VertexBuffer { .. }, Reply::Name(_)) => true,
            (RendererSetup::ElementBuffer { .. }, Reply::Name(_)) => true,
            (RendererSetup::Position { .. }, Reply::Value(_)) => true,
            (RendererSetup::Color { .. }, Reply::Value(_)) => true,
            _ => false,
        }
    }

    /// Goes on with what the last query was answered.
    pub fn resume(self, reply: Reply) -> (turn: Turn)
        requires
            self.accepts(reply@),
        ensures
            turn@ == self.turn(reply@),
    {
        match (self, reply) {
            (RendererSetup::Identify { identity }, Reply::Text(string)) => Turn {
                line: identity.line(&string),
                steps: Vec::new(),
                next: match identity {
                    Identity::Renderer => Next::Ask {
                        setup: RendererSetup::Identify { identity: Identity::Version },
                        query: Query::GetString { name: VERSION },
                    },
                    Identity::Version => Next::Ask {
                        setup: RendererSetup::Identify { identity: Identity::ShadingLanguage },
                        query: Query::GetString { name: SHADING_LANGUAGE_VERSION },
                    },
                    Identity::ShadingLanguage => start_shader(None),
                },
            },
            (RendererSetup::Shader { finished, build }, reply) => {
                embed(finished, build.resume(reply))
            },
            (RendererSetup::Program { vertex, fragment }, Reply::Name(program)) => Turn {
                line: None,
                steps: vec![
                    Step::Call(GlCall::AttachShader { program, shader: vertex }),
                    Step::Call(GlCall::AttachShader { program, shader: fragment }),
                    Step::Call(GlCall::LinkProgram { program }),
                    Step::Call(GlCall::UseProgram { program }),
                    Step::Call(GlCall::DeleteShader { shader: vertex }),
                    Step::Call(GlCall::DeleteShader { shader: fragment }),
                ],
                next: Next::Ask {
                    setup: RendererSetup::VertexArray { program },
                    query: Query::GenVertexArrays,
                },
            },
            (RendererSetup::VertexArray { program }, Reply::Name(vao)) => Turn {
                line: None,
                steps: vec![Step::Call(GlCall::BindVertexArray { array: vao })],
                next: Next::Ask {
                    setup: RendererSetup::VertexBuffer { program, vao },
                    query: Query::GenBuffers,
                },
            },
            (RendererSetup::VertexBuffer { program, vao }, Reply::Name(vbo)) => Turn {
                line: None,
                steps: vec![
                    Step::Call(GlCall::BindBuffer { target: ARRAY_BUFFER, buffer: vbo }),
                    upload_step(ARRAY_BUFFER, BufferContents::Vertices),
                    Step::Check(Checkpoint::VerticesUploaded),
                ],
                next: Next::Ask {
                    setup: RendererSetup::ElementBuffer { program, vao, vbo },
                    query: Query::GenBuffers,
                },
            },
            (RendererSetup::ElementBuffer { program, vao, vbo }, Reply::Name(ebo)) => Turn {
                line: None,
                steps: vec![
                    Step::Call(GlCall::BindBuffer { target: ELEMENT_ARRAY_BUFFER, buffer: ebo }),
                    Step::Check(Checkpoint::ElementBufferBound),
                    upload_step(ELEMENT_ARRAY_BUFFER, BufferContents::Indices),
                    Step::Check(Checkpoint::IndicesUploaded),
                ],
                next: Next::Ask {
                    setup: RendererSetup::Position {
                        renderer: Renderer { program, vao, vbo, ebo },
                    },
                    query: Query::GetAttribLocation { program, attribute: Attribute::Position },
                },
            },
            (RendererSetup::Position { renderer }, Reply::Value(position)) => Turn {
                line: None,
                steps: Vec::new(),
                next: Next::Ask {
                    setup: RendererSetup::Color { renderer, position },
                    query: Query::GetAttribLocation {
                        program: renderer.program,
                        attribute: Attribute::Color,
                    },
                },
            },
            (RendererSetup::Color { renderer, position }, Reply::Value(color)) => Turn {
                line: None,
                steps: vec![
                    pointer_step(position, 0),
                    pointer_step(color, FLOATS_PER_POSITION),
                    Step::Call(
                        GlCall::EnableVertexAttribArray { index: index_of_location(position) },
                    ),
                    Step::Check(Checkpoint::PositionEnabled),
                    Step::Call(GlCall::EnableVertexAttribArray { index: index_of_location(color) }),
                    Step::Check(Checkpoint::ColorEnabled),
                ],
                next: Next::Ready { renderer },
            },
            _ => unreached(),
        }
    }
}

fn upload_step(target: u32, contents: BufferContents) -> (step: Step)
    ensures
        step == upload(target, contents),
{
    Step::Call(
        GlCall::BufferData { target, size: contents.upload_size(), contents, usage: STATIC_DRAW },
    )
}

fn pointer_step(location: i32, first_float: usize) -> (step: Step)
    requires
        first_float < FLOATS_PER_VERTEX,
    ensures
        step == attribute_pointer(location, first_float as int),
{
    Step::Call(
        GlCall::VertexAttribPointer {
            index: index_of_location(location),
            components: 3,
            kind: FLOAT,
            normalized: 0,
            stride: (FLOATS_PER_VERTEX * WORD_SIZE) as i32,
            offset: first_float * WORD_SIZE,
        },
    )
}

/// The view of a turn leaves nothing of it out.
pub proof fn turn_is_seen_as_it_is(turn: Turn)
    ensures
        turn.line is None <==> turn@.line is None,
        turn.line matches Some(line) ==> turn@.line->0 == line@,
        turn@.steps == turn.steps@,
        turn@.next == turn.next,
{
}

/// An attribute's location is used as an index modulo 2 to the power of 32.
pub proof fn index_is_the_location(location: i32)
    ensures
        (location_index(location) - location) % 0x1_0000_0000 == 0,
{
}

/// The making of a renderer begins with a query for the name of OpenGL's renderer,
/// and with nothing else.
pub proof fn setup_begins_with_the_identity()
    ensures
        first_turn().line is None,
        first_turn().steps.len() == 0,
        first_turn().next == (Next::Ask {
            setup: RendererSetup::Identify { identity: Identity::Renderer },
            query: Query::GetString { name: 0x1F01 },
        }),
{
}

/// Each description of the implementation is printed behind its own words, whole,
/// and one that is not there is passed over. OpenGL's renderer is followed by its
/// version, that by the version of the shading language, and that by the vertex
/// shader.
pub proof fn identity_is_printed(identity: Identity, string: Option<Seq<u8>>)
    ensures
        ({
            let turn = RendererSetup::Identify { identity }.turn(ReplyView::Text(string));
            let prefix = match identity {
                Identity::Renderer => "Running on "@,
                Identity::Version => "OpenGL Version "@,
                Identity::ShadingLanguage => "Shaders version on "@,
            };
            &&& turn.steps.len() == 0
            &&& string is None <==> turn.line is None
            &&& string is Some ==> turn.line->0 == prefix + lossy_text(string->0)
            &&& identity is Renderer ==> turn.next == (Next::Ask {
                setup: RendererSetup::Identify { identity: Identity::Version },
                query: Query::GetString { name: 0x1F02 },
            })
            &&& identity is Version ==> turn.next == (Next::Ask {
                setup: RendererSetup::Identify { identity: Identity::ShadingLanguage },
                query: Query::GetString { name: 0x8B8C },
            })
            &&& identity is ShadingLanguage ==> turn.next == (Next::Ask {
                setup: RendererSetup::Shader {
                    finished: None,
                    build: ShaderBuild { source: VERTEX_SHADER_SOURCE, phase: ShaderPhase::Name },
                },
                query: Query::CreateShader { kind: 0x8B31 },
            })
        }),
{
}

/// A shader is compiled as it would be alone. The finished vertex shader is
/// followed by the fragment shader, and that by the program of both.
pub proof fn shaders_are_compiled_in_turn(
    finished: Option<u32>,
    build: ShaderBuild,
    reply: ReplyView,
)
    ensures
        ({
            let alone = build.turn(reply);
            let turn = RendererSetup::Shader { finished, build }.turn(reply);
            &&& turn.line == alone.line
            &&& turn.steps == alone.steps
            &&& alone.next matches ShaderNext::Ask { build: later, query } ==> turn.next == (
            Next::Ask { setup: RendererSetup::Shader { finished, build: later }, query })
            &&& alone.next matches ShaderNext::Ready { shader } ==> finished is None ==> turn.next
                == (Next::Ask {
                setup: RendererSetup::Shader {
                    finished: Some(shader),
                    build: ShaderBuild { source: FRAGMENT_SHADER_SOURCE, phase: ShaderPhase::Name },
                },
                query: Query::CreateShader { kind: 0x8B30 },
            })
            &&& alone.next matches ShaderNext::Ready { shader } ==> finished matches Some(vertex)
                ==> turn.next == (Next::Ask {
                setup: RendererSetup::Program { vertex, fragment: shader },
                query: Query::CreateProgram,
            })
        }),
{
}

/// Both shaders are attached to the new program before it is linked, it is linked
/// before it is selected, and the shaders are deleted once it is linked. Nothing
/// else is done, and the vertex array is next.
pub proof fn program_is_linked_from_both_shaders(vertex: u32, fragment: u32, program: u32)
    ensures
        ({
            let turn = RendererSetup::Program { vertex, fragment }.turn(ReplyView::Name(program));
            let steps = turn.steps;
            &&& turn.line is None
            &&& steps.len() == 6
            &&& steps[0] == Step::Call(GlCall::AttachShader { program, shader: vertex })
            &&& steps[1] == Step::Call(GlCall::AttachShader { program, shader: fragment })
            &&& steps[2] == Step::Call(GlCall::LinkProgram { program })
            &&& steps[3] == Step::Call(GlCall::UseProgram { program })
            &&& steps[4] == Step::Call(GlCall::DeleteShader { shader: vertex })
            &&& steps[5] == Step::Call(GlCall::DeleteShader { shader: fragment })
            &&& turn.next == (Next::Ask {
                setup: RendererSetup::VertexArray { program },
                query: Query::GenVertexArrays,
            })
        }),
{
}

/// The new vertex array is bound before any buffer is made.
pub proof fn vertex_array_is_bound_first(program: u32, vao: u32)
    ensures
        ({
            let turn = RendererSetup::VertexArray { program }.turn(ReplyView::Name(vao));
            &&& turn.line is None
            &&& turn.steps.len() == 1
            &&& turn.steps[0] == Step::Call(GlCall::BindVertexArray { array: vao })
            &&& turn.next == (Next::Ask {
                setup: RendererSetup::VertexBuffer { program, vao },
                query: Query::GenBuffers,
            })
        }),
{
}

/// The new vertex buffer is bound, then filled with vertices that do not change,
/// a word for each of the four, and then an error is looked for.
pub proof fn vertex_buffer_is_filled(program: u32, vao: u32, vbo: u32)
    ensures
        ({
            let turn = RendererSetup::VertexBuffer { program, vao }.turn(ReplyView::Name(vbo));
            &&& turn.line is None
            &&& turn.steps.len() == 3
            &&& turn.steps[0] == Step::Call(GlCall::BindBuffer { target: 0x8892, buffer: vbo })
            &&& turn.steps[1] == Step::Call(
                GlCall::BufferData {
                    target: 0x8892,
                    size: 16,
                    contents: BufferContents::Vertices,
                    usage: 0x88E4,
                },
            )
            &&& turn.steps[2] == Step::Check(Checkpoint::VerticesUploaded)
            &&& turn.next == (Next::Ask {
                setup: RendererSetup::ElementBuffer { program, vao, vbo },
                query: Query::GenBuffers,
            })
        }),
{
}

/// The new element buffer is bound, then filled with the six indices, which do not
/// change. An error is looked for after each. The renderer that is made has each
/// name in its own place, and its program is asked for the position attribute.
pub proof fn element_buffer_is_filled(program: u32, vao: u32, vbo: u32, ebo: u32)
    ensures
        ({
            let turn = RendererSetup::ElementBuffer { program, vao, vbo }.turn(
                ReplyView::Name(ebo),
            );
            &&& turn.line is None
            &&& turn.steps.len() == 4
            &&& turn.steps[0] == Step::Call(GlCall::BindBuffer { target: 0x8893, buffer: ebo })
            &&& turn.steps[1] == Step::Check(Checkpoint::ElementBufferBound)
            &&& turn.steps[2] == Step::Call(
                GlCall::BufferData {
                    target: 0x8893,
                    size: 24,
                    contents: BufferContents::Indices,
                    usage: 0x88E4,
                },
            )
            &&& turn.steps[3] == Step::Check(Checkpoint::IndicesUploaded)
            &&& turn.next matches Next::Ask { setup: RendererSetup::Position { renderer }, query }
            &&& renderer.program == program
            &&& renderer.vao == vao
            &&& renderer.vbo == vbo
            &&& renderer.ebo == ebo
            &&& query == (Query::GetAttribLocation { program, attribute: Attribute::Position })
        }),
{
}

/// The location of the position is kept as it is, and the same program is asked
/// for the colour attribute.
pub proof fn position_is_followed_by_color(renderer: Renderer, position: i32)
    ensures
        ({
            let turn = RendererSetup::Position { renderer }.turn(ReplyView::Value(position));
            &&& turn.line is None
            &&& turn.steps.len() == 0
            &&& turn.next == (Next::Ask {
                setup: RendererSetup::Color { renderer, position },
                query: Query::GetAttribLocation {
                    program: renderer.program,
                    attribute: Attribute::Color,
                },
            })
        }),
{
}

/// Whatever the locations, the position is read from the first three floats of a
/// vertex and the colour from the other three, of vertices of six floats: for each
/// vertex and each component, the byte that an attribute is read from is that of
/// the float that holds it.
pub proof fn attributes_are_read_from_their_floats(
    renderer: Renderer,
    position: i32,
    color: i32,
    vertex: int,
    component: int,
)
    requires
        0 <= vertex,
        0 <= component < 3,
    ensures
        ({
            let turn = RendererSetup::Color { renderer, position }.turn(ReplyView::Value(color));
            let float = 6 * vertex + component;
            &&& turn.steps.len() == 6
            &&& turn.steps[0] matches Step::Call(
                GlCall::VertexAttribPointer {
                    index: p_index,
                    components: p_components,
                    kind: p_kind,
                    normalized: p_normalized,
                    stride: p_stride,
                    offset: p_offset,
                },
            )
            &&& (p_index - position) % 0x1_0000_0000 == 0
            &&& p_components == 3
            &&& p_kind == 0x1406
            &&& p_normalized == 0
            &&& p_stride == 24
            &&& p_offset + p_stride * vertex + 4 * component == 4 * float
            &&& turn.steps[1] matches Step::Call(
                GlCall::VertexAttribPointer {
                    index: c_index,
                    components: c_components,
                    kind: c_kind,
                    normalized: c_normalized,
                    stride: c_stride,
                    offset: c_offset,
                },
            )
            &&& (c_index - color) % 0x1_0000_0000 == 0
            &&& c_components == 3
            &&& c_kind == 0x1406
            &&& c_normalized == 0
            &&& c_stride == 24
            &&& c_offset + c_stride * vertex + 4 * component == 4 * (float + 3)
        }),
{
}

/// Once they are laid out, the position is enabled and then the colour, each under
/// the index that it was laid out under. An error is looked for after each, and
/// then the renderer is there, as it was made.
pub proof fn attributes_are_enabled(renderer: Renderer, position: i32, color: i32)
    ensures
        ({
            let turn = RendererSetup::Color { renderer, position }.turn(ReplyView::Value(color));
            &&& turn.line is None
            &&& turn.steps.len() == 6
            &&& turn.steps[2] matches Step::Call(
                GlCall::EnableVertexAttribArray { index: p_index },
            )
            &&& (p_index - position) % 0x1_0000_0000 == 0
            &&& turn.steps[3] == Step::Check(Checkpoint::PositionEnabled)
            &&& turn.steps[4] matches Step::Call(
                GlCall::EnableVertexAttribArray { index: c_index },
            )
            &&& (c_index - color) % 0x1_0000_0000 == 0
            &&& turn.steps[5] == Step::Check(Checkpoint::ColorEnabled)
            &&& turn.next == (Next::Ready { renderer })
        }),
{
}

/// A reply is accepted if it is of the kind that is waited for, whatever it holds.
pub proof fn setup_accepts_what_it_asked_for(setup: RendererSetup, reply: ReplyView)
    ensures
        match setup {
            RendererSetup::Identify { .. } => setup.accepts(reply) <==> reply is Text,
            RendererSetup::Shader { build, .. } => setup.accepts(reply) <==> build.accepts(reply),
            RendererSetup::Position { .. } | RendererSetup::Color { .. } => setup.accepts(reply)
                <==> reply is Value,
            _ => setup.accepts(reply) <==> reply is Name,
        },
{
}

} // verus!
