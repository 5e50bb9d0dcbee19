//! The shaders: their sources, their attributes and their compilation.
use crate::gl::{
    GlCall, Query, Reply, ReplyView, Step, COMPILE_STATUS, FRAGMENT_SHADER, INFO_LOG_LENGTH,
    VERTEX_SHADER,
};
use crate::text::{from_utf8_lossy, lossy_text, quote, quoted_text};
use vstd::pervasive::unreached;
use vstd::prelude::*;
use vstd::utf8::{decode_utf8, valid_utf8};

verus! {

/// The source of the vertex shader, with the NUL that ends a C string.
pub const VERTEX_SHADER_SOURCE: &'static str = "
#version 400
precision highp float;

in vec3 position;
in vec3 color;

out vec3 v_color;

void main() {
    gl_Position = vec4(position, 1.0);
    v_color = color;
}
\0";

/// The source of the fragment shader, with the NUL that ends a C string.
pub const FRAGMENT_SHADER_SOURCE: &'static str = "
#version 400
precision highp float;

in vec3 v_color;
out vec4 kleur;

void main() {
    kleur = vec4(v_color, 1.0);
}
\0";

/// A stage of the pipeline that a shader is written for.
#[derive(Debug, Clone, Copy, PartialEq, Eq, Structural)]
pub enum ShaderStage {
    Vertex,
    Fragment,
}

impl ShaderStage {
    /// OpenGL's name of the stage.
    pub open spec fn spec_kind(self) -> u32 {
        match self {
            ShaderStage::Vertex => VERTEX_SHADER,
            ShaderStage::Fragment => FRAGMENT_SHADER,
        }
    }

    /// OpenGL's name of the stage.
    pub fn kind(self) -> (kind: u32)
        ensures
            kind == self.spec_kind(),
    {
        match self {
            ShaderStage::Vertex => VERTEX_SHADER,
            ShaderStage::Fragment => FRAGMENT_SHADER,
        }
    }

    /// The source of the stage's shader, with the NUL that ends a C string.
    pub open spec fn spec_source(self) -> &'static str {
        match self {
            ShaderStage::Vertex => VERTEX_SHADER_SOURCE,
            ShaderStage::Fragment => FRAGMENT_SHADER_SOURCE,
        }
    }

    /// The source of the stage's shader, with the NUL that ends a C string.
    pub fn source(self) -> (source: &'static str)
        ensures
            source == self.spec_source(),
    {
        match self {
            ShaderStage::Vertex => VERTEX_SHADER_SOURCE,
            ShaderStage::Fragment => FRAGMENT_SHADER_SOURCE,
        }
    }
}

/// An input of the vertex shader.
#[derive(Debug, Clone, Copy, PartialEq, Eq, Structural)]
pub enum Attribute {
    Position,
    Color,
}

impl Attribute {
    /// The attribute's name in the shader, with the NUL that ends a C string.
    pub open spec fn spec_name(self) -> Seq<char> {
        match self {
            Attribute::Position => "position\0"@,
            Attribute::Color => "color\0"@,
        }
    }

    /// The attribute's name in the shader, with the NUL that ends a C string.
    pub fn name(self) -> (name: &'static str)
        ensures
            name@ == self.spec_name(),
    {
        match self {
            Attribute::Position => "position\0",
            Attribute::Color => "color\0",
        }
    }
}

/// The text ends in a NUL and has no other: as a C string it is read whole.
pub open spec fn is_c_string(text: Seq<char>) -> bool {
    &&& text.len() > 0
    &&& text.last() == '\0'
    &&& forall|i: int| 0 <= i < text.len() - 1 ==> #[trigger] text[i] != '\0'
}

/// The sources of the shaders and the names of the attributes are C strings.
pub proof fn shader_texts_are_c_strings(stage: ShaderStage, attribute: Attribute)
    ensures
        is_c_string(stage.spec_source()@),
        is_c_string(attribute.spec_name()),
{
    reveal_strlit("
#version 400
precision highp float;

in vec3 position;
in vec3 color;

out vec3 v_color;

void main() {
    gl_Position = vec4(position, 1.0);
    v_color = color;
}
\0");
    reveal_strlit("
#version 400
precision highp float;

in vec3 v_color;
out vec4 kleur;

void main() {
    kleur = vec4(v_color, 1.0);
}
\0");
    reveal_strlit("position\0");
    reveal_strlit("color\0");
}

/// The byte of a space.
pub const SPACE: u8 = 0x20;

/// The buffer that a shader's log of `length` bytes is written into: as many
/// spaces, and the NUL that ends a C string.
pub fn log_buffer(length: i32) -> (buffer: Vec<u8>)
    requires
        length >= 0,
    ensures
        buffer@ == Seq::new(length as nat, |i: int| SPACE).push(0),
{
    let mut buffer: Vec<u8> = Vec::new();
    let mut filled: i32 = 0;
    while filled < length
        invariant
            0 <= filled <= length,
            buffer@ == Seq::new(filled as nat, |i: int| SPACE),
        decreases length - filled,
    {
        buffer.push(SPACE);
        filled = filled + 1;
    }
    buffer.push(0);
    buffer
}

/// The bytes of a log that was written into a [`log_buffer`]: all but the last.
pub fn log_bytes(buffer: Vec<u8>) -> (log: Vec<u8>)
    requires
        buffer@.len() > 0,
    ensures
        log@ == buffer@.drop_last(),
{
    let mut log = buffer;
    log.pop();
    log
}

/// The line that reports the log of a failed compilation: its text in quotes,
/// with escapes. What is not UTF-8 in the log is replaced.
pub fn log_line(log: &[u8]) -> (line: String)
    ensures
        line@ == quoted_text(lossy_text(log@)),
        valid_utf8(log@) ==> line@ == quoted_text(decode_utf8(log@)),
{
    let text = from_utf8_lossy(log);
    quote(text.as_str())
}

/// What a shader under compilation waits for.
#[derive(Debug, Clone, Copy, PartialEq, Eq, Structural)]
pub enum ShaderPhase {
    /// The name of the new shader.
    Name,
    /// Whether it compiled.
    Status { shader: u32 },
    /// The length of the log of a failed compilation.
    LogLength { shader: u32 },
    /// That log.
    Log { shader: u32 },
}

/// A shader under compilation.
#[derive(Debug, Clone, Copy, PartialEq, Eq)]
pub struct ShaderBuild {
    pub source: &'static str,
    pub phase: ShaderPhase,
}

/// How the compilation of a shader goes on.
#[derive(Debug, Clone, Copy, PartialEq, Eq)]
pub enum ShaderNext {
    /// Hand the answer of the query to [`ShaderBuild::resume`].
    Ask { build: ShaderBuild, query: Query },
    /// Nothing is left to do. The shader is there whether it compiled or not.
    Ready { shader: u32 },
}

/// What the compilation of a shader does on an answer: prints the line, takes
/// the steps, and goes on as `next` says.
#[derive(Debug)]
pub struct ShaderTurn {
    pub line: Option<String>,
    pub steps: Vec<Step>,
    pub next: ShaderNext,
}

/// A [`ShaderTurn`] with its line and its steps as sequences.
#[verifier::ext_equal]
pub ghost struct ShaderTurnView {
    pub line: Option<Seq<char>>,
    pub steps: Seq<Step>,
    pub next: ShaderNext,
}

impl View for ShaderTurn {
    type V = ShaderTurnView;

    open spec fn view(&self) -> ShaderTurnView {
        ShaderTurnView {
            line: match self.line {
                Some(line) => Some(line@),
                None => None,
            },
            steps: self.steps@,
            next: self.next,
        }
    }
}

/// A shader of the given kind and source before anything is known of it.
pub open spec fn shader_start(kind: u32, source: &'static str) -> ShaderNext {
    ShaderNext::Ask {
        build: ShaderBuild { source, phase: ShaderPhase::Name },
        query: Query::CreateShader { kind },
    }
}

/// Begins to compile a shader of the given kind. OpenGL reads the source up to
/// its NUL.
pub fn create_shader(kind: u32, source: &'static str) -> (next: ShaderNext)
    ensures
        next == shader_start(kind, source),
{
    ShaderNext::Ask {
        build: ShaderBuild { source, phase: ShaderPhase::Name },
        query: Query::CreateShader { kind },
    }
}

impl ShaderBuild {
    /// The reply answers what the build waits for. A log has no negative length.
    pub open spec fn accepts(self, reply: ReplyView) -> bool {
        match self.phase {
            ShaderPhase::Name => reply is Name,
            ShaderPhase::Status { .. } => reply is Value,
            ShaderPhase::LogLength { .. } => reply matches ReplyView::Value(length) && length >= 0,
            ShaderPhase::Log { .. } => reply is Log,
        }
    }

    /// A new shader is given its source and compiled. Where that failed, which
    /// is a status of 0, the log is read and printed.
    pub open spec fn turn(self, reply: ReplyView) -> ShaderTurnView {
        match self.phase {
            ShaderPhase::Name => {
                let shader = reply->Name_0;
                ShaderTurnView {
                    line: None,
                    steps: seq![
                        Step::Call(GlCall::ShaderSource { shader, source: self.source }),
                        Step::Call(GlCall::CompileShader { shader }),
                    ],
                    next: ShaderNext::Ask {
                        build: ShaderBuild { phase: ShaderPhase::Status { shader }, ..self },
                        query: Query::GetShaderiv { shader, parameter: COMPILE_STATUS, initial: 1 },
                    },
                }
            },
            ShaderPhase::Status { shader } => ShaderTurnView {
                line: None,
                steps: seq![],
                next: if reply->Value_0 == 0 {
                    ShaderNext::Ask {
                        build: ShaderBuild { phase: ShaderPhase::LogLength { shader }, ..self },
                        query: Query::GetShaderiv {
                            shader,
                            parameter: INFO_LOG_LENGTH,
                            initial: 0,
                        },
                    }
                } else {
                    ShaderNext::Ready { shader }
                },
            },
            ShaderPhase::LogLength { shader } => ShaderTurnView {
                line: None,
                steps: seq![],
                next: ShaderNext::Ask {
                    build: ShaderBuild { phase: ShaderPhase::Log { shader }, ..self },
                    query: Query::GetShaderInfoLog { shader, length: reply->Value_0 },
                },
            },
            ShaderPhase::Log { shader } => ShaderTurnView {
                line: Some(quoted_text(lossy_text(reply->Log_0))),
                steps: seq![],
                next: ShaderNext::Ready { shader },
            },
        }
    }

    /// The reply answers what the build waits for.
    pub fn is_answered_by(&self, reply: &Reply) -> (answered: bool)
        ensures
            answered == self.accepts(reply@),
    {
        match (self.phase, reply) {
            (ShaderPhase::Name, Reply::Name(_)) => true,
            (ShaderPhase::Status { .. }, Reply::Value(_)) => true,
            (ShaderPhase::LogLength { .. }, Reply::Value(length)) => *length >= 0,
            (ShaderPhase::Log { .. }, Reply::Log(_)) => true,
            _ => false,
        }
    }

    /// Goes on with what the last query was answered.
    pub fn resume(self, reply: Reply) -> (turn: ShaderTurn)
        requires
            self.accepts(reply@),
        ensures
            turn@ == self.turn(reply@),
    {
        let source = self.source;
        match (self.phase, reply) {
            (ShaderPhase::Name, Reply::Name(shader)) => ShaderTurn {
                line: None,
                steps: vec![
                    Step::Call(GlCall::ShaderSource { shader, source }),
                    Step::Call(GlCall::CompileShader { shader }),
                ],
                next: ShaderNext::Ask {
                    build: ShaderBuild { source, phase: ShaderPhase::Status { shader } },
                    query: Query::GetShaderiv { shader, parameter: COMPILE_STATUS, initial: 1 },
                },
            },
            (ShaderPhase::Status { shader }, Reply::Value(success)) => ShaderTurn {
                line: None,
                steps: Vec::new(),
                next: if success == 0 {
                    ShaderNext::Ask {
                        build: ShaderBuild { source, phase: ShaderPhase::LogLength { shader } },
                        query: Query::GetShaderiv {
                            shader,
                            parameter: INFO_LOG_LENGTH,
                            initial: 0,
                        },
                    }
                } else {
                    ShaderNext::Ready { shader }
                },
            },
            (ShaderPhase::LogLength { shader }, Reply::Value(length)) => ShaderTurn {
                line: None,
                steps: Vec::new(),
                next: ShaderNext::Ask {
                    build: ShaderBuild { source, phase: ShaderPhase::Log { shader } },
                    query: Query::GetShaderInfoLog { shader, length },
                },
            },
            (ShaderPhase::Log { shader }, Reply::Log(log)) => ShaderTurn {
                line: Some(log_line(log.as_slice())),
                steps: Vec::new(),
                next: ShaderNext::Ready { shader },
            },
            _ => unreached(),
        }
    }
}

/// The view of a turn leaves nothing of it out.
pub proof fn shader_turn_is_seen_as_it_is(turn: ShaderTurn)
    ensures
        turn.line is None <==> turn@.line is None,
        turn.line matches Some(line) ==> turn@.line->0 == line@,
        turn@.steps == turn.steps@,
        turn@.next == turn.next,
{
}

/// A compilation begins with the query for a shader of the kind, and keeps the
/// source for when the shader is there.
pub proof fn compilation_begins_with_the_shader(kind: u32, source: &'static str)
    ensures
        shader_start(kind, source) matches ShaderNext::Ask { build, query } && {
            &&& query matches Query::CreateShader { kind: asked }
            &&& asked == kind
            &&& build.source == source
            &&& build.phase is Name
        },
{
}

/// A new shader gets the source that the compilation began with, is then
/// compiled, and nothing else is done to it. Then its status is asked for, which
/// counts as 1 where it is not written.
pub proof fn new_shader_is_compiled(build: ShaderBuild, shader: u32)
    requires
        build.phase is Name,
    ensures
        ({
            let turn = build.turn(ReplyView::Name(shader));
            &&& turn.line is None
            &&& turn.steps.len() == 2
            &&& turn.steps[0] == Step::Call(GlCall::ShaderSource { shader, source: build.source })
            &&& turn.steps[1] == Step::Call(GlCall::CompileShader { shader })
            &&& turn.next matches ShaderNext::Ask { build: later, query }
            &&& query == (Query::GetShaderiv { shader, parameter: 0x8B81, initial: 1 })
            &&& later.source == build.source
            &&& later.phase == (ShaderPhase::Status { shader })
        }),
{
}

/// A shader is finished without a word unless its status is 0. Then the length of
/// its log is asked for, which counts as 0 where it is not written.
pub proof fn only_a_failed_shader_has_its_log_read(build: ShaderBuild, shader: u32, status: i32)
    requires
        build.phase == (ShaderPhase::Status { shader }),
    ensures
        ({
            let turn = build.turn(ReplyView::Value(status));
            &&& turn.line is None
            &&& turn.steps.len() == 0
            &&& turn.next is Ready <==> status != 0
            &&& turn.next matches ShaderNext::Ready { shader: ready } ==> ready == shader
            &&& turn.next matches ShaderNext::Ask { build: later, query } ==> {
                &&& query == (Query::GetShaderiv { shader, parameter: 0x8B84, initial: 0 })
                &&& later.source == build.source
                &&& later.phase == (ShaderPhase::LogLength { shader })
            }
        }),
{
}

/// A log is read in its whole length.
pub proof fn whole_log_is_read(build: ShaderBuild, shader: u32, length: i32)
    requires
        build.phase == (ShaderPhase::LogLength { shader }),
    ensures
        ({
            let turn = build.turn(ReplyView::Value(length));
            &&& turn.line is None
            &&& turn.steps.len() == 0
            &&& turn.next matches ShaderNext::Ask { build: later, query }
            &&& query == (Query::GetShaderInfoLog { shader, length })
            &&& later.source == build.source
            &&& later.phase == (ShaderPhase::Log { shader })
        }),
{
}

/// A log is printed, in quotes, and the shader is used all the same.
pub proof fn log_is_printed(build: ShaderBuild, shader: u32, log: Seq<u8>)
    requires
        build.phase == (ShaderPhase::Log { shader }),
    ensures
        ({
            let turn = build.turn(ReplyView::Log(log));
            &&& turn.line is Some
            &&& turn.line->0 == quoted_text(lossy_text(log))
            &&& turn.steps.len() == 0
            &&& turn.next == (ShaderNext::Ready { shader })
        }),
{
}

/// A reply is accepted if it is of the kind that is waited for. Any name, any
/// status and any log will do, but no negative length.
pub proof fn build_accepts_what_it_asked_for(build: ShaderBuild, reply: ReplyView)
    ensures
        build.phase is Name ==> (build.accepts(reply) <==> reply is Name),
        build.phase is Status ==> (build.accepts(reply) <==> reply is Value),
        build.phase is LogLength ==> (build.accepts(reply) <==> reply is Value && reply->Value_0
            >= 0),
        build.phase is Log ==> (build.accepts(reply) <==> reply is Log),
{
}

} // verus!
