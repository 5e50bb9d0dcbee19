//! The OpenGL ES interface as plain values: the calls, and what they answer.
use crate::geometry::BufferContents;
use crate::report::Checkpoint;
use crate::shader::Attribute;
use vstd::prelude::*;

verus! {

pub const NO_ERROR: u32 = 0;

pub const INVALID_ENUM: u32 = 0x0500;

pub const INVALID_VALUE: u32 = 0x0501;

pub const INVALID_OPERATION: u32 = 0x0502;

pub const OUT_OF_MEMORY: u32 = 0x0505;

pub const INVALID_FRAMEBUFFER_OPERATION: u32 = 0x0506;

pub const RENDERER: u32 = 0x1F01;

pub const VERSION: u32 = 0x1F02;

pub const SHADING_LANGUAGE_VERSION: u32 = 0x8B8C;

pub const VERTEX_SHADER: u32 = 0x8B31;

pub const FRAGMENT_SHADER: u32 = 0x8B30;

pub const COMPILE_STATUS: u32 = 0x8B81;

pub const INFO_LOG_LENGTH: u32 = 0x8B84;

pub const ARRAY_BUFFER: u32 = 0x8892;

pub const ELEMENT_ARRAY_BUFFER: u32 = 0x8893;

pub const STATIC_DRAW: u32 = 0x88E4;

pub const FLOAT: u32 = 0x1406;

pub const UNSIGNED_INT: u32 = 0x1405;

pub const TRIANGLES: u32 = 0x0004;

pub const COLOR_BUFFER_BIT: u32 = 0x4000;

/// A call that answers nothing, named after its entry point.
#[derive(Debug, Clone, Copy, PartialEq, Eq)]
pub enum GlCall {
    /// One string, which is read up to its NUL.
    ShaderSource { shader: u32, source: &'static str },
    CompileShader { shader: u32 },
    DeleteShader { shader: u32 },
    AttachShader { program: u32, shader: u32 },
    LinkProgram { program: u32 },
    UseProgram { program: u32 },
    DeleteProgram { program: u32 },
    BindVertexArray { array: u32 },
    /// Deletes one vertex array.
    DeleteVertexArrays { array: u32 },
    BindBuffer { target: u32, buffer: u32 },
    /// Uploads the first `size` bytes of the contents.
    BufferData { target: u32, size: isize, contents: BufferContents, usage: u32 },
    /// Deletes one buffer.
    DeleteBuffers { buffer: u32 },
    VertexAttribPointer {
        index: u32,
        components: i32,
        kind: u32,
        normalized: u8,
        stride: i32,
        offset: usize,
    },
    EnableVertexAttribArray { index: u32 },
    Viewport { x: i32, y: i32, width: i32, height: i32 },
    /// The components are the bits of the floats that the call takes.
    ClearColor { red: u32, green: u32, blue: u32, alpha: u32 },
    Clear { mask: u32 },
    DrawElements { mode: u32, count: i32, kind: u32, offset: usize },
}

/// A call whose answer decides how to go on, named after its entry point.
#[derive(Debug, Clone, Copy, PartialEq, Eq, Structural)]
pub enum Query {
    /// Answered by [`Reply::Text`].
    GetString { name: u32 },
    /// Answered by [`Reply::Name`].
    CreateShader { kind: u32 },
    /// Answered by [`Reply::Value`]: what a variable holds that held `initial`
    /// before the call.
    GetShaderiv { shader: u32, parameter: u32, initial: i32 },
    /// Writes up to `length` bytes into [`log_buffer`](crate::shader::log_buffer)
    /// of `length`. Answered by [`Reply::Log`]: the
    /// [`log_bytes`](crate::shader::log_bytes) of the buffer after the call.
    GetShaderInfoLog { shader: u32, length: i32 },
    /// Answered by [`Reply::Name`].
    CreateProgram,
    /// Answered by [`Reply::Name`]: one vertex array.
    GenVertexArrays,
    /// Answered by [`Reply::Name`]: one buffer.
    GenBuffers,
    /// Answered by [`Reply::Value`].
    GetAttribLocation { program: u32, attribute: Attribute },
}

/// What a [`Query`] was answered.
#[derive(Debug)]
pub enum Reply {
    /// The bytes of a C string without its NUL, or none for a null pointer.
    Text(Option<Vec<u8>>),
    Name(u32),
    Value(i32),
    Log(Vec<u8>),
}

/// A [`Reply`] with its bytes as sequences.
pub ghost enum ReplyView {
    Text(Option<Seq<u8>>),
    Name(u32),
    Value(i32),
    Log(Seq<u8>),
}

impl View for Reply {
    type V = ReplyView;

    open spec fn view(&self) -> ReplyView {
        match *self {
            Reply::Text(None) => ReplyView::Text(None),
            Reply::Text(Some(bytes)) => ReplyView::Text(Some(bytes@)),
            Reply::Name(name) => ReplyView::Name(name),
            Reply::Value(value) => ReplyView::Value(value),
            Reply::Log(bytes) => ReplyView::Log(bytes@),
        }
    }
}

/// Something to do before going on.
#[derive(Debug, Clone, Copy, PartialEq, Eq)]
pub enum Step {
    /// Make the call.
    Call(GlCall),
    /// Look for a pending OpenGL error; see
    /// [`Playback::checked`](crate::playback::Playback::checked).
    Check(Checkpoint),
}

/// The view of a reply leaves nothing of it out.
pub proof fn reply_is_seen_as_it_is(reply: Reply)
    ensures
        match reply {
            Reply::Text(None) => reply@ == ReplyView::Text(None),
            Reply::Text(Some(bytes)) => reply@ matches ReplyView::Text(Some(seen)) && seen
                == bytes@,
            Reply::Name(name) => reply@ == ReplyView::Name(name),
            Reply::Value(value) => reply@ == ReplyView::Value(value),
            Reply::Log(bytes) => reply@ matches ReplyView::Log(seen) && seen == bytes@,
        },
{
}

} // verus!
