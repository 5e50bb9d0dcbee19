//! Reporting OpenGL errors.
use crate::gl::{
    INVALID_ENUM, INVALID_FRAMEBUFFER_OPERATION, INVALID_OPERATION, INVALID_VALUE, NO_ERROR,
    OUT_OF_MEMORY,
};
use crate::text::join;
use vstd::prelude::*;
use vstd::string::*;

verus! {

/// A place at which the pending OpenGL error is looked at.
#[derive(Debug, Clone, Copy, PartialEq, Eq, Structural)]
pub enum Checkpoint {
    VerticesUploaded,
    ElementBufferBound,
    IndicesUploaded,
    PositionEnabled,
    ColorEnabled,
    DrawVertexArrayBound,
    DrawVertexBufferBound,
    DrawElementBufferBound,
    Drawn,
}

impl Checkpoint {
    /// What is printed of the place.
    pub open spec fn spec_message(self) -> Seq<char> {
        match self {
            Checkpoint::VerticesUploaded => "na vullen van vbo, voor ebo"@,
            Checkpoint::ElementBufferBound => "na klaarzetten en binden ebo buffer"@,
            Checkpoint::IndicesUploaded => "na vullen ebo buffer"@,
            Checkpoint::PositionEnabled => "na enable position attribute in VAO"@,
            Checkpoint::ColorEnabled => "na enable color attribute in VAO"@,
            Checkpoint::DrawVertexArrayBound => "na bind vao in draw"@,
            Checkpoint::DrawVertexBufferBound => "na bind vbo in draw"@,
            Checkpoint::DrawElementBufferBound => "na bind ebo in draw"@,
            Checkpoint::Drawn => "na draw"@,
        }
    }

    /// What is printed of the place.
    pub fn message(self) -> (message: &'static str)
        ensures
            message@ == self.spec_message(),
    {
        match self {
            Checkpoint::VerticesUploaded => "na vullen van vbo, voor ebo",
            Checkpoint::ElementBufferBound => "na klaarzetten en binden ebo buffer",
            Checkpoint::IndicesUploaded => "na vullen ebo buffer",
            Checkpoint::PositionEnabled => "na enable position attribute in VAO",
            Checkpoint::ColorEnabled => "na enable color attribute in VAO",
            Checkpoint::DrawVertexArrayBound => "na bind vao in draw",
            Checkpoint::DrawVertexBufferBound => "na bind vbo in draw",
            Checkpoint::DrawElementBufferBound => "na bind ebo in draw",
            Checkpoint::Drawn => "na draw",
        }
    }
}

/// What an OpenGL error code is called.
pub open spec fn error_name(code: u32) -> Seq<char> {
    if code == INVALID_ENUM {
        "invalid enum"@
    } else if code == INVALID_VALUE {
        "invalid value"@
    } else if code == INVALID_OPERATION {
        "invalid operation"@
    } else if code == INVALID_FRAMEBUFFER_OPERATION {
        "invalid framebuffer operation"@
    } else if code == OUT_OF_MEMORY {
        "out of memory"@
    } else if code == NO_ERROR {
        "no error"@
    } else {
        "?"@
    }
}

/// The line that reports an OpenGL error code.
pub open spec fn report_line(message: Seq<char>, code: u32) -> Seq<char> {
    message + "\t"@ + error_name(code)
}

/// The status that the process is left with after an OpenGL error code: none
/// where there is no error.
pub open spec fn exit_status(code: u32) -> Option<i32> {
    if code == NO_ERROR {
        None
    } else {
        Some(1)
    }
}

/// What becomes of an OpenGL error code.
#[derive(Debug)]
pub struct ErrorReport {
    /// The line to print.
    pub line: String,
    /// The status to leave the process with, once the line is printed.
    pub exit: Option<i32>,
}

/// Reports the OpenGL error `code` that was pending where `message` says: the
/// line names it, and any error ends the process.
pub fn get_error(message: &str, code: u32) -> (report: ErrorReport)
    ensures
        report.line@ == report_line(message@, code),
        report.exit == exit_status(code),
{
    let name = match code {
        INVALID_ENUM => "invalid enum",
        INVALID_VALUE => "invalid value",
        INVALID_OPERATION => "invalid operation",
        INVALID_FRAMEBUFFER_OPERATION => "invalid framebuffer operation",
        OUT_OF_MEMORY => "out of memory",
        NO_ERROR => "no error",
        _ => "?",
    };
    let mut line = join(message, "\t");
    line.append(name);
    ErrorReport {
        line,
        exit: if code != NO_ERROR {
            Some(1)
        } else {
            None
        },
    }
}

/// The process goes on if and only if there is no error, and is left with the
/// status 1 otherwise.
pub proof fn any_error_ends_the_process(code: u32)
    ensures
        exit_status(code) is None <==> code == 0,
        exit_status(code) is Some ==> exit_status(code)->0 == 1,
{
}

/// A report is the message, a tab and the name of the error. The five errors and
/// the lack of one have a name each, and any other code is a question mark.
pub proof fn report_names_the_error(message: Seq<char>, code: u32)
    ensures
        ({
            let line = report_line(message, code);
            let name = line.skip(message.len() as int + 1);
            &&& line.len() > message.len()
            &&& line.take(message.len() as int) == message
            &&& line[message.len() as int] == '\t'
            &&& code == 0x0500 ==> name == "invalid enum"@
            &&& code == 0x0501 ==> name == "invalid value"@
            &&& code == 0x0502 ==> name == "invalid operation"@
            &&& code == 0x0505 ==> name == "out of memory"@
            &&& code == 0x0506 ==> name == "invalid framebuffer operation"@
            &&& code == 0 ==> name == "no error"@
            &&& code != 0 && !(0x0500 <= code <= 0x0502) && !(0x0505 <= code <= 0x0506) ==> name
                == "?"@
        }),
{
    reveal_strlit("\t");
    let line = report_line(message, code);
    assert(line.skip(message.len() as int + 1) == error_name(code));
    assert(line.take(message.len() as int) == message);
}

} // verus!
