//! Paint commands: what the renderer asks of the terminal, in order.

use vstd::prelude::*;

verus! {

/// Move the cursor up this many lines.
#[derive(Debug, Clone, Copy, PartialEq, Eq, Structural)]
pub struct MoveCursorUp(pub usize);

/// Clear the line under the cursor.
#[derive(Debug, Clone, Copy, PartialEq, Eq, Structural)]
pub struct ClearLine {}

/// Write these bytes.
#[derive(Debug)]
pub struct WriteAll(pub Vec<u8>);

/// One paint command.
#[derive(Debug)]
pub enum OutputCommand {
    MoveCursorUp(MoveCursorUp),
    ClearLine(ClearLine),
    WriteAll(WriteAll),
}

/// The meaning of a paint command.
pub ghost enum Paint {
    Up(nat),
    Clear,
    Write(Seq<u8>),
}

impl View for OutputCommand {
    type V = Paint;

    open spec fn view(&self) -> Paint {
        match self {
            OutputCommand::MoveCursorUp(m) => Paint::Up(m.0 as nat),
            OutputCommand::ClearLine(_) => Paint::Clear,
            OutputCommand::WriteAll(w) => Paint::Write(w.0@),
        }
    }
}

/// The meaning of a sequence of paint commands.
pub open spec fn paints(cmds: Seq<OutputCommand>) -> Seq<Paint> {
    cmds.map_values(|c: OutputCommand| c@)
}

impl OutputCommand {
    /// A command that writes the UTF-8 bytes of `text`.
    pub fn write_text(text: &str) -> (r: OutputCommand)
        ensures
            r@ == Paint::Write(vstd::utf8::encode_utf8(text@)),
    {
        OutputCommand::WriteAll(WriteAll(text.as_bytes_vec()))
    }
}

} // verus!
