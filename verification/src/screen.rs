use crate::editor::Position;
use crate::model::DrawOp;
use vstd::prelude::*;

verus! {

/// One thing that the terminal is asked to do. The viewer decides what is
/// drawn and in which order; whoever owns the terminal carries it out.
#[derive(Debug, PartialEq, Eq)]
pub enum DrawCommand {
    HideCursor,
    ShowCursor,
    /// Put the terminal's cursor on this cell of the screen.
    MoveTo(Position),
    ClearScreen,
    ClearLine,
    /// Write the text and go to the start of the next screen row.
    PrintLine(String),
    Flush,
}

impl View for DrawCommand {
    type V = DrawOp;

    open spec fn view(&self) -> DrawOp {
        match self {
            DrawCommand::HideCursor => DrawOp::HideCursor,
            DrawCommand::ShowCursor => DrawOp::ShowCursor,
            DrawCommand::MoveTo(position) => DrawOp::MoveTo(position@),
            DrawCommand::ClearScreen => DrawOp::ClearScreen,
            DrawCommand::ClearLine => DrawOp::ClearLine,
            DrawCommand::PrintLine(text) => DrawOp::PrintLine(text@),
            DrawCommand::Flush => DrawOp::Flush,
        }
    }
}

/// What a sequence of commands asks for, in order.
pub open spec fn ops(commands: Seq<DrawCommand>) -> Seq<DrawOp> {
    commands.map_values(|command: DrawCommand| command@)
}

} // verus!
