//! The recorded output stream.
//!
//! Rendering does not touch hardware: it appends commands to an [`Outputs`]
//! value, and the embedding program replays them against the real display
//! and indicator outputs. The view of the recorder is the sequence of
//! commands appended so far, with each text run seen as its characters.

use vstd::prelude::*;
use vstd::string::StringExecFns;

verus! {

/// One write to the display or the indicator outputs.
#[derive(PartialEq, Eq, Debug)]
pub enum OutputCommand {
    /// Clear the whole display.
    Clear,
    /// Set cursor visibility.
    CursorOn(bool),
    /// Set cursor blinking.
    CursorBlink(bool),
    /// Move the cursor to (row, column).
    SetCursor(u8, u8),
    /// Write a text run at the cursor.
    Text(String),
    /// Drive the left "to move" indicator.
    LeftLed(bool),
    /// Drive the right "to move" indicator.
    RightLed(bool),
}

/// The mathematical form of one output command.
pub enum OutputOp {
    Clear,
    CursorOn(bool),
    CursorBlink(bool),
    SetCursor(u8, u8),
    Text(Seq<char>),
    LeftLed(bool),
    RightLed(bool),
}

impl View for OutputCommand {
    type V = OutputOp;

    open spec fn view(&self) -> OutputOp {
        match self {
            OutputCommand::Clear => OutputOp::Clear,
            OutputCommand::CursorOn(on) => OutputOp::CursorOn(*on),
            OutputCommand::CursorBlink(on) => OutputOp::CursorBlink(*on),
            OutputCommand::SetCursor(row, col) => OutputOp::SetCursor(*row, *col),
            OutputCommand::Text(s) => OutputOp::Text(s@),
            OutputCommand::LeftLed(on) => OutputOp::LeftLed(*on),
            OutputCommand::RightLed(on) => OutputOp::RightLed(*on),
        }
    }
}

/// The recorder the renderer writes to.
#[derive(PartialEq, Eq, Debug)]
pub struct Outputs {
    pub commands: Vec<OutputCommand>,
}

impl View for Outputs {
    type V = Seq<OutputOp>;

    open spec fn view(&self) -> Seq<OutputOp> {
        self.commands@.map_values(|c: OutputCommand| c@)
    }
}

impl Outputs {
    /// An empty recorder.
    pub fn new() -> (r: Outputs)
        ensures
            r@ == Seq::<OutputOp>::empty(),
    {
        let r = Outputs { commands: Vec::new() };
        proof {
            assert(r@ =~= Seq::<OutputOp>::empty());
        }
        r
    }

    fn record(&mut self, command: OutputCommand)
        ensures
            final(self)@ == old(self)@ + seq![command@],
    {
        self.commands.push(command);
        proof {
            assert(self@ =~= old(self)@ + seq![command@]);
        }
    }

    /// Clear the whole display.
    pub fn clear(&mut self)
        ensures
            final(self)@ == old(self)@ + seq![OutputOp::Clear],
    {
        self.record(OutputCommand::Clear);
    }

    /// Set cursor visibility.
    pub fn cursor_on(&mut self, on: bool)
        ensures
            final(self)@ == old(self)@ + seq![OutputOp::CursorOn(on)],
    {
        self.record(OutputCommand::CursorOn(on));
    }

    /// Set cursor blinking.
    pub fn cursor_blink(&mut self, on: bool)
        ensures
            final(self)@ == old(self)@ + seq![OutputOp::CursorBlink(on)],
    {
        self.record(OutputCommand::CursorBlink(on));
    }

    /// Move the cursor to (row, column).
    pub fn set_cursor(&mut self, row: u8, col: u8)
        ensures
            final(self)@ == old(self)@ + seq![OutputOp::SetCursor(row, col)],
    {
        self.record(OutputCommand::SetCursor(row, col));
    }

    /// Write a text run at the cursor.
    pub fn write_str(&mut self, s: &str)
        ensures
            final(self)@ == old(self)@ + seq![OutputOp::Text(s@)],
    {
        self.record(OutputCommand::Text(String::from_str(s)));
    }

    /// Drive the left "to move" indicator.
    pub fn left_led(&mut self, on: bool)
        ensures
            final(self)@ == old(self)@ + seq![OutputOp::LeftLed(on)],
    {
        self.record(OutputCommand::LeftLed(on));
    }

    /// Drive the right "to move" indicator.
    pub fn right_led(&mut self, on: bool)
        ensures
            final(self)@ == old(self)@ + seq![OutputOp::RightLed(on)],
    {
        self.record(OutputCommand::RightLed(on));
    }
}

} // verus!
