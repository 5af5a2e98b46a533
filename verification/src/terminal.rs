//! The terminal commands of the status renderer and the sequences that
//! carry them.

use vstd::prelude::*;
use vstd::string::*;
use crossterm::cursor::{MoveToColumn, RestorePosition, SavePosition};
use crossterm::style::Print;
use crossterm::terminal::{Clear, ClearType};
use crossterm::Command;
use crate::decimal::{decimal, lemma_decimal_single_line};
use crate::error::{Operation, TerminalStep};
use crate::status::{single_line, status_line, status_text, StatusStyle};

verus! {

/// One instruction for the terminal. The caller performs them in the order
/// in which it receives them.
#[derive(Debug, PartialEq, Eq)]
pub enum TerminalCommand {
    /// Move the cursor to the given column of its line, counted from zero.
    MoveToColumn(u16),
    /// Remember the cursor's position as the anchor.
    SavePosition,
    /// Return the cursor to the anchor.
    RestorePosition,
    /// Erase from the cursor to the end of the screen.
    ClearFromCursorDown,
    /// Write the text at the cursor.
    Print(String),
    /// Hand everything queued so far to the terminal.
    Flush,
}

/// A command with its text as a sequence of characters.
pub enum CommandView {
    MoveToColumn(u16),
    SavePosition,
    RestorePosition,
    ClearFromCursorDown,
    Print(Seq<char>),
    Flush,
}

impl View for TerminalCommand {
    type V = CommandView;

    open spec fn view(&self) -> CommandView {
        match self {
            TerminalCommand::MoveToColumn(column) => CommandView::MoveToColumn(*column),
            TerminalCommand::SavePosition => CommandView::SavePosition,
            TerminalCommand::RestorePosition => CommandView::RestorePosition,
            TerminalCommand::ClearFromCursorDown => CommandView::ClearFromCursorDown,
            TerminalCommand::Print(text) => CommandView::Print(text@),
            TerminalCommand::Flush => CommandView::Flush,
        }
    }
}

/// The step that a command stands for when its failure is reported.
pub open spec fn command_step(command: CommandView) -> TerminalStep {
    match command {
        CommandView::MoveToColumn(_) => TerminalStep::Move,
        CommandView::SavePosition => TerminalStep::Save,
        CommandView::RestorePosition => TerminalStep::Restore,
        CommandView::ClearFromCursorDown => TerminalStep::Clear,
        CommandView::Print(_) => TerminalStep::Print,
        CommandView::Flush => TerminalStep::Flush,
    }
}

/// The characters that carry a command to an ANSI terminal. Columns are
/// counted from one on the wire. A flush sends nothing of its own.
pub open spec fn command_sequence(command: CommandView) -> Seq<char> {
    match command {
        CommandView::MoveToColumn(column) => "\x1B["@ + decimal((column + 1) as nat) + "G"@,
        CommandView::SavePosition => "\x1B7"@,
        CommandView::RestorePosition => "\x1B8"@,
        CommandView::ClearFromCursorDown => "\x1B[J"@,
        CommandView::Print(text) => text,
        CommandView::Flush => Seq::<char>::empty(),
    }
}

/// The commands that anchor the cursor: move to column zero, remember the
/// position, flush.
pub open spec fn initialize_script() -> Seq<CommandView> {
    seq![CommandView::MoveToColumn(0), CommandView::SavePosition, CommandView::Flush]
}

/// The commands that repaint the status line: back to the anchor, erase
/// everything from there on, print `status`, flush.
pub open spec fn render_script(status: Seq<char>) -> Seq<CommandView> {
    seq![
        CommandView::RestorePosition,
        CommandView::ClearFromCursorDown,
        CommandView::Print(status),
        CommandView::Flush,
    ]
}

/// The commands of an operation, in order. Rendering prints `status`.
pub open spec fn operation_script(operation: Operation, status: Seq<char>) -> Seq<CommandView> {
    match operation {
        Operation::Initialize => initialize_script(),
        Operation::RenderStatus => render_script(status),
    }
}

/// A list of commands, each by its view.
pub open spec fn script_view(script: Seq<TerminalCommand>) -> Seq<CommandView> {
    script.map_values(|command: TerminalCommand| command@)
}

/// Whether every command of the list can be put on the wire.
pub open spec fn script_encodable(script: Seq<TerminalCommand>) -> bool {
    forall|i: int| 0 <= i < script.len() ==> (#[trigger] script[i]).encodable()
}

/// `crossterm::cursor::MoveToColumn::write_ansi` into an empty `String`.
/// Claimed of it: it writes the escape character, `[`, the column counted from
/// one in decimal, and `G`. The last column is left out because the count from
/// one would not fit.
#[verifier::external_body]
fn move_to_column_sequence(column: u16) -> (text: String)
    requires
        column < u16::MAX,
    ensures
        text@ == "\x1B["@ + decimal((column + 1) as nat) + "G"@,
{
    let mut text = String::new();
    let _ = MoveToColumn(column).write_ansi(&mut text);
    text
}

/// `crossterm::cursor::SavePosition::write_ansi` into an empty `String`.
/// Claimed of it: it writes the escape character and `7`.
#[verifier::external_body]
fn save_position_sequence() -> (text: String)
    ensures
        text@ == "\x1B7"@,
{
    let mut text = String::new();
    let _ = SavePosition.write_ansi(&mut text);
    text
}

/// `crossterm::cursor::RestorePosition::write_ansi` into an empty `String`.
/// Claimed of it: it writes the escape character and `8`.
#[verifier::external_body]
fn restore_position_sequence() -> (text: String)
    ensures
        text@ == "\x1B8"@,
{
    let mut text = String::new();
    let _ = RestorePosition.write_ansi(&mut text);
    text
}

/// `crossterm::terminal::Clear::write_ansi` for
/// `ClearType::FromCursorDown`, into an empty `String`. Claimed of it: it
/// writes the escape character, `[` and `J`.
#[verifier::external_body]
fn clear_from_cursor_down_sequence() -> (text: String)
    ensures
        text@ == "\x1B[J"@,
{
    let mut text = String::new();
    let _ = Clear(ClearType::FromCursorDown).write_ansi(&mut text);
    text
}

/// `crossterm::style::Print::write_ansi` for a string slice, into an empty
/// `String`. Claimed of it: it writes the slice as it is.
#[verifier::external_body]
fn print_sequence(content: &str) -> (text: String)
    ensures
        text@ == content@,
{
    let mut text = String::new();
    let _ = Print(content).write_ansi(&mut text);
    text
}

impl TerminalCommand {
    /// The step that this command stands for when its failure is reported.
    pub fn step(&self) -> (step: TerminalStep)
        ensures
            step == command_step(self@),
    {
        match self {
            TerminalCommand::MoveToColumn(_) => TerminalStep::Move,
            TerminalCommand::SavePosition => TerminalStep::Save,
            TerminalCommand::RestorePosition => TerminalStep::Restore,
            TerminalCommand::ClearFromCursorDown => TerminalStep::Clear,
            TerminalCommand::Print(_) => TerminalStep::Print,
            TerminalCommand::Flush => TerminalStep::Flush,
        }
    }

    /// Whether the command can be put on the wire: every command but a move
    /// to the very last column.
    pub open spec fn encodable(&self) -> bool {
        match self {
            TerminalCommand::MoveToColumn(column) => *column < u16::MAX,
            _ => true,
        }
    }

    /// The characters that carry this command to an ANSI terminal; none for
    /// a flush.
    pub fn sequence(&self) -> (text: String)
        requires
            self.encodable(),
        ensures
            text@ == command_sequence(self@),
    {
        match self {
            TerminalCommand::MoveToColumn(column) => move_to_column_sequence(*column),
            TerminalCommand::SavePosition => save_position_sequence(),
            TerminalCommand::RestorePosition => restore_position_sequence(),
            TerminalCommand::ClearFromCursorDown => clear_from_cursor_down_sequence(),
            TerminalCommand::Print(text) => print_sequence(text.as_str()),
            TerminalCommand::Flush => String::new(),
        }
    }

    /// The characters of this command, or `None` for a move to the last
    /// column, which has no encoding.
    pub fn checked_sequence(&self) -> (text: Option<String>)
        ensures
            text.is_some() == self.encodable(),
            text.is_some() ==> text.unwrap()@ == command_sequence(self@),
    {
        let encodable = match self {
            TerminalCommand::MoveToColumn(column) => *column < u16::MAX,
            _ => true,
        };
        if encodable {
            Some(self.sequence())
        } else {
            None
        }
    }
}

/// The commands that initialize the terminal cursor, so that the place of
/// the status line is known: move to the first column, save the position,
/// flush.
pub fn init_cursor() -> (script: Vec<TerminalCommand>)
    ensures
        script@.len() == 3,
        script_view(script@) == initialize_script(),
        script_encodable(script@),
{
    let mut script = Vec::new();
    script.push(TerminalCommand::MoveToColumn(0));
    script.push(TerminalCommand::SavePosition);
    script.push(TerminalCommand::Flush);
    assert(script_view(script@) =~= initialize_script());
    script
}

/// The commands that show the statistics of a buffer of `buffer_length`
/// bytes in place of the previous ones: restore the position, clear from the
/// cursor down, print the status line, flush.
pub fn print_buffer_statistics(style: StatusStyle, buffer_length: usize) -> (script: Vec<
    TerminalCommand,
>)
    ensures
        script@.len() == 4,
        script_view(script@) == render_script(status_text(style, buffer_length as nat)),
        script_encodable(script@),
{
    let mut script = Vec::new();
    script.push(TerminalCommand::RestorePosition);
    script.push(TerminalCommand::ClearFromCursorDown);
    script.push(TerminalCommand::Print(status_line(style, buffer_length)));
    script.push(TerminalCommand::Flush);
    assert(script_view(script@) =~= render_script(status_text(style, buffer_length as nat)));
    script
}

/// No command of the renderer puts a line break on the wire, as long as the
/// status it prints holds none.
pub proof fn lemma_script_single_line(operation: Operation, status: Seq<char>, index: int)
    requires
        single_line(status),
        0 <= index < operation_script(operation, status).len(),
    ensures
        single_line(command_sequence(operation_script(operation, status)[index])),
{
    reveal_strlit("\x1B[");
    reveal_strlit("G");
    reveal_strlit("\x1B7");
    reveal_strlit("\x1B8");
    reveal_strlit("\x1B[J");
    let text = command_sequence(operation_script(operation, status)[index]);
    if operation == Operation::Initialize && index == 0 {
        lemma_decimal_single_line(1);
        let numeral = decimal(1);
        if text.contains('\n') {
            let i = choose|i: int| 0 <= i < text.len() && text[i] == '\n';
            if 2 <= i < 2 + numeral.len() {
                assert(text[i] == numeral[i - 2]);
                assert(numeral.contains('\n'));
            }
        }
    }
}

} // verus!
