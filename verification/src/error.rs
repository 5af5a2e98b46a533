//! Why a run ends.

use vstd::prelude::*;
use vstd::string::*;
use crate::decimal::{decimal, decimal_string};

verus! {

/// One step of a terminal update.
#[derive(Clone, Copy, Debug, PartialEq, Eq, Structural)]
pub enum TerminalStep {
    Move,
    Save,
    Restore,
    Clear,
    Print,
    Flush,
}

/// The two updates the terminal receives.
#[derive(Clone, Copy, Debug, PartialEq, Eq, Structural)]
pub enum Operation {
    /// Anchor the cursor at column zero.
    Initialize,
    /// Repaint the status line at the anchor.
    RenderStatus,
}

/// The unrecoverable errors. Either one ends the run.
#[derive(Clone, Copy, Debug, PartialEq, Eq, Structural)]
pub enum FillError {
    /// The allocator refused to extend the buffer by `bytes` bytes.
    ReservationRefused { bytes: usize },
    /// A terminal sequence or a flush could not be written.
    TerminalIoFailed { operation: Operation, step: TerminalStep },
}

/// The short name of a step.
pub open spec fn step_name(step: TerminalStep) -> Seq<char> {
    match step {
        TerminalStep::Move => "move"@,
        TerminalStep::Save => "save"@,
        TerminalStep::Restore => "restore"@,
        TerminalStep::Clear => "clear"@,
        TerminalStep::Print => "print"@,
        TerminalStep::Flush => "flush"@,
    }
}

/// What is said of a failed step of an operation.
pub open spec fn step_description(operation: Operation, step: TerminalStep) -> Seq<char> {
    match step {
        TerminalStep::Move => "Unable to move cursor to first column"@,
        TerminalStep::Save => "Unable to save cursor position"@,
        TerminalStep::Restore => "Unable to restore cursor position"@,
        TerminalStep::Clear => "Unable to clear terminal from cursor down"@,
        TerminalStep::Print => "Unable to display buffer information to stdout"@,
        TerminalStep::Flush => match operation {
            Operation::Initialize => "Unable to execute terminal instructions for initializing the terminal cursor"@,
            Operation::RenderStatus => "Unable to execute terminal instructions for displaying buffer information"@,
        },
    }
}

/// The outermost description of an error: the component that failed.
pub open spec fn error_message(error: FillError) -> Seq<char> {
    match error {
        FillError::ReservationRefused { bytes } => "Unable to allocate "@ + decimal(bytes as nat)
            + " bytes in memory! Did we run out of memory?"@,
        FillError::TerminalIoFailed { operation: Operation::Initialize, .. } => "Unable to initialize terminal cursor"@,
        FillError::TerminalIoFailed { operation: Operation::RenderStatus, .. } => "Unable to print buffer statistics"@,
    }
}

/// The description below the outermost one: which step failed. A refused
/// reservation has none.
pub open spec fn error_cause(error: FillError) -> Option<Seq<char>> {
    match error {
        FillError::ReservationRefused { .. } => None,
        FillError::TerminalIoFailed { operation, step } => Some(step_description(operation, step)),
    }
}

impl TerminalStep {
    /// The short name of the step: `move`, `save`, `restore`, `clear`, `print`
    /// or `flush`.
    pub fn name(&self) -> (text: &'static str)
        ensures
            text@ == step_name(*self),
    {
        match self {
            TerminalStep::Move => "move",
            TerminalStep::Save => "save",
            TerminalStep::Restore => "restore",
            TerminalStep::Clear => "clear",
            TerminalStep::Print => "print",
            TerminalStep::Flush => "flush",
        }
    }

    /// The sentence that reports this step's failure within `operation`.
    pub fn description(&self, operation: Operation) -> (text: &'static str)
        ensures
            text@ == step_description(operation, *self),
    {
        match self {
            TerminalStep::Move => "Unable to move cursor to first column",
            TerminalStep::Save => "Unable to save cursor position",
            TerminalStep::Restore => "Unable to restore cursor position",
            TerminalStep::Clear => "Unable to clear terminal from cursor down",
            TerminalStep::Print => "Unable to display buffer information to stdout",
            TerminalStep::Flush => match operation {
                Operation::Initialize => "Unable to execute terminal instructions for initializing the terminal cursor",
                Operation::RenderStatus => "Unable to execute terminal instructions for displaying buffer information",
            },
        }
    }
}

impl FillError {
    /// The outermost description: the component that failed. A refused
    /// reservation names the requested byte count.
    pub fn message(&self) -> (text: String)
        ensures
            text@ == error_message(*self),
    {
        match self {
            FillError::ReservationRefused { bytes } => {
                let mut text = String::from_str("Unable to allocate ");
                let count = decimal_string(*bytes);
                text.append(count.as_str());
                text.append(" bytes in memory! Did we run out of memory?");
                text
            },
            FillError::TerminalIoFailed { operation: Operation::Initialize, .. } => String::from_str(
                "Unable to initialize terminal cursor",
            ),
            FillError::TerminalIoFailed { operation: Operation::RenderStatus, .. } => String::from_str(
                "Unable to print buffer statistics",
            ),
        }
    }

    /// The description of the failed step; `None` for a refused reservation.
    pub fn cause(&self) -> (text: Option<String>)
        ensures
            text.is_some() == error_cause(*self).is_some(),
            text.is_some() ==> text.unwrap()@ == error_cause(*self).unwrap(),
    {
        match self {
            FillError::ReservationRefused { .. } => None,
            FillError::TerminalIoFailed { operation, step } => {
                Some(String::from_str(step.description(*operation)))
            },
        }
    }
}

/// The numeral of one binary megabyte.
pub proof fn lemma_megabyte_numeral()
    ensures
        decimal(1_048_576) == "1048576"@,
{
    reveal_strlit("1048576");
    reveal_with_fuel(decimal, 8);
    assert(decimal(1_048_576) =~= "1048576"@);
}

/// The message of a refused reservation of one binary megabyte holds that
/// byte count in full.
pub proof fn lemma_refusal_names_byte_count()
    ensures
        error_message(FillError::ReservationRefused { bytes: 1_048_576 })
            == "Unable to allocate "@ + "1048576"@ + " bytes in memory! Did we run out of memory?"@,
{
    lemma_megabyte_numeral();
}

} // verus!
