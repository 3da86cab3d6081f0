//! External commands and their outcomes.

use vstd::prelude::*;
use vstd::string::*;

verus! {

/// How a process ended, as the operating system reports it.
#[derive(Clone, Debug, PartialEq, Eq)]
pub struct ProcessExit {
    /// The process ended with the status of success.
    pub success: bool,
    /// The exit code, where the process ended with one.
    pub code: Option<i32>,
    /// What the process wrote to standard error.
    pub stderr: String,
}

/// The outcome of one external command.
#[derive(Clone, Debug, PartialEq, Eq)]
pub enum CommandOutcome {
    /// The command ran and succeeded.
    Success,
    /// The command ran and did not succeed.
    Failed { code: Option<i32>, stderr: String },
    /// The shell could not be started.
    SpawnError { cause: String },
}

/// A `CommandOutcome` with its texts as sequences of characters.
pub enum CommandOutcomeView {
    Success,
    Failed { code: Option<i32>, stderr: Seq<char> },
    SpawnError { cause: Seq<char> },
}

impl View for CommandOutcome {
    type V = CommandOutcomeView;

    open spec fn view(&self) -> CommandOutcomeView {
        match *self {
            CommandOutcome::Success => CommandOutcomeView::Success,
            CommandOutcome::Failed { code, stderr } => CommandOutcomeView::Failed {
                code,
                stderr: stderr@,
            },
            CommandOutcome::SpawnError { cause } => CommandOutcomeView::SpawnError {
                cause: cause@,
            },
        }
    }
}

/// The result of one step that the caller carried out for the library.
#[derive(Clone, Debug, PartialEq, Eq)]
pub enum StepEvent {
    Succeeded,
    Failed(String),
}

/// A `StepEvent` with its text as a sequence of characters.
pub enum StepEventView {
    Succeeded,
    Failed(Seq<char>),
}

impl View for StepEvent {
    type V = StepEventView;

    open spec fn view(&self) -> StepEventView {
        match *self {
            StepEvent::Succeeded => StepEventView::Succeeded,
            StepEvent::Failed(cause) => StepEventView::Failed(cause@),
        }
    }
}

/// The outcome of a command of which `run` was seen: the exit of the
/// process, or the reason why the shell did not start.
pub open spec fn outcome_of(run: Result<ProcessExit, String>) -> CommandOutcomeView {
    match run {
        Ok(exit) => if exit.success {
            CommandOutcomeView::Success
        } else {
            CommandOutcomeView::Failed { code: exit.code, stderr: exit.stderr@ }
        },
        Err(cause) => CommandOutcomeView::SpawnError { cause: cause@ },
    }
}

/// The event that an outcome is to the run of a batch: success, or a
/// failure with what the command wrote to standard error, or with the reason
/// why the shell did not start.
pub open spec fn event_of(outcome: CommandOutcomeView) -> StepEventView {
    match outcome {
        CommandOutcomeView::Success => StepEventView::Succeeded,
        CommandOutcomeView::Failed { stderr, .. } => StepEventView::Failed(stderr),
        CommandOutcomeView::SpawnError { cause } => StepEventView::Failed(cause),
    }
}

/// Classifies the run of one external command. An exit without success is
/// an outcome like any other, not a fault of the program.
pub fn execute_command(run: Result<ProcessExit, String>) -> (r: CommandOutcome)
    ensures
        r@ == outcome_of(run),
{
    match run {
        Ok(exit) => {
            if exit.success {
                CommandOutcome::Success
            } else {
                CommandOutcome::Failed { code: exit.code, stderr: exit.stderr }
            }
        },
        Err(cause) => CommandOutcome::SpawnError { cause },
    }
}

impl CommandOutcome {
    /// Turns the outcome into the event that the run of a batch takes.
    pub fn into_event(self) -> (r: StepEvent)
        ensures
            r@ == event_of(self@),
    {
        match self {
            CommandOutcome::Success => StepEvent::Succeeded,
            CommandOutcome::Failed { stderr, .. } => StepEvent::Failed(stderr),
            CommandOutcome::SpawnError { cause } => StepEvent::Failed(cause),
        }
    }
}

} // verus!
