//! The rules of the calculator's read-eval-print loop.
//!
//! The loop itself reads lines and talks to the interpreter, and belongs to
//! the program. After each of those steps it asks here what comes next.

use vstd::prelude::*;

verus! {

/// The prompt shown before each line.
pub const PROMPT: &'static str = ">>> ";

/// `text` without its leading and trailing white space, as `str::trim`
/// defines it.
pub uninterp spec fn trimmed(text: Seq<char>) -> Seq<char>;

/// Calls `str::trim`.
///
/// Trusted: the result is a function of the text alone, named `trimmed`.
#[verifier::external_body]
fn trim(text: &str) -> (inner: &str)
    ensures
        inner@ == trimmed(text@),
{
    text.trim()
}

/// Whether `line` holds nothing but white space.
pub fn is_blank(line: &str) -> (blank: bool)
    ensures
        blank == (trimmed(line@).len() == 0),
{
    trim(line).is_empty()
}

/// How an attempt to read a line ended.
#[derive(Debug, Clone, PartialEq, Eq)]
pub enum LineEvent {
    /// The user entered this line.
    Line(String),
    /// The user interrupted the prompt.
    Interrupted,
    /// The input has ended.
    EndOfInput,
    /// Reading failed in another way.
    Failed,
}

/// What the loop does after an attempt to read a line.
#[derive(Debug, Clone, Copy, PartialEq, Eq, Structural)]
pub enum LineDecision {
    /// Show the prompt again.
    ReadAgain,
    /// Remember the line and evaluate it.
    Evaluate,
    /// Leave the loop; the session ended normally.
    Finish,
    /// Leave the loop with the error that reading gave.
    Abort,
}

/// The decision that follows each outcome of reading a line.
pub open spec fn line_decision(event: LineEvent) -> LineDecision {
    match event {
        LineEvent::Line(text) => if trimmed(text@).len() == 0 {
            LineDecision::ReadAgain
        } else {
            LineDecision::Evaluate
        },
        LineEvent::Interrupted => LineDecision::ReadAgain,
        LineEvent::EndOfInput => LineDecision::Finish,
        LineEvent::Failed => LineDecision::Abort,
    }
}

/// Decides what follows an attempt to read a line. A blank line and an
/// interrupt lead back to the prompt, the end of the input ends the loop, and
/// any other failure aborts it.
pub fn after_readline(event: &LineEvent) -> (decision: LineDecision)
    ensures
        decision == line_decision(*event),
{
    match event {
        LineEvent::Line(text) => {
            if is_blank(text.as_str()) {
                LineDecision::ReadAgain
            } else {
                LineDecision::Evaluate
            }
        },
        LineEvent::Interrupted => LineDecision::ReadAgain,
        LineEvent::EndOfInput => LineDecision::Finish,
        LineEvent::Failed => LineDecision::Abort,
    }
}

/// How the attempt to run a line as a command ended.
#[derive(Debug, Clone, Copy, PartialEq, Eq, Structural)]
pub enum CommandOutcome {
    /// The line was a command and has been carried out.
    Continue,
    /// The line was the command to quit.
    Return,
    /// The line was the command to forget all definitions.
    Reset,
    /// The line is no command.
    NotACommand,
    /// The line was a command and failed.
    Failed,
}

/// What the loop does after trying a line as a command.
#[derive(Debug, Clone, Copy, PartialEq, Eq, Structural)]
pub enum CommandDecision {
    /// Show the prompt again.
    ReadAgain,
    /// Leave the loop; the session ended normally.
    Finish,
    /// Replace the interpreter's context by a fresh one, then show the prompt
    /// again.
    ResetContext,
    /// Report the command's error, then show the prompt again.
    ReportError,
    /// Hand the line to the interpreter.
    Interpret,
}

/// The decision that follows each outcome of a command.
pub open spec fn command_decision(outcome: CommandOutcome) -> CommandDecision {
    match outcome {
        CommandOutcome::Continue => CommandDecision::ReadAgain,
        CommandOutcome::Return => CommandDecision::Finish,
        CommandOutcome::Reset => CommandDecision::ResetContext,
        CommandOutcome::NotACommand => CommandDecision::Interpret,
        CommandOutcome::Failed => CommandDecision::ReportError,
    }
}

/// Decides what follows the attempt to run a line as a command. Only a line
/// that is no command reaches the interpreter.
pub fn after_command(outcome: CommandOutcome) -> (decision: CommandDecision)
    ensures
        decision == command_decision(outcome),
{
    match outcome {
        CommandOutcome::Continue => CommandDecision::ReadAgain,
        CommandOutcome::Return => CommandDecision::Finish,
        CommandOutcome::Reset => CommandDecision::ResetContext,
        CommandOutcome::NotACommand => CommandDecision::Interpret,
        CommandOutcome::Failed => CommandDecision::ReportError,
    }
}

} // verus!
