//! Starting up: which of its two programs the executable runs, and how a
//! session's child is launched.

use vstd::prelude::*;

verus! {

/// The argument that makes the executable run the read-eval-print loop
/// instead of opening a window.
pub open spec fn repl_flag() -> Seq<char> {
    "--repl"@
}

/// The two programs in the executable.
#[derive(Debug, Clone, Copy, PartialEq, Eq, Structural)]
pub enum Mode {
    /// The read-eval-print loop, run as the child of a session.
    Repl,
    /// The window that hosts a session.
    Window,
}

/// Whether one of `args` is the flag for the read-eval-print loop.
pub open spec fn asks_for_repl(args: Seq<String>) -> bool {
    exists|i: int| 0 <= i < args.len() && (#[trigger] args[i])@ == repl_flag()
}

/// Picks the program to run from the command line, the program's own name
/// included: the read-eval-print loop if any argument is the flag for it,
/// the window otherwise.
pub fn select_mode(args: &Vec<String>) -> (mode: Mode)
    ensures
        mode == if asks_for_repl(args@) {
            Mode::Repl
        } else {
            Mode::Window
        },
{
    let flag = "--repl".to_owned();
    let mut i: usize = 0;
    while i < args.len()
        invariant
            i <= args.len(),
            flag@ == repl_flag(),
            forall|j: int| 0 <= j < i ==> (#[trigger] args@[j])@ != repl_flag(),
        decreases args.len() - i,
    {
        if args[i] == flag {
            return Mode::Repl;
        }
        i = i + 1;
    }
    Mode::Window
}

/// The arguments with which a session starts its child: the flag for the
/// read-eval-print loop, and nothing else.
pub fn child_arguments() -> (args: Vec<String>)
    ensures
        args@.len() == 1,
        args@[0]@ == repl_flag(),
{
    let mut args: Vec<String> = Vec::new();
    args.push("--repl".to_owned());
    args
}

/// The steps of creating a session, in the order in which they are taken.
/// A session exists only when all of them have succeeded: a failure of any
/// one is fatal to the program.
#[derive(Debug, Clone, Copy, PartialEq, Eq, Structural)]
pub enum SetupStage {
    /// Opening the pseudo-terminal.
    OpenTerminal,
    /// Finding the path of the executable to run as the child.
    LocateProgram,
    /// Spawning the child on the terminal.
    SpawnChild,
    /// Cloning a reader of the child's output.
    CloneReader,
    /// Taking the writer to the child's input.
    TakeWriter,
}

impl SetupStage {
    /// The words with which the program stops when this step fails.
    pub open spec fn failure_text(self) -> Seq<char> {
        match self {
            SetupStage::OpenTerminal => "Failed to create PTY"@,
            SetupStage::LocateProgram => "failed to get current exe"@,
            SetupStage::SpawnChild => "Failed to spawn numbat"@,
            SetupStage::CloneReader => "Failed to clone reader"@,
            SetupStage::TakeWriter => "Failed to take writer"@,
        }
    }

    /// The words with which the program stops when this step fails.
    pub fn failure_message(self) -> (message: &'static str)
        ensures
            message@ == self.failure_text(),
    {
        match self {
            SetupStage::OpenTerminal => "Failed to create PTY",
            SetupStage::LocateProgram => "failed to get current exe",
            SetupStage::SpawnChild => "Failed to spawn numbat",
            SetupStage::CloneReader => "Failed to clone reader",
            SetupStage::TakeWriter => "Failed to take writer",
        }
    }
}

} // verus!
