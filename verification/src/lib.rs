//! The logic of a terminal front end for an interactive calculator: the bridge
//! between a child process on a pseudo-terminal and the window that shows it,
//! and the colouring of the calculator's markup.
//!
//! The bridge is modelled sequentially. Every function here is one critical
//! section of the running program: the caller takes the lock that guards the
//! value, calls the function, and releases the lock. What the functions
//! guarantee of any order of calls therefore holds of any interleaving of the
//! threads that make them.

pub mod command;
pub mod decode;
pub mod format;
pub mod history;
pub mod launch;
pub mod monitor;
pub mod output;
pub mod repl;
pub mod sink;

