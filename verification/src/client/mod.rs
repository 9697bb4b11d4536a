//! The shell-side commands: asking the daemon for completions and letting
//! the user pick one, probing whether a daemon is alive, and telling the
//! user how to hook the program into a shell.

pub mod completion;
pub mod install;
pub mod probe;
