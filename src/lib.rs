//! Runs a command line through the system shell and hands back what it
//! printed on standard output.
//!
//! The library holds the decisions: which interpreter is started and with what
//! arguments (`invocation`), and how a finished run, or a failure to start one,
//! becomes the text-or-error result (`capture`). Spawning the child process and
//! waiting for it is left to the caller.
pub mod capture;
pub mod invocation;
