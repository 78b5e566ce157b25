//! Supervisor for an external kernel process: it names the command line that
//! launches the kernel and turns the outcome of the operating system's
//! process-creation call into the reply shown to the front end.
//!
//! The library performs no process creation itself. The caller hands it the
//! routine that asks the operating system for a new process; everything the
//! supervisor decides around that request is verified here.

pub mod command;
pub mod launch_result;
pub mod supervisor;
