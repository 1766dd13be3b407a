//! The lines of the debug channel. They are for developers, and their
//! `DEBUG` prefix tells them apart from the result line of a run.

use vstd::prelude::*;
use vstd::string::*;

verus! {

/// The line that announces the start of the process.
pub const STARTED: &'static str = "DEBUG: Rust run() started";

/// What stands before the input in the line that echoes it at startup.
pub const INPUT_PREFIX: &'static str = "DEBUG: Received CLI input: ";

/// What stands before a message that the front end asked to log.
pub const FRONT_END_PREFIX: &'static str = "DEBUG [JS]: ";

/// The line that announces the start of the process.
pub fn startup_line() -> (line: String)
    ensures
        line@ == STARTED@,
{
    STARTED.to_owned()
}

/// The line that echoes the input of the run once it is settled.
pub fn input_line(input: &str) -> (line: String)
    ensures
        line@ == INPUT_PREFIX@ + input@,
{
    INPUT_PREFIX.to_owned().concat(input)
}

/// The line for a message that the front end asked to log: the message
/// behind [`FRONT_END_PREFIX`], with nothing taken away or added.
pub fn log_debug(msg: &str) -> (line: String)
    ensures
        line@ == FRONT_END_PREFIX@ + msg@,
{
    FRONT_END_PREFIX.to_owned().concat(msg)
}

} // verus!
