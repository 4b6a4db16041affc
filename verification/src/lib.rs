//! Front-end shell of a small database client.
//!
//! A host loop reads one line of input at a time; the library classifies the
//! line as a meta-command (leading `.` sentinel) or a query command,
//! dispatches it, and reports the outcome: a line for standard output, a
//! diagnostic for the error stream, or an instruction to terminate with
//! success. Reading the input stream, printing, and process exit belong to
//! the host; every decision about a line is made — and verified — here.

pub mod input;
pub mod sql;
pub mod utils;

use crate::sql::parser::{run_command, run_command_post, Command, RunOutcome};
use crate::sql::tokenizer::{str_eq, InputBuffer};
use vstd::prelude::*;

verus! {

/// Whether the buffered line is exactly the exit directive, which the
/// driver loop intercepts before dispatch.
pub open spec fn spec_is_exit_line(buffer: Option<String>) -> bool {
    match buffer {
        None => false,
        Some(line) => line@ == ".exit"@,
    }
}

/// One iteration of the shell, once the host has read a line into the
/// buffer: the exit directive ends the loop with the command slot
/// untouched; every other line runs through classification and dispatch.
/// The host performs the returned outcome — print the line, print the
/// diagnostic, or stop with success — and loops again unless told to stop.
pub fn run(input_buffer: &InputBuffer, command: &mut Command) -> (outcome: RunOutcome)
    ensures
        spec_is_exit_line(input_buffer.buffer) ==> outcome is Terminate && *final(command) == *old(
            command,
        ),
        !spec_is_exit_line(input_buffer.buffer) ==> run_command_post(
            input_buffer.buffer,
            *old(command),
            *final(command),
            outcome,
        ),
{
    if let Some(line) = &input_buffer.buffer {
        if str_eq(line.as_str(), ".exit") {
            return RunOutcome::Terminate;
        }
    }
    run_command(input_buffer, command)
}

} // verus!
