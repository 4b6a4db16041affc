use sqldb::run;
use sqldb::sql::parser::{run_command, Command, RunOutcome};
use sqldb::sql::tokenizer::InputBuffer;

fn buffer_with(line: &str) -> InputBuffer {
    InputBuffer { buffer: Some(line.to_string()), buffer_length: line.chars().count() }
}

#[test]
fn scenario_help_acknowledges_and_continues() {
    let input_buffer = buffer_with(".help");
    let mut command = Command::new();
    let outcome = run(&input_buffer, &mut command);
    assert_eq!(outcome, RunOutcome::Output(".help command executed.".to_string()));
}

#[test]
fn scenario_exit_terminates_with_success() {
    let input_buffer = buffer_with(".exit");
    let mut command = Command::new();
    let outcome = run(&input_buffer, &mut command);
    assert_eq!(outcome, RunOutcome::Terminate);
    assert_eq!(command.variant(), None);
}

#[test]
fn scenario_select_acknowledges_and_continues() {
    let input_buffer = buffer_with("select * from users");
    let mut command = Command::new();
    let outcome = run(&input_buffer, &mut command);
    assert_eq!(
        outcome,
        RunOutcome::Output("This is where we would do a select.".to_string())
    );
}

#[test]
fn scenario_unknown_meta_command_is_diagnosed() {
    let input_buffer = buffer_with(".frobnicate");
    let mut command = Command::new();
    let outcome = run(&input_buffer, &mut command);
    assert_eq!(
        outcome,
        RunOutcome::Diagnostic("Unrecognized command: '.frobnicate'.".to_string())
    );
}

#[test]
fn scenario_blank_line_is_diagnosed() {
    let input_buffer = buffer_with("");
    let mut command = Command::new();
    let outcome = run(&input_buffer, &mut command);
    assert_eq!(outcome, RunOutcome::Diagnostic("Invalid input buffer.".to_string()));
}

#[test]
fn unread_buffer_is_diagnosed() {
    let input_buffer = InputBuffer::new();
    let mut command = Command::new();
    let outcome = run_command(&input_buffer, &mut command);
    assert_eq!(outcome, RunOutcome::Diagnostic("Input buffer is empty.".to_string()));
}

#[test]
fn unknown_query_is_diagnosed() {
    let input_buffer = buffer_with("update t set x = 1");
    let mut command = Command::new();
    let outcome = run_command(&input_buffer, &mut command);
    assert_eq!(
        outcome,
        RunOutcome::Diagnostic("Unrecognized query: 'update t set x = 1'.".to_string())
    );
}

#[test]
fn run_command_dispatches_insert_placeholder() {
    let input_buffer = buffer_with("insert into t values (1)");
    let mut command = Command::new();
    let outcome = run_command(&input_buffer, &mut command);
    assert_eq!(
        outcome,
        RunOutcome::Output("This is where we would do an insert.".to_string())
    );
}

#[test]
fn run_command_on_exit_line_terminates() {
    let input_buffer = buffer_with(".exit");
    let mut command = Command::new();
    let outcome = run_command(&input_buffer, &mut command);
    assert_eq!(outcome, RunOutcome::Terminate);
}
