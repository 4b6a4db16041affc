use sqldb::sql::parser::{execute_command, parse_command, Command, CommandError, Execution};
use sqldb::sql::tokenizer::InputBuffer;

fn classified(line: &str) -> Command {
    let input_buffer = InputBuffer {
        buffer: Some(line.to_string()),
        buffer_length: line.chars().count(),
    };
    let mut command = Command::new();
    parse_command(&input_buffer, &mut command).expect("the line should classify");
    command
}

#[test]
fn exit_dispatches_to_terminate() {
    let command = classified(".exit");
    assert_eq!(execute_command(&command), Ok(Execution::Terminate));
}

#[test]
fn help_dispatches_to_usage_output() {
    let command = classified(".help");
    assert_eq!(
        execute_command(&command),
        Ok(Execution::Output(".help command executed.".to_string()))
    );
}

#[test]
fn insert_dispatches_to_placeholder_output() {
    let command = classified("insert into t values (1)");
    assert_eq!(
        execute_command(&command),
        Ok(Execution::Output("This is where we would do an insert.".to_string()))
    );
}

#[test]
fn select_dispatches_to_placeholder_output() {
    let command = classified("select * from t");
    assert_eq!(
        execute_command(&command),
        Ok(Execution::Output("This is where we would do a select.".to_string()))
    );
}

#[test]
fn empty_slot_is_rejected_defensively() {
    let command = Command::new();
    assert_eq!(
        execute_command(&command),
        Err(CommandError::UnrecognizedQuery("Unrecognized command".to_string()))
    );
}

#[test]
fn error_messages_are_descriptive() {
    assert_eq!(CommandError::EmptyBuffer.message(), "Input buffer is empty.");
    assert_eq!(CommandError::InvalidBuffer.message(), "Invalid input buffer.");
    assert_eq!(
        CommandError::UnrecognizedMetaCommand(".frobnicate".to_string()).message(),
        "Unrecognized meta command: '.frobnicate'."
    );
    assert_eq!(
        CommandError::UnrecognizedQuery("update t".to_string()).message(),
        "Unrecognized query: 'update t'."
    );
}
