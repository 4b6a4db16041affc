//! Classification and dispatch of shell commands.
//!
//! A buffered line is classified as either a meta-command (a shell directive
//! behind the `.` sentinel, matched exactly) or a query command (recognized by
//! its keyword prefix), or it is rejected with a specific error. Dispatching a
//! classified command never performs process-level side effects itself: it
//! returns what the host should do — print a line, print a diagnostic, or
//! terminate with success — so the host loop owns the decision to stop.

use crate::sql::tokenizer::{spec_has_prefix, str_eq, str_has_prefix, InputBuffer};
use vstd::prelude::*;
use vstd::string::*;

verus! {

/// The recognized meta-commands: shell directives behind the `.` sentinel.
#[derive(Clone, Copy, Debug, PartialEq, Eq, Structural)]
pub enum MetaCommand {
    /// Leave the shell.
    Exit,
    /// Display help information.
    Help,
}

/// The recognized query command families.
#[derive(Clone, Copy, Debug, PartialEq, Eq, Structural)]
pub enum Query {
    /// An insert statement.
    Insert,
    /// A select statement.
    Select,
}

/// A classified command: one of the two disjoint command families.
#[derive(Clone, Copy, Debug, PartialEq, Eq, Structural)]
pub enum CommandType {
    /// A shell directive.
    MetaCommand(MetaCommand),
    /// A data query.
    Query(Query),
}

/// The ways classification of a buffered line can fail. The unrecognized
/// variants carry the offending text for diagnostics.
#[derive(Debug, PartialEq, Eq)]
pub enum CommandError {
    /// No line was ever read into the buffer.
    EmptyBuffer,
    /// A line was read but it is the empty string.
    InvalidBuffer,
    /// The line starts with the sentinel but matches no known directive.
    UnrecognizedMetaCommand(String),
    /// The line starts with no known query keyword.
    UnrecognizedQuery(String),
}

/// What dispatching a classified command asks of the host.
#[derive(Debug, PartialEq, Eq)]
pub enum Execution {
    /// Terminate the process with success status.
    Terminate,
    /// Print this line on standard output.
    Output(String),
}

/// The outcome of running one buffered line through classification and
/// dispatch.
#[derive(Debug, PartialEq, Eq)]
pub enum RunOutcome {
    /// Print this line on standard output and continue.
    Output(String),
    /// Print this line on the error stream and continue.
    Diagnostic(String),
    /// Terminate the process with success status.
    Terminate,
}

/// The abstract outcome of classifying a buffered line.
pub enum Classification {
    /// No line was ever read.
    Empty,
    /// The line is the empty string.
    Invalid,
    /// A recognized meta-command.
    Meta(MetaCommand),
    /// A recognized query command.
    Query(Query),
    /// A sentinel line that matches no known directive.
    UnknownMeta,
    /// A line that starts with no known query keyword.
    UnknownQuery,
}

/// The meta-command denoted by `line`, if any: the lookup is an exact match
/// against the closed set of recognized literals.
pub open spec fn spec_meta_command(line: Seq<char>) -> Option<MetaCommand> {
    if line == ".exit"@ {
        Some(MetaCommand::Exit)
    } else if line == ".help"@ {
        Some(MetaCommand::Help)
    } else {
        None
    }
}

/// The characters of the buffered line, if one was ever stored.
pub open spec fn spec_line(buffer: Option<String>) -> Option<Seq<char>> {
    match buffer {
        None => None,
        Some(content) => Some(content@),
    }
}

/// How a buffered line classifies. This is the reference meaning of
/// classification: first the buffer checks, then the sentinel family by
/// exact lookup, then the query family by keyword prefix.
pub open spec fn spec_classify(buffer: Option<Seq<char>>) -> Classification {
    match buffer {
        None => Classification::Empty,
        Some(line) => {
            if line.len() == 0 {
                Classification::Invalid
            } else if line[0] == '.' {
                match spec_meta_command(line) {
                    Some(meta) => Classification::Meta(meta),
                    None => Classification::UnknownMeta,
                }
            } else if spec_has_prefix(line, "select"@) {
                Classification::Query(Query::Select)
            } else if spec_has_prefix(line, "insert"@) {
                Classification::Query(Query::Insert)
            } else {
                Classification::UnknownQuery
            }
        },
    }
}

/// The slot that holds at most one classified command, reused by the host
/// across loop iterations.
pub struct Command {
    variant: Option<CommandType>,
}

impl Command {
    /// The command currently held in the slot, if any.
    pub closed spec fn spec_variant(self) -> Option<CommandType> {
        self.variant
    }

    /// Creates an empty slot: no command has been classified yet.
    pub fn new() -> (r: Self)
        ensures
            r.spec_variant() is None,
    {
        Self::default()
    }

    /// The command currently held in the slot, if any.
    pub fn variant(&self) -> (r: Option<CommandType>)
        ensures
            r == self.spec_variant(),
    {
        self.variant
    }
}

impl Default for Command {
    /// An empty slot, the same as `Command::new`.
    fn default() -> (r: Self)
        ensures
            r.spec_variant() is None,
    {
        Command { variant: None }
    }
}

/// Looks a full sentinel line up in the closed set of recognized
/// meta-command literals.
pub fn parse_meta_command(buffer_content: &str) -> (r: Option<MetaCommand>)
    ensures
        r == spec_meta_command(buffer_content@),
{
    if str_eq(buffer_content, ".exit") {
        Some(MetaCommand::Exit)
    } else if str_eq(buffer_content, ".help") {
        Some(MetaCommand::Help)
    } else {
        None
    }
}

/// What `parse_command` guarantees: the result and the state of the command
/// slot, determined by how the buffered line classifies. A failed
/// classification leaves the slot untouched.
pub open spec fn parse_command_post(
    buffer: Option<String>,
    before: Command,
    after: Command,
    result: Result<(), CommandError>,
) -> bool {
    match spec_classify(spec_line(buffer)) {
        Classification::Empty => after == before && result matches Err(
            CommandError::EmptyBuffer,
        ),
        Classification::Invalid => after == before && result matches Err(
            CommandError::InvalidBuffer,
        ),
        Classification::Meta(meta) => result is Ok && after.spec_variant() == Some(
            CommandType::MetaCommand(meta),
        ),
        Classification::Query(query) => result is Ok && after.spec_variant() == Some(
            CommandType::Query(query),
        ),
        Classification::UnknownMeta => after == before && (result matches Err(
            CommandError::UnrecognizedMetaCommand(text),
        ) && Some(text@) == spec_line(buffer)),
        Classification::UnknownQuery => after == before && (result matches Err(
            CommandError::UnrecognizedQuery(text),
        ) && Some(text@) == spec_line(buffer)),
    }
}

/// Classifies the buffered line and, on success, stores the classified
/// command in the slot. On failure the slot keeps its prior value and the
/// error carries the offending text.
pub fn parse_command(input_buffer: &InputBuffer, command: &mut Command) -> (result: Result<
    (),
    CommandError,
>)
    ensures
        parse_command_post(input_buffer.buffer, *old(command), *final(command), result),
{
    let buffer_content: &String = match &input_buffer.buffer {
        Some(content) => content,
        None => {
            return Err(CommandError::EmptyBuffer);
        },
    };

    if buffer_content.as_str().unicode_len() == 0 {
        return Err(CommandError::InvalidBuffer);
    }

    if buffer_content.as_str().get_char(0) == '.' {
        if let Some(meta_command) = parse_meta_command(buffer_content.as_str()) {
            command.variant = Some(CommandType::MetaCommand(meta_command));
            Ok(())
        } else {
            Err(CommandError::UnrecognizedMetaCommand(buffer_content.clone()))
        }
    } else if str_has_prefix(buffer_content.as_str(), "select") {
        command.variant = Some(CommandType::Query(Query::Select));
        Ok(())
    } else if str_has_prefix(buffer_content.as_str(), "insert") {
        command.variant = Some(CommandType::Query(Query::Insert));
        Ok(())
    } else {
        Err(CommandError::UnrecognizedQuery(buffer_content.clone()))
    }
}

/// What `execute_command` guarantees for each possible slot content: the
/// empty slot is a defensive error, every held command maps to its fixed
/// instruction for the host.
pub open spec fn execute_command_post(command: Command, result: Result<
    Execution,
    CommandError,
>) -> bool {
    match command.spec_variant() {
        Some(CommandType::MetaCommand(MetaCommand::Exit)) => result matches Ok(
            Execution::Terminate,
        ),
        Some(CommandType::MetaCommand(MetaCommand::Help)) => result matches Ok(
            Execution::Output(text),
        ) && text@ == ".help command executed."@,
        Some(CommandType::Query(Query::Insert)) => result matches Ok(Execution::Output(text))
            && text@ == "This is where we would do an insert."@,
        Some(CommandType::Query(Query::Select)) => result matches Ok(Execution::Output(text))
            && text@ == "This is where we would do a select."@,
        None => result matches Err(CommandError::UnrecognizedQuery(text)) && text@
            == "Unrecognized command"@,
    }
}

/// Dispatches the command held in the slot. The exit directive asks the host
/// to terminate with success; the others produce their acknowledgment line.
/// An empty slot is rejected — unreachable after a successful
/// classification, but handled rather than assumed.
pub fn execute_command(command: &Command) -> (result: Result<Execution, CommandError>)
    ensures
        execute_command_post(*command, result),
{
    match &command.variant {
        Some(CommandType::MetaCommand(meta_command)) => match meta_command {
            MetaCommand::Exit => Ok(Execution::Terminate),
            MetaCommand::Help => Ok(Execution::Output(".help command executed.".to_owned())),
        },
        Some(CommandType::Query(query)) => match query {
            Query::Insert => Ok(
                Execution::Output("This is where we would do an insert.".to_owned()),
            ),
            Query::Select => Ok(
                Execution::Output("This is where we would do a select.".to_owned()),
            ),
        },
        None => Err(CommandError::UnrecognizedQuery("Unrecognized command".to_owned())),
    }
}

/// The diagnostic for a sentinel line that matches no known directive.
pub open spec fn spec_unrecognized_command_diag(line: Seq<char>) -> Seq<char> {
    "Unrecognized command: '"@ + line + "'."@
}

/// The diagnostic for a line that starts with no known query keyword.
pub open spec fn spec_unrecognized_query_diag(line: Seq<char>) -> Seq<char> {
    "Unrecognized query: '"@ + line + "'."@
}

/// What `run_command` guarantees: the outcome handed to the host and the
/// state of the command slot, for every way the buffered line can classify.
pub open spec fn run_command_post(
    buffer: Option<String>,
    before: Command,
    after: Command,
    outcome: RunOutcome,
) -> bool {
    match buffer {
        None => after == before && (outcome matches RunOutcome::Diagnostic(diag) && diag@
            == "Input buffer is empty."@),
        Some(content) => {
            let line = content@;
            match spec_classify(Some(line)) {
                Classification::Empty => false,
                Classification::Invalid => after == before && (outcome matches
                    RunOutcome::Diagnostic(diag) && diag@ == "Invalid input buffer."@),
                Classification::Meta(MetaCommand::Exit) => after.spec_variant() == Some(
                    CommandType::MetaCommand(MetaCommand::Exit),
                ) && outcome is Terminate,
                Classification::Meta(MetaCommand::Help) => after.spec_variant() == Some(
                    CommandType::MetaCommand(MetaCommand::Help),
                ) && (outcome matches RunOutcome::Output(text) && text@
                    == ".help command executed."@),
                Classification::Query(Query::Insert) => after.spec_variant() == Some(
                    CommandType::Query(Query::Insert),
                ) && (outcome matches RunOutcome::Output(text) && text@
                    == "This is where we would do an insert."@),
                Classification::Query(Query::Select) => after.spec_variant() == Some(
                    CommandType::Query(Query::Select),
                ) && (outcome matches RunOutcome::Output(text) && text@
                    == "This is where we would do a select."@),
                Classification::UnknownMeta => after == before && (outcome matches
                    RunOutcome::Diagnostic(diag) && diag@ == spec_unrecognized_command_diag(line)),
                Classification::UnknownQuery => after == before && (outcome matches
                    RunOutcome::Diagnostic(diag) && diag@ == spec_unrecognized_query_diag(line)),
            }
        },
    }
}

/// Runs one buffered line: classifies it, dispatches it on success, and
/// converts every failure into a diagnostic for the error stream, so that
/// nothing unwinds past this function and the host loop can continue.
pub fn run_command(input_buffer: &InputBuffer, command: &mut Command) -> (outcome: RunOutcome)
    ensures
        run_command_post(input_buffer.buffer, *old(command), *final(command), outcome),
{
    match parse_command(input_buffer, command) {
        Ok(()) => match execute_command(command) {
            Ok(Execution::Terminate) => RunOutcome::Terminate,
            Ok(Execution::Output(text)) => RunOutcome::Output(text),
            Err(err) => RunOutcome::Diagnostic(
                "Error executing command: ".to_owned().concat(err.message().as_str()),
            ),
        },
        Err(err) => match err {
            CommandError::EmptyBuffer => RunOutcome::Diagnostic(
                "Input buffer is empty.".to_owned(),
            ),
            CommandError::InvalidBuffer => RunOutcome::Diagnostic(
                "Invalid input buffer.".to_owned(),
            ),
            CommandError::UnrecognizedMetaCommand(cmd) => RunOutcome::Diagnostic(
                "Unrecognized command: '".to_owned().concat(cmd.as_str()).concat("'."),
            ),
            CommandError::UnrecognizedQuery(query) => RunOutcome::Diagnostic(
                "Unrecognized query: '".to_owned().concat(query.as_str()).concat("'."),
            ),
        },
    }
}

impl CommandError {
    /// The descriptive message for this error.
    pub open spec fn spec_message(self) -> Seq<char> {
        match self {
            CommandError::EmptyBuffer => "Input buffer is empty."@,
            CommandError::InvalidBuffer => "Invalid input buffer."@,
            CommandError::UnrecognizedMetaCommand(cmd) => "Unrecognized meta command: '"@ + cmd@
                + "'."@,
            CommandError::UnrecognizedQuery(query) => "Unrecognized query: '"@ + query@ + "'."@,
        }
    }

    /// Renders the descriptive message for this error.
    pub fn message(&self) -> (r: String)
        ensures
            r@ == self.spec_message(),
    {
        match self {
            CommandError::EmptyBuffer => "Input buffer is empty.".to_owned(),
            CommandError::InvalidBuffer => "Invalid input buffer.".to_owned(),
            CommandError::UnrecognizedMetaCommand(cmd) => "Unrecognized meta command: '".to_owned()
                .concat(cmd.as_str()).concat("'."),
            CommandError::UnrecognizedQuery(query) => "Unrecognized query: '".to_owned().concat(
                query.as_str(),
            ).concat("'."),
        }
    }
}

/// Law: every recognized meta-command literal classifies as its
/// meta-command, and every other line behind the sentinel is an
/// unrecognized meta-command — never a query and never accepted.
pub proof fn lemma_meta_classification(line: Seq<char>)
    requires
        line.len() > 0,
        line[0] == '.',
    ensures
        line == ".exit"@ ==> spec_classify(Some(line)) == Classification::Meta(MetaCommand::Exit),
        line == ".help"@ ==> spec_classify(Some(line)) == Classification::Meta(MetaCommand::Help),
        line != ".exit"@ && line != ".help"@ ==> spec_classify(Some(line))
            == Classification::UnknownMeta,
{
    reveal_strlit(".exit");
    reveal_strlit(".help");
    assert(".exit"@ != ".help"@) by {
        if ".exit"@ == ".help"@ {
            assert(".exit"@[1] == ".help"@[1]);
        }
    }
}

/// Law: every line that starts with `select` classifies as the select
/// query, and every line that starts with `insert` as the insert query,
/// whatever follows the keyword.
pub proof fn lemma_query_classification(line: Seq<char>)
    ensures
        spec_has_prefix(line, "select"@) ==> spec_classify(Some(line)) == Classification::Query(
            Query::Select,
        ),
        spec_has_prefix(line, "insert"@) ==> spec_classify(Some(line)) == Classification::Query(
            Query::Insert,
        ),
{
    reveal_strlit("select");
    reveal_strlit("insert");
    if spec_has_prefix(line, "select"@) {
        assert(line[0] == 's') by {
            assert(line.subrange(0, "select"@.len() as int)[0] == 's');
        }
    }
    if spec_has_prefix(line, "insert"@) {
        assert(line[0] == 'i') by {
            assert(line.subrange(0, "insert"@.len() as int)[0] == 'i');
        }
        assert(!spec_has_prefix(line, "select"@)) by {
            if spec_has_prefix(line, "select"@) {
                assert(line.subrange(0, "select"@.len() as int)[0] == 's');
            }
        }
    }
}

/// Law: classification is idempotent — two buffers holding the same
/// characters classify the same way, so classifying the same line twice
/// yields the same command kind or the same error both times.
pub proof fn lemma_classify_idempotent(first: Option<String>, second: Option<String>)
    requires
        spec_line(first) == spec_line(second),
    ensures
        spec_classify(spec_line(first)) == spec_classify(spec_line(second)),
{
}

} // verus!
