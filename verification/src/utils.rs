//! Prompt and banner text.
//!
//! The program's name and version are configuration handed in by the host at
//! startup (read from package metadata by an external collaborator), and the
//! timestamp comes from the host's clock; this module only builds the exact
//! text to display.

use vstd::prelude::*;
use vstd::string::*;

verus! {

/// The interactive prompt for a program called `name`: the name followed by
/// ` > `, with no trailing newline.
pub fn prompt_text(name: &str) -> (r: String)
    ensures
        r@ == name@ + " > "@,
{
    name.to_owned().concat(" > ")
}

/// The startup banner: the headline with name, version and the current
/// time, followed by the fixed usage hints.
pub fn db_details(name: &str, version: &str, current_time: &str) -> (r: Vec<String>)
    ensures
        r@.len() == 5,
        r@[0]@ == name@ + " version "@ + version@ + " "@ + current_time@,
        r@[1]@ == "Enter \".help\" for usage hints."@,
        r@[2]@ == "Connected to a transient in-memory database."@,
        r@[3]@ == "Use \".open FILENAME\" to reopen on a persistent database."@,
        r@[4]@ == "Enter \".exit\" to exit the database."@,
{
    let headline = name.to_owned().concat(" version ").concat(version).concat(" ").concat(
        current_time,
    );
    let mut lines: Vec<String> = Vec::new();
    lines.push(headline);
    lines.push("Enter \".help\" for usage hints.".to_owned());
    lines.push("Connected to a transient in-memory database.".to_owned());
    lines.push("Use \".open FILENAME\" to reopen on a persistent database.".to_owned());
    lines.push("Enter \".exit\" to exit the database.".to_owned());
    lines
}

} // verus!
