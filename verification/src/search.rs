//! Looking for a note with the commands that the user configured.
//!
//! The program runs the command in the user's shell, with the text to look
//! for in the variable `SEARCH`, and opens the note that the command prints.

use vstd::prelude::*;
use vstd::string::*;
use crate::config::Config;
use crate::edit::{blank, is_blank};

verus! {

/// A command to run: `shell -c command`, in the directory `directory`, with
/// the variable `SEARCH` set to `search`.
#[derive(Debug, Clone, PartialEq, Eq)]
pub struct Search {
    pub shell: String,
    pub directory: String,
    pub command: String,
    pub search: String,
}

fn prepare(config: &Config, command: &str, search: &str) -> (run: Search)
    ensures
        run.shell@ == config.shell@,
        run.directory@ == config.note_path@,
        run.command@ == command@,
        run.search@ == search@,
{
    Search {
        shell: config.shell.clone(),
        directory: config.note_path.clone(),
        command: String::from_str(command),
        search: String::from_str(search),
    }
}

/// The command that finds a note by the name of its file.
pub fn find_file(config: &Config, file: &str) -> (run: Search)
    ensures
        run.shell@ == config.shell@,
        run.directory@ == config.note_path@,
        run.command@ == config.find_command@,
        run.search@ == file@,
{
    prepare(config, config.find_command.as_str(), file)
}

/// The command that finds a note by what it holds.
pub fn grep_content(config: &Config, search: &str) -> (run: Search)
    ensures
        run.shell@ == config.shell@,
        run.directory@ == config.note_path@,
        run.command@ == config.search_command@,
        run.search@ == search@,
{
    prepare(config, config.search_command.as_str(), search)
}

/// The note to open after a search command printed `output`: none when it
/// printed nothing but white space, else the one that it printed.
pub fn chosen_note(output: String) -> (path: Option<String>)
    ensures
        match path {
            Some(path) => !is_blank(output@) && path == output,
            None => is_blank(output@),
        },
{
    if blank(output.as_str()) {
        None
    } else {
        Some(output)
    }
}

} // verus!
