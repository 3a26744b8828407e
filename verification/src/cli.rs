//! The commands of the program and what each of them asks for.

use vstd::prelude::*;
use vstd::string::*;

verus! {

/// The command line of the note taking utility.
#[derive(Debug, Clone, PartialEq, Eq)]
pub struct Cli {
    /// The sub command, if one was given.
    pub command: Option<Command>,
}

/// The note to edit.
#[derive(Debug, Clone, PartialEq, Eq)]
pub struct Edit {
    /// Title and name of the file.
    pub path: String,
}

/// The sub commands.
#[derive(Debug, Clone, PartialEq, Eq)]
pub enum Command {
    /// Edits a note.
    Edit(Edit),
    /// Opens the daily journal, for today or for the day given.
    Journal { date: Option<String> },
    /// Opens the todo file.
    Todo,
    /// Searches the content of the notes.
    Search { content: Option<String> },
    /// Searches the names of the files.
    Find { filename: Option<String> },
    /// Searches the full text of all the notes.
    Query { search: String },
    /// Syncs the notes with the configured command.
    Sync,
    /// Lists the notes below a path, down to a depth.
    List { path: Option<String>, max_depth: usize },
    /// Compiles the notes below a path to JSON, with or without the
    /// unreleased ones.
    Compile { path: String, drafts: bool },
    /// Utilities around the program itself.
    Utils { command: Utils },
}

/// The utilities around the program itself.
#[derive(Debug, Clone, PartialEq, Eq)]
pub enum Utils {
    /// Prints the completions for a shell.
    Completion { shell: Shell },
    /// Writes the manual pages into a directory.
    Manpages { out_dir: String },
}

/// The shells that completions can be printed for.
#[derive(Debug, Clone, Copy, PartialEq, Eq, Structural)]
pub enum Shell {
    Bash,
    Zsh,
    Fish,
}

/// What the program is to do.
#[derive(Debug, Clone, PartialEq, Eq)]
pub enum Task {
    /// Open the note at `path` in the editor.
    Note { path: String },
    /// Open the journal entry of `date`, or of today.
    Journal { date: Option<String> },
    /// Look for notes that hold `search` and open the one found.
    Grep { search: String },
    /// Look for notes named like `file` and open the one found.
    Find { file: String },
    /// Query the full text of the notes.
    Query { search: String },
    /// Run the sync command.
    Sync,
    /// List the notes.
    List { path: Option<String>, max_depth: usize },
    /// Compile the notes below `path` to JSON.
    Compile { path: String, skip_drafts: bool },
    /// Run a utility.
    Utils(Utils),
}

/// A text that may be absent, read as empty where it is.
pub open spec fn text_or_empty(text: Option<String>) -> Seq<char> {
    match text {
        Some(text) => text@,
        None => Seq::empty(),
    }
}

fn or_empty(text: Option<String>) -> (out: String)
    ensures
        out@ == text_or_empty(text),
{
    match text {
        Some(text) => text,
        None => String::new(),
    }
}

impl Task {
    /// Whether the task works from the settings of the program: every task
    /// does but a utility and the compiling of notes.
    pub fn needs_config(&self) -> (needed: bool)
        ensures
            needed == !(*self is Utils || *self is Compile),
    {
        match self {
            Task::Utils(_) => false,
            Task::Compile { .. } => false,
            _ => true,
        }
    }
}

impl Cli {
    /// What the command line asks for.
    ///
    /// Without a command the program opens the note `inbox`; the command
    /// `todo` opens the note `todo`; a search without a text looks for the
    /// empty text; compiling leaves the unreleased notes out unless they were
    /// asked for.
    pub fn task(self) -> (task: Task)
        ensures
            match self.command {
                None => task matches Task::Note { path } && path@ == "inbox"@,
                Some(Command::Todo) => task matches Task::Note { path } && path@ == "todo"@,
                Some(Command::Edit(edit)) => task == (Task::Note { path: edit.path }),
                Some(Command::Journal { date }) => task == (Task::Journal { date }),
                Some(Command::Search { content }) => task matches Task::Grep { search } && search@
                    == text_or_empty(content),
                Some(Command::Find { filename }) => task matches Task::Find { file } && file@
                    == text_or_empty(filename),
                Some(Command::Query { search }) => task == (Task::Query { search }),
                Some(Command::Sync) => task == Task::Sync,
                Some(Command::List { path, max_depth }) => task == (Task::List { path, max_depth }),
                Some(Command::Compile { path, drafts }) => task == (Task::Compile {
                    path,
                    skip_drafts: !drafts,
                }),
                Some(Command::Utils { command }) => task == Task::Utils(command),
            },
    {
        match self.command {
            None => Task::Note { path: String::from_str("inbox") },
            Some(Command::Todo) => Task::Note { path: String::from_str("todo") },
            Some(Command::Edit(edit)) => Task::Note { path: edit.path },
            Some(Command::Journal { date }) => Task::Journal { date },
            Some(Command::Search { content }) => Task::Grep { search: or_empty(content) },
            Some(Command::Find { filename }) => Task::Find { file: or_empty(filename) },
            Some(Command::Query { search }) => Task::Query { search },
            Some(Command::Sync) => Task::Sync,
            Some(Command::List { path, max_depth }) => Task::List { path, max_depth },
            Some(Command::Compile { path, drafts }) => Task::Compile { path, skip_drafts: !drafts },
            Some(Command::Utils { command }) => Task::Utils(command),
        }
    }
}

/// What `regex` gives when every match of `pattern` in `text` is replaced by
/// `replacement`, or `None` when `pattern` is no regular expression.
pub uninterp spec fn regex_replaced(
    pattern: Seq<char>,
    text: Seq<char>,
    replacement: Seq<char>,
) -> Option<Seq<char>>;

/// `regex::Regex::new` and then `Regex::replace_all`: the text with every
/// match replaced, a function of the three texts alone, named
/// `regex_replaced`; `None` when the pattern does not compile.
#[verifier::external_body]
fn replace_all(pattern: &str, text: &str, replacement: &str) -> (replaced: Option<String>)
    ensures
        match replaced {
            Some(out) => regex_replaced(pattern@, text@, replacement@) == Some(out@),
            None => regex_replaced(pattern@, text@, replacement@) is None,
        },
{
    let regex = regex::Regex::new(pattern).ok()?;
    Some(regex.replace_all(text, replacement).to_string())
}

impl Shell {
    /// The completions for a shell as the program prints them, given the
    /// completions as they were generated: for zsh, every completion of file
    /// names is pointed at the markdown files of the notes; for the other
    /// shells nothing changes.
    pub open spec fn patched(self, completion: Seq<char>) -> Option<Seq<char>> {
        if self is Zsh {
            regex_replaced(
                r#"(?m)^'(.*:_files)'"#@,
                completion,
                r#""$1 -W $$NOTE_PATH -g '*.md'""#@,
            )
        } else {
            Some(completion)
        }
    }

    /// Adapts generated completions to the notes.
    pub fn patch(&self, completion: String) -> (patched: Option<String>)
        ensures
            match patched {
                Some(out) => self.patched(completion@) == Some(out@),
                None => self.patched(completion@) is None,
            },
    {
        match self {
            Shell::Zsh => replace_all(
                r#"(?m)^'(.*:_files)'"#,
                completion.as_str(),
                r#""$1 -W $$NOTE_PATH -g '*.md'""#,
            ),
            _ => Some(completion),
        }
    }
}

} // verus!
