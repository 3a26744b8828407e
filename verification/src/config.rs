//! The settings of the program.
//!
//! A setting that the configuration file leaves out is taken from the
//! environment; where neither has it, the setting is missing.

use vstd::prelude::*;
use vstd::string::*;

verus! {

/// The settings as the configuration file gives them.
#[derive(Debug, Clone, PartialEq, Eq)]
pub struct ConfigFile {
    pub shell: Option<String>,
    pub editor: Option<String>,
    pub change_dir: bool,
    pub note_path: Option<String>,
    pub sync_command: String,
    pub find_command: String,
    pub search_command: String,
}

impl Default for ConfigFile {
    /// Nothing is set, and the editor is to be started in the directory of
    /// the notes.
    fn default() -> (file: Self)
        ensures
            file.shell is None,
            file.editor is None,
            file.change_dir,
            file.note_path is None,
            file.sync_command@.len() == 0,
            file.find_command@.len() == 0,
            file.search_command@.len() == 0,
    {
        Self {
            shell: None,
            editor: None,
            change_dir: true,
            note_path: None,
            sync_command: String::new(),
            find_command: String::new(),
            search_command: String::new(),
        }
    }
}

/// The variables of the environment that stand in for settings.
#[derive(Debug, Clone, PartialEq, Eq)]
pub struct Environment {
    /// `SHELL`
    pub shell: Option<String>,
    /// `EDITOR`
    pub editor: Option<String>,
    /// `NOTE_PATH`
    pub note_path: Option<String>,
}

/// A setting that neither the configuration file nor the environment has.
#[derive(Debug, Clone, Copy, PartialEq, Eq, Structural)]
pub enum Missing {
    Shell,
    Editor,
    NotePath,
}

/// The settings that the program works with.
#[derive(Debug, Clone, PartialEq, Eq)]
pub struct Config {
    pub shell: String,
    pub editor: String,
    pub change_dir: bool,
    pub note_path: String,
    pub sync_command: String,
    pub find_command: String,
    pub search_command: String,
}

impl Default for Config {
    /// Every text is empty and the flag is off.
    fn default() -> (config: Self)
        ensures
            config.shell@.len() == 0,
            config.editor@.len() == 0,
            !config.change_dir,
            config.note_path@.len() == 0,
            config.sync_command@.len() == 0,
            config.find_command@.len() == 0,
            config.search_command@.len() == 0,
    {
        Self {
            shell: String::new(),
            editor: String::new(),
            change_dir: false,
            note_path: String::new(),
            sync_command: String::new(),
            find_command: String::new(),
            search_command: String::new(),
        }
    }
}

/// The value of a setting: that of the file, else that of the environment.
pub open spec fn setting(file: Option<String>, environment: Option<String>) -> Option<Seq<char>> {
    match file {
        Some(value) => Some(value@),
        None => match environment {
            Some(value) => Some(value@),
            None => None,
        },
    }
}

/// The first setting that is missing, in the order shell, editor, path of
/// the notes.
pub open spec fn first_missing(file: ConfigFile, environment: Environment) -> Option<Missing> {
    if setting(file.shell, environment.shell) is None {
        Some(Missing::Shell)
    } else if setting(file.editor, environment.editor) is None {
        Some(Missing::Editor)
    } else if setting(file.note_path, environment.note_path) is None {
        Some(Missing::NotePath)
    } else {
        None
    }
}

fn choose_setting(file: Option<String>, environment: Option<String>) -> (chosen: Option<String>)
    ensures
        match chosen {
            Some(value) => setting(file, environment) == Some(value@),
            None => setting(file, environment) is None,
        },
{
    match file {
        Some(value) => Some(value),
        None => environment,
    }
}

impl Config {
    /// Completes the settings of the configuration file from the environment.
    ///
    /// Fails with the first setting, in the order shell, editor, path of the
    /// notes, that neither of them has.
    pub fn read(file: ConfigFile, environment: Environment) -> (config: Result<Config, Missing>)
        ensures
            match config {
                Ok(config) => {
                    &&& first_missing(file, environment) is None
                    &&& setting(file.shell, environment.shell) == Some(config.shell@)
                    &&& setting(file.editor, environment.editor) == Some(config.editor@)
                    &&& setting(file.note_path, environment.note_path) == Some(config.note_path@)
                    &&& config.change_dir == file.change_dir
                    &&& config.sync_command == file.sync_command
                    &&& config.find_command == file.find_command
                    &&& config.search_command == file.search_command
                },
                Err(missing) => first_missing(file, environment) == Some(missing),
            },
    {
        let shell = match choose_setting(file.shell, environment.shell) {
            Some(shell) => shell,
            None => {
                return Err(Missing::Shell);
            },
        };
        let editor = match choose_setting(file.editor, environment.editor) {
            Some(editor) => editor,
            None => {
                return Err(Missing::Editor);
            },
        };
        let note_path = match choose_setting(file.note_path, environment.note_path) {
            Some(note_path) => note_path,
            None => {
                return Err(Missing::NotePath);
            },
        };
        Ok(
            Config {
                shell,
                editor,
                note_path,
                change_dir: file.change_dir,
                sync_command: file.sync_command,
                find_command: file.find_command,
                search_command: file.search_command,
            },
        )
    }
}

} // verus!
