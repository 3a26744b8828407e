//! The languages a note can declare.

use vstd::prelude::*;
use vstd::string::*;
use crate::text::str_eq;

verus! {

/// The closed vocabulary of note languages.
#[derive(Debug, Clone, Copy, PartialEq, Eq, Structural, PartialOrd, Ord)]
pub enum Language {
    Eng,
    It,
}

/// A language token outside the vocabulary.
#[derive(Debug, Clone, PartialEq, Eq)]
pub struct LanguageError(pub String);

impl View for LanguageError {
    type V = Seq<char>;

    /// The rejected token.
    open spec fn view(&self) -> Seq<char> {
        self.0@
    }
}

impl LanguageError {
    /// The rejected token.
    pub fn token(&self) -> (token: &str)
        ensures
            token@ == self@,
    {
        self.0.as_str()
    }

    /// A sentence that names the rejected token.
    pub fn message(&self) -> (text: String)
        ensures
            text@ == "invalid language "@ + self@,
    {
        let mut text = String::from_str("invalid language ");
        text.append(self.0.as_str());
        text
    }
}

impl Language {
    /// The language that a token stands for: `en` for English, `it` for Italian.
    pub open spec fn of_token(token: Seq<char>) -> Option<Language> {
        if token == "en"@ {
            Some(Language::Eng)
        } else if token == "it"@ {
            Some(Language::It)
        } else {
            None
        }
    }

    /// Reads a language token; any token outside the vocabulary is handed back
    /// in the error.
    pub fn from_str(s: &str) -> (language: Result<Language, LanguageError>)
        ensures
            match language {
                Ok(l) => Language::of_token(s@) == Some(l),
                Err(e) => Language::of_token(s@) is None && e@ == s@,
            },
    {
        if str_eq(s, "en") {
            Ok(Language::Eng)
        } else if str_eq(s, "it") {
            Ok(Language::It)
        } else {
            Err(LanguageError(String::from_str(s)))
        }
    }
}

} // verus!
