//! Parsing a whole note: the metadata block, then the body.

use vstd::prelude::*;
use vstd::string::*;
use crate::content::{markdown_events, tokenize, MdEvent};
use crate::date::Date;
use crate::flatten::{content_text, flatten};
use crate::front_matter::{block_of_text, front_matter_parser};
use crate::language::Language;
use crate::metadata::{
    agrees, metadata_of, parse_front_matter, Flaw, FrontMatter, FrontMatterError, Metadata,
};

verus! {

/// Why a note was rejected.
#[derive(Debug, PartialEq)]
pub enum Error {
    /// The note does not start with a delimiter line, or no later delimiter
    /// line closes the metadata block.
    MissingFrontmatter,
    /// The metadata block is there and is not valid.
    FrontMatter(FrontMatterError),
}

/// What an `Error` says.
pub enum Failure {
    MissingFrontmatter,
    FrontMatter(Flaw),
}

impl View for Error {
    type V = Failure;

    open spec fn view(&self) -> Failure {
        match *self {
            Error::MissingFrontmatter => Failure::MissingFrontmatter,
            Error::FrontMatter(error) => Failure::FrontMatter(error@),
        }
    }
}

impl Failure {
    /// The sentence that reports the failure.
    pub open spec fn message(self) -> Seq<char> {
        match self {
            Failure::MissingFrontmatter => "missing or incomplete frontmatter"@,
            Failure::FrontMatter(flaw) => "couldn't parse front-mattter: "@ + flaw.message(),
        }
    }
}

impl Error {
    /// The sentence that reports the error.
    pub fn message(&self) -> (text: String)
        ensures
            text@ == self@.message(),
    {
        match self {
            Error::MissingFrontmatter => String::from_str("missing or incomplete frontmatter"),
            Error::FrontMatter(error) => {
                let mut text = String::from_str("couldn't parse front-mattter: ");
                text.append(error.message().as_str());
                text
            },
        }
    }
}

/// A parsed note: its metadata and the events of its body, in order.
#[derive(Debug, Clone, PartialEq, Eq)]
pub struct Markdown {
    pub title: String,
    pub description: String,
    /// The tags in the order of their first occurrence, each once.
    pub tags: Vec<String>,
    pub created: Date,
    pub updated: Option<Date>,
    pub released: bool,
    pub language: Option<Language>,
    pub content: Vec<MdEvent>,
}

/// A parsed note as plain values.
pub struct Document {
    pub metadata: Metadata,
    pub content: Seq<MdEvent>,
}

impl View for Markdown {
    type V = Document;

    open spec fn view(&self) -> Document {
        Document {
            metadata: Metadata {
                title: self.title@,
                description: self.description@,
                tags: crate::metadata::texts(self.tags@),
                created: self.created,
                updated: self.updated,
                released: self.released,
                language: self.language,
            },
            content: self.content@,
        }
    }
}

/// The metadata of a note and the text of its body, or why there is none.
pub open spec fn front_matter_of(text: Seq<char>) -> Result<(Metadata, Seq<char>), Failure> {
    match block_of_text(text) {
        None => Err(Failure::MissingFrontmatter),
        Some((yaml, rest)) => match metadata_of(yaml) {
            Err(flaw) => Err(Failure::FrontMatter(flaw)),
            Ok(metadata) => Ok((metadata, rest)),
        },
    }
}

/// The note written in `text`, or why there is none.
pub open spec fn document_of(text: Seq<char>) -> Result<Document, Failure> {
    match front_matter_of(text) {
        Err(failure) => Err(failure),
        Ok((metadata, rest)) => Ok(Document { metadata, content: markdown_events(rest) }),
    }
}

/// Reads the metadata block of a note and hands back the validated metadata
/// with the text that follows the block.
///
/// Fails with `MissingFrontmatter` when the note has no metadata block, and
/// with `FrontMatter` and the flaw found when the block is not valid.
pub fn front_matter(markdown: &str) -> (found: Result<(FrontMatter, &str), Error>)
    ensures
        match found {
            Ok((metadata, rest)) => front_matter_of(markdown@) == Ok::<
                (Metadata, Seq<char>),
                Failure,
            >((metadata@, rest@)) && metadata.well_formed(),
            Err(error) => front_matter_of(markdown@) == Err::<(Metadata, Seq<char>), Failure>(
                error@,
            ),
        },
{
    match front_matter_parser(markdown) {
        None => Err(Error::MissingFrontmatter),
        Some((rest, yaml)) => match parse_front_matter(yaml) {
            Err(error) => Err(Error::FrontMatter(error)),
            Ok(metadata) => Ok((metadata, rest)),
        },
    }
}

impl Markdown {
    /// No tag occurs twice, and the dates are calendar dates.
    pub open spec fn well_formed(self) -> bool {
        &&& self@.metadata.well_formed()
        &&& self.created.well_formed()
        &&& self.updated matches Some(date) ==> date.well_formed()
    }

    /// The plain text of the body, for indexing: what each event contributes,
    /// in the order of the events.
    pub fn content_into_string(&self) -> (out: String)
        ensures
            out@ == flatten(self.content@),
    {
        content_text(&self.content)
    }
}

/// Parses a note: its metadata block and, after it, its body.
///
/// Fails with `MissingFrontmatter` when the note has no metadata block, and
/// with `FrontMatter` and the first flaw found when the block is not valid.
/// Nothing of the body can make it fail.
pub fn parse(markdown: &str) -> (parsed: Result<Markdown, Error>)
    ensures
        agrees(parsed, document_of(markdown@)),
        parsed matches Ok(note) ==> note.well_formed(),
{
    let (metadata, rest) = match front_matter(markdown) {
        Err(error) => {
            return Err(error);
        },
        Ok(found) => found,
    };
    let FrontMatter { title, description, tags, created, updated, released, language } = metadata;
    Ok(
        Markdown {
            title,
            description,
            tags,
            created,
            updated,
            released,
            language,
            content: tokenize(rest),
        },
    )
}

} // verus!
