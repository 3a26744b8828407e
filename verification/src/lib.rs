//! Notes with a metadata header.
//!
//! A note is a text that starts with a block of YAML between two lines of
//! `---` and goes on in Markdown. [`parse`] reads a note into a [`Markdown`]:
//! the validated metadata and the events of the body, in order.
//! [`Markdown::content_into_string`] projects the body onto plain text for
//! indexing.
//!
//! Around that core stand the decisions of the `note` program, free of any
//! input or output: which task a command line asks for, how the settings are
//! completed from the environment, where a note is kept, in which order notes
//! are published and listed.

pub mod cli;
pub mod compile;
pub mod config;
pub mod content;
pub mod date;
pub mod edit;
pub mod flatten;
pub mod front_matter;
pub mod language;
pub mod laws;
pub mod list;
pub mod metadata;
pub mod parser;
pub mod search;
pub mod text;
pub mod yaml;

pub use crate::parser::{parse, Error, Markdown};
