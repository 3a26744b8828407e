//! Validating the metadata block of a note.
//!
//! The block is YAML. Its first document must be a mapping; the fields are
//! read from it by key, in a fixed order, and the first violation found is the
//! one reported.

use vstd::prelude::*;
use vstd::string::*;
use yaml_rust2::ScanError;
use crate::date::{date_of, parse_date, Date};
use crate::language::{Language, LanguageError};
use crate::text::str_eq;
use crate::yaml::{get, load_documents, lookup, yaml_documents, Value};

verus! {

/// Why a metadata block was rejected.
#[derive(Debug, PartialEq)]
pub enum FrontMatterError {
    /// The block is not well-formed YAML.
    Yaml(ScanError),
    /// A second document follows the first and is not null.
    MultipleDoc,
    /// The block holds no document at all.
    Empty,
    /// The document is not a mapping.
    NotAMap,
    /// A required field is absent.
    FieldMissing(&'static str),
    /// A field holds a value of the wrong type.
    FieldType { name: &'static str, expected: &'static str },
    /// The language is not one of the vocabulary.
    Language(LanguageError),
    /// A date field does not hold a date.
    Date { name: &'static str, backtrace: chrono::ParseError },
}

/// What a `FrontMatterError` says, without the causes handed on from the
/// YAML scanner and the date parser.
pub enum Flaw {
    Yaml,
    MultipleDoc,
    Empty,
    NotAMap,
    FieldMissing(Seq<char>),
    FieldType { name: Seq<char>, expected: Seq<char> },
    Language(Seq<char>),
    Date { name: Seq<char> },
}

impl View for FrontMatterError {
    type V = Flaw;

    open spec fn view(&self) -> Flaw {
        match *self {
            FrontMatterError::Yaml(_) => Flaw::Yaml,
            FrontMatterError::MultipleDoc => Flaw::MultipleDoc,
            FrontMatterError::Empty => Flaw::Empty,
            FrontMatterError::NotAMap => Flaw::NotAMap,
            FrontMatterError::FieldMissing(name) => Flaw::FieldMissing(name@),
            FrontMatterError::FieldType { name, expected } => Flaw::FieldType {
                name: name@,
                expected: expected@,
            },
            FrontMatterError::Language(error) => Flaw::Language(error@),
            FrontMatterError::Date { name, backtrace: _ } => Flaw::Date { name: name@ },
        }
    }
}

/// The validated metadata of a note.
#[derive(Debug, Clone, PartialEq, Eq)]
pub struct FrontMatter {
    pub title: String,
    pub description: String,
    /// The tags in the order of their first occurrence, each once.
    pub tags: Vec<String>,
    pub created: Date,
    pub updated: Option<Date>,
    pub released: bool,
    pub language: Option<Language>,
}

/// The metadata of a note as plain values.
pub struct Metadata {
    pub title: Seq<char>,
    pub description: Seq<char>,
    pub tags: Seq<Seq<char>>,
    pub created: Date,
    pub updated: Option<Date>,
    pub released: bool,
    pub language: Option<Language>,
}

/// The texts of a list of strings.
pub open spec fn texts(strings: Seq<String>) -> Seq<Seq<char>> {
    Seq::new(strings.len(), |i: int| strings[i]@)
}

impl View for FrontMatter {
    type V = Metadata;

    open spec fn view(&self) -> Metadata {
        Metadata {
            title: self.title@,
            description: self.description@,
            tags: texts(self.tags@),
            created: self.created,
            updated: self.updated,
            released: self.released,
            language: self.language,
        }
    }
}

impl Metadata {
    /// No tag occurs twice.
    pub open spec fn well_formed(self) -> bool {
        self.tags.no_duplicates()
    }

    /// The tags as a set: the order in which they are kept says nothing.
    pub open spec fn tag_set(self) -> Set<Seq<char>> {
        self.tags.to_set()
    }
}

/// The items of `items` without repetitions: each item stays where it first
/// occurs.
pub open spec fn distinct(items: Seq<Seq<char>>) -> Seq<Seq<char>>
    decreases items.len(),
{
    if items.len() == 0 {
        Seq::empty()
    } else {
        let before = distinct(items.drop_last());
        if before.contains(items.last()) {
            before
        } else {
            before.push(items.last())
        }
    }
}

/// `distinct` keeps exactly the items of its argument, each once.
pub proof fn lemma_distinct(items: Seq<Seq<char>>)
    ensures
        distinct(items).no_duplicates(),
        forall|tag: Seq<char>| distinct(items).contains(tag) <==> items.contains(tag),
        distinct(items).to_set() == items.to_set(),
        distinct(items).len() <= items.len(),
    decreases items.len(),
{
    lemma_distinct_members(items);
    assert(distinct(items).to_set() =~= items.to_set());
}

proof fn lemma_distinct_members(items: Seq<Seq<char>>)
    ensures
        distinct(items).no_duplicates(),
        forall|tag: Seq<char>| distinct(items).contains(tag) <==> items.contains(tag),
        distinct(items).len() <= items.len(),
    decreases items.len(),
{
    if items.len() > 0 {
        let front = items.drop_last();
        let last = items.last();
        let before = distinct(front);
        let all = distinct(items);
        lemma_distinct_members(front);
        assert forall|tag: Seq<char>| all.contains(tag) <==> items.contains(tag) by {
            if items.contains(tag) {
                let i = choose|i: int| 0 <= i < items.len() && items[i] == tag;
                if i < items.len() - 1 {
                    assert(front[i] == tag);
                    assert(front.contains(tag));
                    assert(before.contains(tag));
                }
                if before.contains(tag) {
                    let j = choose|j: int| 0 <= j < before.len() && before[j] == tag;
                    assert(all[j] == tag);
                } else {
                    assert(tag == last);
                    assert(all[before.len() as int] == tag);
                }
                assert(all.contains(tag));
            }
            if all.contains(tag) {
                let j = choose|j: int| 0 <= j < all.len() && all[j] == tag;
                if j < before.len() {
                    assert(before[j] == tag);
                    assert(before.contains(tag));
                    assert(front.contains(tag));
                    let i = choose|i: int| 0 <= i < front.len() && front[i] == tag;
                    assert(items[i] == tag);
                } else {
                    assert(items[items.len() - 1] == tag);
                }
                assert(items.contains(tag));
            }
        }
    }
}

/// A text field that must be present.
pub open spec fn required_text(entries: Seq<(Value, Value)>, name: Seq<char>) -> Result<
    Seq<char>,
    Flaw,
> {
    match lookup(entries, name) {
        None => Err(Flaw::FieldMissing(name)),
        Some(value) => match value.text() {
            Some(text) => Ok(text),
            None => Err(Flaw::FieldType { name, expected: "string"@ }),
        },
    }
}

/// Every item of a sequence node is a string.
pub open spec fn all_strings(items: Seq<Value>) -> bool {
    forall|i: int| 0 <= i < items.len() ==> (#[trigger] items[i]).text() is Some
}

/// The texts of the items of a sequence node.
pub open spec fn item_texts(items: Seq<Value>) -> Seq<Seq<char>> {
    Seq::new(items.len(), |i: int| items[i].text().unwrap())
}

/// The tags: absent means none; otherwise a sequence of strings, of which
/// each distinct one is kept once.
pub open spec fn tags_field(entries: Seq<(Value, Value)>) -> Result<Seq<Seq<char>>, Flaw> {
    match lookup(entries, "tags"@) {
        None => Ok(Seq::empty()),
        Some(Value::Array(items)) => if all_strings(items@) {
            Ok(distinct(item_texts(items@)))
        } else {
            Err(Flaw::FieldType { name: "tags"@, expected: "string"@ })
        },
        Some(_) => Err(Flaw::FieldType { name: "tags"@, expected: "array"@ }),
    }
}

/// What a date field holds once it was found.
pub open spec fn date_value(value: Value, name: Seq<char>) -> Result<Date, Flaw> {
    match value.text() {
        None => Err(Flaw::FieldType { name, expected: "string"@ }),
        Some(text) => match date_of(text) {
            Some(date) => Ok(date),
            None => Err(Flaw::Date { name }),
        },
    }
}

/// A date field that must be present.
pub open spec fn required_date(entries: Seq<(Value, Value)>, name: Seq<char>) -> Result<
    Date,
    Flaw,
> {
    match lookup(entries, name) {
        None => Err(Flaw::FieldMissing(name)),
        Some(value) => date_value(value, name),
    }
}

/// A date field that may be absent.
pub open spec fn optional_date(entries: Seq<(Value, Value)>, name: Seq<char>) -> Result<
    Option<Date>,
    Flaw,
> {
    match lookup(entries, name) {
        None => Ok(None),
        Some(value) => match date_value(value, name) {
            Ok(date) => Ok(Some(date)),
            Err(flaw) => Err(flaw),
        },
    }
}

/// The release flag: absent means not released.
pub open spec fn released_field(entries: Seq<(Value, Value)>) -> Result<bool, Flaw> {
    match lookup(entries, "released"@) {
        None => Ok(false),
        Some(Value::Boolean(flag)) => Ok(flag),
        Some(_) => Err(Flaw::FieldType { name: "released"@, expected: "bool"@ }),
    }
}

/// The language: absent means none; otherwise a token of the vocabulary.
pub open spec fn language_field(entries: Seq<(Value, Value)>) -> Result<Option<Language>, Flaw> {
    match lookup(entries, "language"@) {
        None => Ok(None),
        Some(value) => match value.text() {
            None => Err(Flaw::FieldType { name: "language"@, expected: "string"@ }),
            Some(token) => match Language::of_token(token) {
                Some(language) => Ok(Some(language)),
                None => Err(Flaw::Language(token)),
            },
        },
    }
}

/// The metadata that a mapping holds, or the first flaw met when its fields
/// are read in the order title, description, tags, created, updated,
/// released, language.
pub open spec fn decode_entries(entries: Seq<(Value, Value)>) -> Result<Metadata, Flaw> {
    match required_text(entries, "title"@) {
        Err(flaw) => Err(flaw),
        Ok(title) => match required_text(entries, "description"@) {
            Err(flaw) => Err(flaw),
            Ok(description) => match tags_field(entries) {
                Err(flaw) => Err(flaw),
                Ok(tags) => match required_date(entries, "created"@) {
                    Err(flaw) => Err(flaw),
                    Ok(created) => match optional_date(entries, "updated"@) {
                        Err(flaw) => Err(flaw),
                        Ok(updated) => match released_field(entries) {
                            Err(flaw) => Err(flaw),
                            Ok(released) => match language_field(entries) {
                                Err(flaw) => Err(flaw),
                                Ok(language) => Ok(
                                    Metadata {
                                        title,
                                        description,
                                        tags,
                                        created,
                                        updated,
                                        released,
                                        language,
                                    },
                                ),
                            },
                        },
                    },
                },
            },
        },
    }
}

/// The metadata that a list of YAML documents holds: there must be a first
/// document, a second one must be null, and the first must be a mapping.
pub open spec fn decode_documents(documents: Seq<Value>) -> Result<Metadata, Flaw> {
    if documents.len() == 0 {
        Err(Flaw::Empty)
    } else if documents.len() > 1 && !(documents[1] is Null) {
        Err(Flaw::MultipleDoc)
    } else {
        match documents[0] {
            Value::Hash(entries) => decode_entries(entries@),
            _ => Err(Flaw::NotAMap),
        }
    }
}

/// The metadata written in `source`.
pub open spec fn metadata_of(source: Seq<char>) -> Result<Metadata, Flaw> {
    match yaml_documents(source) {
        None => Err(Flaw::Yaml),
        Some(documents) => decode_documents(documents),
    }
}

/// A result says what its model says: success with the same value, or
/// failure with the same flaw.
pub open spec fn agrees<T: View, E: View>(got: Result<T, E>, expected: Result<T::V, E::V>) -> bool {
    match got {
        Ok(value) => expected == Ok::<T::V, E::V>(value@),
        Err(error) => expected == Err::<T::V, E::V>(error@),
    }
}

impl Flaw {
    /// The sentence that reports the flaw.
    pub open spec fn message(self) -> Seq<char> {
        match self {
            Flaw::Yaml => "failed to parse yaml"@,
            Flaw::MultipleDoc => "yaml contains multiple documents"@,
            Flaw::Empty => "empty front matter"@,
            Flaw::NotAMap => "expected and map"@,
            Flaw::FieldMissing(name) => "missing "@ + name,
            Flaw::FieldType { name, expected } => "expected "@ + name + " to be a "@ + expected,
            Flaw::Language(_) => "invalid language"@,
            Flaw::Date { name } => "invalid date for "@ + name,
        }
    }
}

impl FrontMatterError {
    /// The sentence that reports the error.
    pub fn message(&self) -> (text: String)
        ensures
            text@ == self@.message(),
    {
        match self {
            FrontMatterError::Yaml(_) => String::from_str("failed to parse yaml"),
            FrontMatterError::MultipleDoc => String::from_str("yaml contains multiple documents"),
            FrontMatterError::Empty => String::from_str("empty front matter"),
            FrontMatterError::NotAMap => String::from_str("expected and map"),
            FrontMatterError::FieldMissing(name) => {
                let mut text = String::from_str("missing ");
                text.append(name);
                text
            },
            FrontMatterError::FieldType { name, expected } => {
                let mut text = String::from_str("expected ");
                text.append(name);
                text.append(" to be a ");
                text.append(expected);
                text
            },
            FrontMatterError::Language(_) => String::from_str("invalid language"),
            FrontMatterError::Date { name, backtrace: _ } => {
                let mut text = String::from_str("invalid date for ");
                text.append(name);
                text
            },
        }
    }

    /// The error for a required field that is absent.
    pub fn missing(missing: &'static str) -> (error: Self)
        ensures
            error@ == Flaw::FieldMissing(missing@),
    {
        Self::FieldMissing(missing)
    }

    /// The error for a field that holds a value of the wrong type.
    pub fn field_type(name: &'static str, expected: &'static str) -> (error: Self)
        ensures
            error@ == (Flaw::FieldType { name: name@, expected: expected@ }),
    {
        Self::FieldType { name, expected }
    }
}

/// Whether `tags` already holds the text `tag`.
fn holds(tags: &Vec<String>, tag: &str) -> (found: bool)
    ensures
        found == texts(tags@).contains(tag@),
{
    let mut i: usize = 0;
    while i < tags.len()
        invariant
            i <= tags.len(),
            forall|j: int| 0 <= j < i ==> texts(tags@)[j] != tag@,
        decreases tags.len() - i,
    {
        if str_eq(tags[i].as_str(), tag) {
            assert(texts(tags@)[i as int] == tag@);
            return true;
        }
        i += 1;
    }
    false
}

fn read_text(entries: &Vec<(Value, Value)>, name: &'static str) -> (field: Result<
    String,
    FrontMatterError,
>)
    ensures
        agrees(field, required_text(entries@, name@)),
{
    match get(entries, name) {
        None => Err(FrontMatterError::missing(name)),
        Some(value) => match value.as_str() {
            Some(text) => Ok(String::from_str(text)),
            None => Err(FrontMatterError::field_type(name, "string")),
        },
    }
}

fn read_tags(entries: &Vec<(Value, Value)>) -> (field: Result<Vec<String>, FrontMatterError>)
    ensures
        match field {
            Ok(tags) => tags_field(entries@) == Ok::<Seq<Seq<char>>, Flaw>(texts(tags@)),
            Err(error) => tags_field(entries@) == Err::<Seq<Seq<char>>, Flaw>(error@),
        },
        field matches Ok(tags) ==> texts(tags@).no_duplicates(),
{
    let value = match get(entries, "tags") {
        None => {
            let none: Vec<String> = Vec::new();
            assert(texts(none@) =~= Seq::<Seq<char>>::empty());
            return Ok(none);
        },
        Some(value) => value,
    };
    let items = match value.as_vec() {
        None => {
            return Err(FrontMatterError::field_type("tags", "array"));
        },
        Some(items) => items,
    };
    let ghost all = item_texts(items@);
    let mut tags: Vec<String> = Vec::new();
    let mut i: usize = 0;
    assert(texts(tags@) =~= distinct(all.subrange(0, 0)));
    while i < items.len()
        invariant
            i <= items.len(),
            lookup(entries@, "tags"@) == Some(Value::Array(*items)),
            all == item_texts(items@),
            forall|j: int| 0 <= j < i ==> (#[trigger] items@[j]).text() is Some,
            texts(tags@) == distinct(all.subrange(0, i as int)),
        decreases items.len() - i,
    {
        let ghost before = texts(tags@);
        match items[i].as_str() {
            None => {
                assert(items@[i as int].text() is None);
                return Err(FrontMatterError::field_type("tags", "string"));
            },
            Some(tag) => {
                proof {
                    let done = all.subrange(0, i + 1);
                    assert(done.drop_last() =~= all.subrange(0, i as int));
                    assert(done.last() == tag@);
                }
                if !holds(&tags, tag) {
                    tags.push(String::from_str(tag));
                    assert(texts(tags@) =~= before.push(tag@));
                }
            },
        }
        i += 1;
    }
    proof {
        assert(all.subrange(0, i as int) =~= all);
        lemma_distinct(all);
    }
    Ok(tags)
}

/// Turns the outcome of reading a date into the outcome of reading the field
/// `name`: a date is kept, a failure is reported under the field's name.
pub fn date_outcome(name: &'static str, parsed: Result<Date, chrono::ParseError>) -> (field: Result<
    Date,
    FrontMatterError,
>)
    ensures
        match parsed {
            Ok(date) => field == Ok::<Date, FrontMatterError>(date),
            Err(cause) => field == Err::<Date, FrontMatterError>(
                FrontMatterError::Date { name, backtrace: cause },
            ),
        },
{
    match parsed {
        Ok(date) => Ok(date),
        Err(cause) => Err(FrontMatterError::Date { name, backtrace: cause }),
    }
}

fn read_date(value: &Value, name: &'static str) -> (field: Result<Date, FrontMatterError>)
    ensures
        match field {
            Ok(date) => date_value(*value, name@) == Ok::<Date, Flaw>(date) && date.well_formed(),
            Err(error) => date_value(*value, name@) == Err::<Date, Flaw>(error@),
        },
{
    match value.as_str() {
        None => Err(FrontMatterError::field_type(name, "string")),
        Some(text) => date_outcome(name, parse_date(text)),
    }
}

fn read_created(entries: &Vec<(Value, Value)>) -> (field: Result<Date, FrontMatterError>)
    ensures
        match field {
            Ok(date) => required_date(entries@, "created"@) == Ok::<Date, Flaw>(date)
                && date.well_formed(),
            Err(error) => required_date(entries@, "created"@) == Err::<Date, Flaw>(error@),
        },
{
    match get(entries, "created") {
        None => Err(FrontMatterError::missing("created")),
        Some(value) => read_date(value, "created"),
    }
}

fn read_updated(entries: &Vec<(Value, Value)>) -> (field: Result<Option<Date>, FrontMatterError>)
    ensures
        match field {
            Ok(date) => optional_date(entries@, "updated"@) == Ok::<Option<Date>, Flaw>(date) && (
            date matches Some(d) ==> d.well_formed()),
            Err(error) => optional_date(entries@, "updated"@) == Err::<Option<Date>, Flaw>(
                error@,
            ),
        },
{
    match get(entries, "updated") {
        None => Ok(None),
        Some(value) => match read_date(value, "updated") {
            Ok(date) => Ok(Some(date)),
            Err(error) => Err(error),
        },
    }
}

fn read_released(entries: &Vec<(Value, Value)>) -> (field: Result<bool, FrontMatterError>)
    ensures
        match field {
            Ok(flag) => released_field(entries@) == Ok::<bool, Flaw>(flag),
            Err(error) => released_field(entries@) == Err::<bool, Flaw>(error@),
        },
{
    match get(entries, "released") {
        None => Ok(false),
        Some(value) => match value.as_bool() {
            Some(flag) => Ok(flag),
            None => Err(FrontMatterError::field_type("released", "bool")),
        },
    }
}

fn read_language(entries: &Vec<(Value, Value)>) -> (field: Result<
    Option<Language>,
    FrontMatterError,
>)
    ensures
        match field {
            Ok(language) => language_field(entries@) == Ok::<Option<Language>, Flaw>(language),
            Err(error) => language_field(entries@) == Err::<Option<Language>, Flaw>(error@),
        },
{
    match get(entries, "language") {
        None => Ok(None),
        Some(value) => match value.as_str() {
            None => Err(FrontMatterError::field_type("language", "string")),
            Some(token) => match Language::from_str(token) {
                Ok(language) => Ok(Some(language)),
                Err(error) => Err(FrontMatterError::Language(error)),
            },
        },
    }
}

impl FrontMatter {
    /// No tag occurs twice, and the dates are calendar dates.
    pub open spec fn well_formed(self) -> bool {
        &&& self@.well_formed()
        &&& self.created.well_formed()
        &&& self.updated matches Some(date) ==> date.well_formed()
    }
}

/// Reads the fields of a mapping in their fixed order and stops at the first
/// one that is missing or ill-typed.
fn read_entries(entries: &Vec<(Value, Value)>) -> (metadata: Result<FrontMatter, FrontMatterError>)
    ensures
        agrees(metadata, decode_entries(entries@)),
        metadata matches Ok(front_matter) ==> front_matter.well_formed(),
{
    let title = read_text(entries, "title")?;
    let description = read_text(entries, "description")?;
    let tags = read_tags(entries)?;
    let created = read_created(entries)?;
    let updated = read_updated(entries)?;
    let released = read_released(entries)?;
    let language = read_language(entries)?;
    Ok(FrontMatter { title, description, tags, created, updated, released, language })
}

/// Validates the documents of a metadata block.
///
/// Fails with `Empty` when there is no document, with `MultipleDoc` when a
/// second document is not null, with `NotAMap` when the first document is not
/// a mapping, and otherwise with the first flaw among its fields.
pub fn decode(documents: &Vec<Value>) -> (metadata: Result<FrontMatter, FrontMatterError>)
    ensures
        agrees(metadata, decode_documents(documents@)),
        metadata matches Ok(front_matter) ==> front_matter.well_formed(),
{
    if documents.len() == 0 {
        return Err(FrontMatterError::Empty);
    }
    if documents.len() > 1 && !documents[1].is_null() {
        return Err(FrontMatterError::MultipleDoc);
    }
    match documents[0].as_hash() {
        None => Err(FrontMatterError::NotAMap),
        Some(entries) => read_entries(entries),
    }
}

/// Reads and validates the metadata written in `source`.
///
/// Fails with `Yaml` when the text is not well-formed YAML, and otherwise as
/// `decode` does on the documents read.
pub fn parse_front_matter(source: &str) -> (metadata: Result<FrontMatter, FrontMatterError>)
    ensures
        agrees(metadata, metadata_of(source@)),
        metadata matches Ok(front_matter) ==> front_matter.well_formed(),
{
    match load_documents(source) {
        Err(cause) => Err(FrontMatterError::Yaml(cause)),
        Ok(documents) => decode(&documents),
    }
}

} // verus!
