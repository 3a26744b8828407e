//! What holds of every note, stated over the models of the parser.

use vstd::prelude::*;
use vstd::utf8::*;
use crate::content::{markdown_events, MdEvent};
use crate::date::{date_of, Date};
use crate::flatten::{event_text, flatten};
use crate::front_matter::{
    block_of, block_of_text, body_start, closes_at, delimiter_at, first_close,
    lemma_first_close_pins_block, line_ending_len, line_start, opening_len, DASH, LINE_FEED,
};
use crate::language::Language;
use crate::metadata::{
    all_strings, decode_documents, decode_entries, distinct, item_texts, lemma_distinct, Flaw,
    Metadata,
};
use crate::parser::{document_of, Document, Failure};
use crate::yaml::{lookup, yaml_documents, Value};

verus! {

/// A mapping in which every field is present and holds a value of its type
/// decodes to exactly those values, with each distinct tag kept once.
pub proof fn law_populated_fields_decode(
    entries: Seq<(Value, Value)>,
    title: String,
    description: String,
    tags: Vec<Value>,
    created: String,
    updated: String,
    released: bool,
    language: String,
    created_on: Date,
    updated_on: Date,
    spoken: Language,
)
    requires
        lookup(entries, "title"@) == Some(Value::String(title)),
        lookup(entries, "description"@) == Some(Value::String(description)),
        lookup(entries, "tags"@) == Some(Value::Array(tags)),
        all_strings(tags@),
        lookup(entries, "created"@) == Some(Value::String(created)),
        date_of(created@) == Some(created_on),
        lookup(entries, "updated"@) == Some(Value::String(updated)),
        date_of(updated@) == Some(updated_on),
        lookup(entries, "released"@) == Some(Value::Boolean(released)),
        lookup(entries, "language"@) == Some(Value::String(language)),
        Language::of_token(language@) == Some(spoken),
    ensures
        decode_entries(entries) == Ok::<Metadata, Flaw>(
            Metadata {
                title: title@,
                description: description@,
                tags: distinct(item_texts(tags@)),
                created: created_on,
                updated: Some(updated_on),
                released,
                language: Some(spoken),
            },
        ),
        distinct(item_texts(tags@)).no_duplicates(),
        distinct(item_texts(tags@)).to_set() == item_texts(tags@).to_set(),
{
    lemma_distinct(item_texts(tags@));
}

/// A note whose metadata block holds one mapping parses to what that mapping
/// decodes to, together with the events of the text after the block.
pub proof fn law_parse_follows_the_mapping(
    text: Seq<char>,
    yaml: Seq<char>,
    rest: Seq<char>,
    entries: Vec<(Value, Value)>,
    metadata: Metadata,
)
    requires
        block_of_text(text) == Some((yaml, rest)),
        yaml_documents(yaml) == Some(seq![Value::Hash(entries)]),
        decode_entries(entries@) == Ok::<Metadata, Flaw>(metadata),
    ensures
        document_of(text) == Ok::<Document, Failure>(
            Document { metadata, content: markdown_events(rest) },
        ),
{
    let documents = seq![Value::Hash(entries)];
    assert(documents.len() == 1);
    assert(documents[0] == Value::Hash(entries));
    assert(decode_documents(documents) == decode_entries(entries@));
}

/// A note that does not start with a delimiter line has no metadata block.
pub proof fn law_missing_opening(text: Seq<char>)
    requires
        opening_len(encode_utf8(text)) == 0,
    ensures
        document_of(text) == Err::<Document, Failure>(Failure::MissingFrontmatter),
{
}

/// A note that starts with a delimiter line which no later line closes has no
/// metadata block.
pub proof fn law_missing_closing(text: Seq<char>)
    requires
        opening_len(encode_utf8(text)) > 0,
        forall|at: int| !closes_at(encode_utf8(text), opening_len(encode_utf8(text)), at),
    ensures
        document_of(text) == Err::<Document, Failure>(Failure::MissingFrontmatter),
{
}

/// The bytes are a line terminator: a line feed, alone or behind a carriage
/// return.
pub open spec fn is_line_ending(bytes: Seq<u8>) -> bool {
    bytes == seq![10u8] || bytes == seq![13u8, 10u8]
}

/// A note as it is written: a delimiter line, the metadata, a second
/// delimiter line and the body.
pub open spec fn written(
    opening_end: Seq<u8>,
    metadata: Seq<u8>,
    closing_end: Seq<u8>,
    body: Seq<u8>,
) -> Seq<u8> {
    seq![45u8, 45u8, 45u8] + opening_end + metadata + seq![45u8, 45u8, 45u8] + closing_end + body
}

/// A written note is taken apart into the metadata and the body that it was
/// written from, provided that the metadata is made of whole lines, none of
/// which is a delimiter line, and that the closing delimiter line is
/// terminated unless the note ends with it.
pub proof fn law_written_note_is_taken_apart(
    opening_end: Seq<u8>,
    metadata: Seq<u8>,
    closing_end: Seq<u8>,
    body: Seq<u8>,
)
    requires
        is_line_ending(opening_end),
        is_line_ending(closing_end) || (closing_end.len() == 0 && body.len() == 0),
        metadata.len() == 0 || metadata.last() == LINE_FEED,
        forall|at: int| !closes_at(metadata, 0, at),
    ensures
        block_of(written(opening_end, metadata, closing_end, body)) == Some((metadata, body)),
{
    let text = written(opening_end, metadata, closing_end, body);
    let open: int = 3 + opening_end.len() as int;
    let close: int = open + metadata.len();
    let after: int = close + 3 + closing_end.len();
    assert(text.len() == after + body.len());
    assert forall|i: int| 0 <= i < 3 implies text[i] == DASH by {}
    assert forall|i: int| 0 <= i < opening_end.len() implies text[3 + i] == opening_end[i] by {}
    assert forall|i: int| 0 <= i < metadata.len() implies text[open + i] == metadata[i] by {}
    assert forall|i: int| 0 <= i < closing_end.len() implies text[close + 3 + i]
        == closing_end[i] by {}
    assert forall|i: int| 0 <= i < body.len() implies text[after + i] == body[i] by {}
    assert(text[0] == DASH && text[1] == DASH && text[2] == DASH);
    assert(text[3] == opening_end[0]);
    if opening_end.len() == 2 {
        assert(text[4] == opening_end[1]);
    }
    assert(line_ending_len(text, 3) == opening_end.len());
    assert(opening_len(text) == open);
    assert(text[close] == DASH && text[close + 1] == DASH && text[close + 2] == DASH);
    assert(delimiter_at(text, close));
    if metadata.len() > 0 {
        assert(text[close - 1] == metadata[metadata.len() - 1]);
    }
    assert(line_start(text, open, close));
    if closing_end.len() > 0 {
        assert(text[close + 3] == closing_end[0]);
        if closing_end.len() == 2 {
            assert(text[close + 4] == closing_end[1]);
        }
        assert(line_ending_len(text, close + 3) == closing_end.len());
    }
    assert(closes_at(text, open, close));
    assert forall|q: int| open <= q < close implies !closes_at(text, open, q) by {
        if closes_at(text, open, q) {
            let k = q - open;
            let last = metadata.len() - 1;
            assert(metadata[last] == LINE_FEED);
            assert(text[q] == DASH && text[q + 1] == DASH && text[q + 2] == DASH);
            assert(text[q] == metadata[k]);
            assert(k < last);
            assert(text[q + 1] == metadata[k + 1]);
            assert(k + 1 < last);
            assert(text[q + 2] == metadata[k + 2]);
            assert(k + 2 < last);
            assert(delimiter_at(metadata, k));
            if k > 0 {
                assert(text[q - 1] == metadata[k - 1]);
            }
            assert(line_start(metadata, 0, k));
            assert(text[q + 3] == metadata[k + 3]);
            if metadata[k + 3] != LINE_FEED {
                assert(k + 3 < last);
                assert(text[q + 4] == metadata[k + 4]);
            }
            assert(line_ending_len(metadata, k + 3) > 0);
            assert(closes_at(metadata, 0, k));
        }
    }
    assert(first_close(text, open, close));
    lemma_first_close_pins_block(text, close);
    assert(body_start(text, close) == after);
    assert(text.subrange(open, close) =~= metadata);
    assert(text.subrange(after, text.len() as int) =~= body);
}

/// A mapping without a title is rejected for the title, whatever else it
/// lacks.
pub proof fn law_title_is_checked_first(entries: Seq<(Value, Value)>)
    requires
        lookup(entries, "title"@) is None,
    ensures
        decode_entries(entries) == Err::<Metadata, Flaw>(Flaw::FieldMissing("title"@)),
{
}

/// The fields are checked in order: a flaw in an earlier field is the one
/// reported, whatever the later fields hold. Here, with a valid title, a
/// missing description is reported before anything about the other fields.
pub proof fn law_description_is_checked_second(entries: Seq<(Value, Value)>, title: String)
    requires
        lookup(entries, "title"@) == Some(Value::String(title)),
        lookup(entries, "description"@) is None,
    ensures
        decode_entries(entries) == Err::<Metadata, Flaw>(Flaw::FieldMissing("description"@)),
{
}

/// The text of a body is put together event by event: the text of two runs
/// of events, one after the other, is the text of the first followed by the
/// text of the second.
pub proof fn law_flatten_in_order(first: Seq<MdEvent>, second: Seq<MdEvent>)
    ensures
        flatten(first + second) == flatten(first) + flatten(second),
    decreases second.len(),
{
    if second.len() == 0 {
        assert(first + second =~= first);
        assert(flatten(first) + flatten(second) =~= flatten(first));
    } else {
        let all = first + second;
        assert(all.drop_last() =~= first + second.drop_last());
        assert(all.last() == second.last());
        law_flatten_in_order(first, second.drop_last());
        assert(flatten(all) =~= flatten(first) + flatten(second));
    }
}

/// Ends and marks leave no trace in the text of a body.
pub proof fn law_flatten_skips_ends_and_marks(events: Seq<MdEvent>, event: MdEvent)
    requires
        event is End || event is SoftBreak || event is HardBreak || event is Rule
            || event is TaskListMarker,
    ensures
        flatten(events.push(event)) == flatten(events),
{
    assert(events.push(event).drop_last() =~= events);
    assert(flatten(events) + event_text(event) =~= flatten(events));
}

} // verus!
