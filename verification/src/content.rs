//! The body of a note as an ordered sequence of content events.
//!
//! The body is Markdown. An outside tokenizer reads it; this module turns what
//! the tokenizer hands out, event by event and in order, into values of its
//! own.

use vstd::prelude::*;
use vstd::pervasive::unreached;
use pulldown_cmark::{CodeBlockKind, Event, Options, Parser, Tag, TagEnd};

verus! {

/// An event as the Markdown tokenizer hands it out.
#[verifier::external_type_specification]
#[verifier::external_body]
pub struct ExEvent<'a>(pulldown_cmark::Event<'a>);

/// The opening of an element as the Markdown tokenizer hands it out.
#[verifier::external_type_specification]
#[verifier::external_body]
pub struct ExTag<'a>(pulldown_cmark::Tag<'a>);

/// The closing of an element as the Markdown tokenizer hands it out.
#[verifier::external_type_specification]
#[verifier::external_body]
pub struct ExTagEnd(pulldown_cmark::TagEnd);

/// The element that a start event opens.
#[allow(inconsistent_fields)]
#[derive(Debug, Clone, PartialEq, Eq)]
pub enum TagKind {
    Paragraph,
    Heading {
        /// From 1 for the largest heading to 6 for the smallest.
        level: u8,
        id: Option<String>,
        classes: Vec<String>,
        attrs: Vec<(String, Option<String>)>,
    },
    BlockQuote,
    /// A fenced block names its language, which may be empty; an indented
    /// block has none.
    CodeBlock { fenced: bool, language: Option<String> },
    HtmlBlock,
    List,
    Item,
    FootnoteDefinition(String),
    DefinitionList,
    DefinitionListTitle,
    DefinitionListDefinition,
    Table,
    TableHead,
    TableRow,
    TableCell,
    Emphasis,
    Strong,
    Strikethrough,
    Superscript,
    Subscript,
    Link { url: String, title: String, id: String },
    Image { url: String, title: String, id: String },
    MetadataBlock,
}

/// The element that an end event closes.
#[derive(Debug, Clone, Copy, PartialEq, Eq)]
pub enum EndKind {
    Paragraph,
    Heading(u8),
    BlockQuote,
    CodeBlock,
    HtmlBlock,
    List,
    Item,
    FootnoteDefinition,
    DefinitionList,
    DefinitionListTitle,
    DefinitionListDefinition,
    Table,
    TableHead,
    TableRow,
    TableCell,
    Emphasis,
    Strong,
    Strikethrough,
    Superscript,
    Subscript,
    Link,
    Image,
    MetadataBlock,
}

/// One unit of the body: the start or the end of an element, a run of text,
/// or a mark.
#[derive(Debug, Clone, PartialEq, Eq)]
pub enum MdEvent {
    Start(TagKind),
    End(EndKind),
    Text(String),
    Code(String),
    InlineMath(String),
    DisplayMath(String),
    Html(String),
    InlineHtml(String),
    FootnoteReference(String),
    SoftBreak,
    HardBreak,
    Rule,
    TaskListMarker(bool),
}

/// The events that the Markdown tokenizer reads from `body`, with every
/// extension switched on.
pub uninterp spec fn markdown_events(body: Seq<char>) -> Seq<MdEvent>;

/// What an event of the tokenizer holds.
pub uninterp spec fn event_value(event: Event<'static>) -> MdEvent;

/// What a start tag of the tokenizer holds.
pub uninterp spec fn tag_value(tag: Tag<'static>) -> TagKind;

/// What an end tag of the tokenizer holds.
pub uninterp spec fn end_value(end: TagEnd) -> EndKind;

/// The values that a sequence of events of the tokenizer holds, in order.
pub open spec fn event_values(events: Seq<Event<'static>>) -> Seq<MdEvent> {
    Seq::new(events.len(), |i: int| event_value(events[i]))
}

/// The event carries a run of text.
pub open spec fn is_text(event: MdEvent) -> bool {
    event is Text || event is Code || event is InlineMath || event is DisplayMath || event is Html
        || event is InlineHtml || event is FootnoteReference
}

/// The event is a mark without text.
pub open spec fn is_mark(event: MdEvent) -> bool {
    event is SoftBreak || event is HardBreak || event is Rule || event is TaskListMarker
}

/// The tag opens a code block or a footnote definition.
pub open spec fn is_labelled(tag: TagKind) -> bool {
    tag is CodeBlock || tag is FootnoteDefinition
}

/// The tag opens a link or an image.
pub open spec fn is_reference(tag: TagKind) -> bool {
    tag is Link || tag is Image
}

/// The tag opens a block-level container.
pub open spec fn is_container(tag: TagKind) -> bool {
    tag is Paragraph || tag is BlockQuote || tag is HtmlBlock || tag is List || tag is Item
        || tag is DefinitionList || tag is DefinitionListTitle || tag is DefinitionListDefinition
        || tag is MetadataBlock
}

/// The tag opens a part of a table or an inline span.
pub open spec fn is_cell_or_span(tag: TagKind) -> bool {
    tag is Table || tag is TableHead || tag is TableRow || tag is TableCell || tag is Emphasis
        || tag is Strong || tag is Strikethrough || tag is Superscript || tag is Subscript
}

/// The end tag closes a part of a table, an inline span, a link or an image.
pub open spec fn is_inner_end(end: EndKind) -> bool {
    end is Table || end is TableHead || end is TableRow || end is TableCell || end is Emphasis
        || end is Strong || end is Strikethrough || end is Superscript || end is Subscript
        || end is Link || end is Image
}

/// `pulldown_cmark::Parser::new_ext` with `Options::all()`, run to its end.
/// The events that come out are a function of the body alone, named
/// `markdown_events`.
#[verifier::external_body]
fn markdown_nodes(body: &str) -> (nodes: Vec<Event<'static>>)
    ensures
        event_values(nodes@) == markdown_events(body@),
{
    Parser::new_ext(body, Options::all()).map(Event::into_static).collect()
}

/// The tag of a `pulldown_cmark::Event::Start`, `None` for any other event.
#[verifier::external_body]
fn start_of(event: &Event<'static>) -> (tag: Option<Tag<'static>>)
    ensures
        match tag {
            Some(tag) => event_value(*event) is Start && event_value(*event)->Start_0
                == tag_value(tag),
            None => !(event_value(*event) is Start),
        },
{
    match event {
        Event::Start(tag) => Some(tag.clone()),
        _ => None,
    }
}

/// The tag of a `pulldown_cmark::Event::End`, `None` for any other event.
#[verifier::external_body]
fn end_of(event: &Event<'static>) -> (end: Option<TagEnd>)
    ensures
        match end {
            Some(end) => event_value(*event) == MdEvent::End(end_value(end)),
            None => !(event_value(*event) is End),
        },
{
    match event {
        Event::End(end) => Some(*end),
        _ => None,
    }
}

/// The seven variants of `pulldown_cmark::Event` that carry text, each
/// with a copy of its text; `None` for any other event.
#[verifier::external_body]
fn text_of(event: &Event<'static>) -> (text: Option<MdEvent>)
    ensures
        match text {
            Some(value) => event_value(*event) == value && is_text(value),
            None => !is_text(event_value(*event)),
        },
{
    match event {
        Event::Text(text) => Some(MdEvent::Text(text.to_string())),
        Event::Code(text) => Some(MdEvent::Code(text.to_string())),
        Event::InlineMath(text) => Some(MdEvent::InlineMath(text.to_string())),
        Event::DisplayMath(text) => Some(MdEvent::DisplayMath(text.to_string())),
        Event::Html(text) => Some(MdEvent::Html(text.to_string())),
        Event::InlineHtml(text) => Some(MdEvent::InlineHtml(text.to_string())),
        Event::FootnoteReference(text) => Some(MdEvent::FootnoteReference(text.to_string())),
        _ => None,
    }
}

/// The four variants of `pulldown_cmark::Event` that are marks; `None` for
/// any other event.
#[verifier::external_body]
fn mark_of(event: &Event<'static>) -> (mark: Option<MdEvent>)
    ensures
        match mark {
            Some(value) => event_value(*event) == value && is_mark(value),
            None => !is_mark(event_value(*event)),
        },
{
    match event {
        Event::SoftBreak => Some(MdEvent::SoftBreak),
        Event::HardBreak => Some(MdEvent::HardBreak),
        Event::Rule => Some(MdEvent::Rule),
        Event::TaskListMarker(checked) => Some(MdEvent::TaskListMarker(*checked)),
        _ => None,
    }
}

/// `pulldown_cmark::Tag::Heading` with its level as a number and copies of
/// its id, classes and attributes; `None` for any other tag.
#[verifier::external_body]
fn heading_of(tag: &Tag<'static>) -> (heading: Option<TagKind>)
    ensures
        match heading {
            Some(value) => tag_value(*tag) == value && value is Heading,
            None => !(tag_value(*tag) is Heading),
        },
{
    match tag {
        Tag::Heading { level, id, classes, attrs } => Some(TagKind::Heading {
            level: *level as u8,
            id: id.as_ref().map(|s| s.to_string()),
            classes: classes.iter().map(|s| s.to_string()).collect(),
            attrs: attrs.iter().map(|(k, v)| (k.to_string(), v.as_ref().map(|s| s.to_string()))).collect(),
        }),
        _ => None,
    }
}

/// `pulldown_cmark::Tag::CodeBlock`, fenced with its language or indented
/// without one, and `Tag::FootnoteDefinition` with its label; `None` for any
/// other tag.
#[verifier::external_body]
fn labelled_of(tag: &Tag<'static>) -> (labelled: Option<TagKind>)
    ensures
        match labelled {
            Some(value) => tag_value(*tag) == value && is_labelled(value),
            None => !is_labelled(tag_value(*tag)),
        },
{
    match tag {
        Tag::CodeBlock(CodeBlockKind::Fenced(language)) => {
            Some(TagKind::CodeBlock { fenced: true, language: Some(language.to_string()) })
        },
        Tag::CodeBlock(CodeBlockKind::Indented) => {
            Some(TagKind::CodeBlock { fenced: false, language: None })
        },
        Tag::FootnoteDefinition(label) => Some(TagKind::FootnoteDefinition(label.to_string())),
        _ => None,
    }
}

/// `pulldown_cmark::Tag::Link` and `Tag::Image` with copies of their
/// destination, title and id; `None` for any other tag.
#[verifier::external_body]
fn reference_of(tag: &Tag<'static>) -> (reference: Option<TagKind>)
    ensures
        match reference {
            Some(value) => tag_value(*tag) == value && is_reference(value),
            None => !is_reference(tag_value(*tag)),
        },
{
    match tag {
        Tag::Link { dest_url, title, id, .. } => {
            Some(TagKind::Link { url: dest_url.to_string(), title: title.to_string(), id: id.to_string() })
        },
        Tag::Image { dest_url, title, id, .. } => {
            Some(TagKind::Image { url: dest_url.to_string(), title: title.to_string(), id: id.to_string() })
        },
        _ => None,
    }
}

/// The nine variants of `pulldown_cmark::Tag` that open a block-level
/// container; `None` for any other tag.
#[verifier::external_body]
fn container_of(tag: &Tag<'static>) -> (container: Option<TagKind>)
    ensures
        match container {
            Some(value) => tag_value(*tag) == value && is_container(value),
            None => !is_container(tag_value(*tag)),
        },
{
    match tag {
        Tag::Paragraph => Some(TagKind::Paragraph),
        Tag::BlockQuote(_) => Some(TagKind::BlockQuote),
        Tag::HtmlBlock => Some(TagKind::HtmlBlock),
        Tag::List(_) => Some(TagKind::List),
        Tag::Item => Some(TagKind::Item),
        Tag::DefinitionList => Some(TagKind::DefinitionList),
        Tag::DefinitionListTitle => Some(TagKind::DefinitionListTitle),
        Tag::DefinitionListDefinition => Some(TagKind::DefinitionListDefinition),
        Tag::MetadataBlock(_) => Some(TagKind::MetadataBlock),
        _ => None,
    }
}

/// The nine variants of `pulldown_cmark::Tag` that open a part of a table or
/// an inline span; `None` for any other tag.
#[verifier::external_body]
fn cell_or_span_of(tag: &Tag<'static>) -> (inner: Option<TagKind>)
    ensures
        match inner {
            Some(value) => tag_value(*tag) == value && is_cell_or_span(value),
            None => !is_cell_or_span(tag_value(*tag)),
        },
{
    match tag {
        Tag::Table(_) => Some(TagKind::Table),
        Tag::TableHead => Some(TagKind::TableHead),
        Tag::TableRow => Some(TagKind::TableRow),
        Tag::TableCell => Some(TagKind::TableCell),
        Tag::Emphasis => Some(TagKind::Emphasis),
        Tag::Strong => Some(TagKind::Strong),
        Tag::Strikethrough => Some(TagKind::Strikethrough),
        Tag::Superscript => Some(TagKind::Superscript),
        Tag::Subscript => Some(TagKind::Subscript),
        _ => None,
    }
}

/// The twelve variants of `pulldown_cmark::TagEnd` that close a block, a
/// heading with its level as a number; `None` for any other end tag.
#[verifier::external_body]
fn outer_end_of(end: &TagEnd) -> (outer: Option<EndKind>)
    ensures
        match outer {
            Some(value) => end_value(*end) == value && !is_inner_end(value),
            None => is_inner_end(end_value(*end)),
        },
{
    match end {
        TagEnd::Paragraph => Some(EndKind::Paragraph),
        TagEnd::Heading(level) => Some(EndKind::Heading(*level as u8)),
        TagEnd::BlockQuote(_) => Some(EndKind::BlockQuote),
        TagEnd::CodeBlock => Some(EndKind::CodeBlock),
        TagEnd::HtmlBlock => Some(EndKind::HtmlBlock),
        TagEnd::List(_) => Some(EndKind::List),
        TagEnd::Item => Some(EndKind::Item),
        TagEnd::FootnoteDefinition => Some(EndKind::FootnoteDefinition),
        TagEnd::DefinitionList => Some(EndKind::DefinitionList),
        TagEnd::DefinitionListTitle => Some(EndKind::DefinitionListTitle),
        TagEnd::DefinitionListDefinition => Some(EndKind::DefinitionListDefinition),
        TagEnd::MetadataBlock(_) => Some(EndKind::MetadataBlock),
        _ => None,
    }
}

/// The eleven variants of `pulldown_cmark::TagEnd` that close a part of a
/// table, an inline span, a link or an image; `None` for any other end tag.
#[verifier::external_body]
fn inner_end_of(end: &TagEnd) -> (inner: Option<EndKind>)
    ensures
        match inner {
            Some(value) => end_value(*end) == value && is_inner_end(value),
            None => !is_inner_end(end_value(*end)),
        },
{
    match end {
        TagEnd::Table => Some(EndKind::Table),
        TagEnd::TableHead => Some(EndKind::TableHead),
        TagEnd::TableRow => Some(EndKind::TableRow),
        TagEnd::TableCell => Some(EndKind::TableCell),
        TagEnd::Emphasis => Some(EndKind::Emphasis),
        TagEnd::Strong => Some(EndKind::Strong),
        TagEnd::Strikethrough => Some(EndKind::Strikethrough),
        TagEnd::Superscript => Some(EndKind::Superscript),
        TagEnd::Subscript => Some(EndKind::Subscript),
        TagEnd::Link => Some(EndKind::Link),
        TagEnd::Image => Some(EndKind::Image),
        _ => None,
    }
}

impl TagKind {
    /// Copies a start tag of the tokenizer.
    pub fn from(tag: &Tag<'static>) -> (kind: TagKind)
        ensures
            kind == tag_value(*tag),
    {
        if let Some(kind) = heading_of(tag) {
            return kind;
        }
        if let Some(kind) = labelled_of(tag) {
            return kind;
        }
        if let Some(kind) = reference_of(tag) {
            return kind;
        }
        if let Some(kind) = container_of(tag) {
            return kind;
        }
        match cell_or_span_of(tag) {
            Some(kind) => kind,
            None => unreached(),
        }
    }
}

impl EndKind {
    /// Copies an end tag of the tokenizer.
    pub fn from(end: &TagEnd) -> (kind: EndKind)
        ensures
            kind == end_value(*end),
    {
        if let Some(kind) = outer_end_of(end) {
            return kind;
        }
        match inner_end_of(end) {
            Some(kind) => kind,
            None => unreached(),
        }
    }
}

impl MdEvent {
    /// Copies an event of the tokenizer.
    pub fn from(value: &Event<'static>) -> (event: MdEvent)
        ensures
            event == event_value(*value),
    {
        if let Some(tag) = start_of(value) {
            return MdEvent::Start(TagKind::from(&tag));
        }
        if let Some(end) = end_of(value) {
            return MdEvent::End(EndKind::from(&end));
        }
        if let Some(event) = text_of(value) {
            return event;
        }
        match mark_of(value) {
            Some(event) => event,
            None => unreached(),
        }
    }
}

/// Splits the body of a note into its content events: one for each event of
/// the tokenizer, in the tokenizer's order.
///
/// The body is read as CommonMark with tables, footnotes, strikethrough, task
/// lists, math and the other extensions of the tokenizer; raw HTML is passed
/// through as text. Raw HTML that blank lines split into several fragments
/// may come out as unrelated events rather than as one: that is how the
/// tokenizer reads it, and nothing here puts the fragments together again.
/// Whether every start is closed by its end is the tokenizer's affair too.
pub fn tokenize(body: &str) -> (events: Vec<MdEvent>)
    ensures
        events@ == markdown_events(body@),
{
    let nodes = markdown_nodes(body);
    let mut events: Vec<MdEvent> = Vec::new();
    let mut i: usize = 0;
    while i < nodes.len()
        invariant
            i <= nodes.len(),
            events@.len() == i,
            forall|j: int| 0 <= j < i ==> events@[j] == event_value(nodes@[j]),
        decreases nodes.len() - i,
    {
        events.push(MdEvent::from(&nodes[i]));
        i += 1;
    }
    assert(events@ =~= event_values(nodes@));
    events
}

} // verus!
