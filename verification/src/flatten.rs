//! The plain text of a note's body, for indexing.
//!
//! Each event contributes a fixed piece of text or nothing; the pieces are
//! joined in the order of the events. Nothing is normalised or dropped on
//! the way: the projection loses structure, not text.

use vstd::prelude::*;
use vstd::string::*;
use crate::content::{MdEvent, TagKind};

verus! {

/// The text of an optional string: nothing when it is absent.
pub open spec fn optional_text(text: Option<String>) -> Seq<char> {
    match text {
        Some(text) => text@,
        None => Seq::empty(),
    }
}

/// Every class, each behind a space.
pub open spec fn classes_text(classes: Seq<String>) -> Seq<char>
    decreases classes.len(),
{
    if classes.len() == 0 {
        Seq::empty()
    } else {
        classes_text(classes.drop_last()) + seq![' '] + classes.last()@
    }
}

/// The key of an attribute behind a space, and its value, where it has one,
/// behind another.
pub open spec fn attr_text(attr: (String, Option<String>)) -> Seq<char> {
    match attr.1 {
        Some(value) => seq![' '] + attr.0@ + seq![' '] + value@,
        None => seq![' '] + attr.0@,
    }
}

/// Every attribute in order.
pub open spec fn attrs_text(attrs: Seq<(String, Option<String>)>) -> Seq<char>
    decreases attrs.len(),
{
    if attrs.len() == 0 {
        Seq::empty()
    } else {
        attrs_text(attrs.drop_last()) + attr_text(attrs.last())
    }
}

/// What the start of an element contributes: a line break and then, for a
/// heading, its id, classes and attributes; for a fenced code block, its
/// language; for a footnote definition, its label; for a link or an image,
/// its destination, title and id separated by spaces. Any other element
/// contributes nothing.
pub open spec fn tag_text(tag: TagKind) -> Seq<char> {
    match tag {
        TagKind::Heading { level: _, id, classes, attrs } => seq!['\n'] + optional_text(id)
            + classes_text(classes@) + attrs_text(attrs@),
        TagKind::CodeBlock { fenced: true, language: Some(language) } => seq!['\n'] + language@,
        TagKind::FootnoteDefinition(label) => seq!['\n'] + label@,
        TagKind::Link { url, title, id } => seq!['\n'] + url@ + seq![' '] + title@ + seq![' ']
            + id@,
        TagKind::Image { url, title, id } => seq!['\n'] + url@ + seq![' '] + title@ + seq![' ']
            + id@,
        _ => Seq::empty(),
    }
}

/// What an event contributes: a start, what its tag contributes; a run of
/// text, a line break and the text as it is; an end or a mark, nothing.
pub open spec fn event_text(event: MdEvent) -> Seq<char> {
    match event {
        MdEvent::Start(tag) => tag_text(tag),
        MdEvent::Text(text) => seq!['\n'] + text@,
        MdEvent::Code(text) => seq!['\n'] + text@,
        MdEvent::InlineMath(text) => seq!['\n'] + text@,
        MdEvent::DisplayMath(text) => seq!['\n'] + text@,
        MdEvent::Html(text) => seq!['\n'] + text@,
        MdEvent::InlineHtml(text) => seq!['\n'] + text@,
        MdEvent::FootnoteReference(text) => seq!['\n'] + text@,
        _ => Seq::empty(),
    }
}

/// The plain text of a sequence of events: what each contributes, in order.
pub open spec fn flatten(events: Seq<MdEvent>) -> Seq<char>
    decreases events.len(),
{
    if events.len() == 0 {
        Seq::empty()
    } else {
        flatten(events.drop_last()) + event_text(events.last())
    }
}

/// Appends a line break and then `text`.
fn write_line(out: &mut String, text: &str)
    ensures
        final(out)@ == old(out)@ + seq!['\n'] + text@,
{
    proof {
        reveal_strlit("\n");
    }
    out.append("\n");
    out.append(text);
    assert(out@ =~= old(out)@ + seq!['\n'] + text@);
}

/// Appends a space and then `text`.
fn write_word(out: &mut String, text: &str)
    ensures
        final(out)@ == old(out)@ + seq![' '] + text@,
{
    proof {
        reveal_strlit(" ");
    }
    out.append(" ");
    out.append(text);
    assert(out@ =~= old(out)@ + seq![' '] + text@);
}

fn write_heading(
    out: &mut String,
    id: &Option<String>,
    classes: &Vec<String>,
    attrs: &Vec<(String, Option<String>)>,
)
    ensures
        final(out)@ == old(out)@ + (seq!['\n'] + optional_text(*id) + classes_text(classes@)
            + attrs_text(attrs@)),
{
    match id {
        Some(id) => write_line(out, id.as_str()),
        None => write_line(out, ""),
    }
    proof {
        reveal_strlit("");
    }
    let ghost head = old(out)@ + seq!['\n'] + optional_text(*id);
    assert(out@ =~= head);
    let mut i: usize = 0;
    assert(classes@.take(0) =~= Seq::<String>::empty());
    assert(out@ =~= head + classes_text(classes@.take(0)));
    while i < classes.len()
        invariant
            i <= classes.len(),
            out@ == head + classes_text(classes@.take(i as int)),
        decreases classes.len() - i,
    {
        proof {
            let done = classes@.take(i + 1);
            assert(done.drop_last() =~= classes@.take(i as int));
            assert(done.last() == classes@[i as int]);
        }
        write_word(out, classes[i].as_str());
        assert(out@ =~= head + classes_text(classes@.take(i + 1)));
        i += 1;
    }
    assert(classes@.take(i as int) =~= classes@);
    let ghost middle = head + classes_text(classes@);
    let mut k: usize = 0;
    assert(attrs@.take(0) =~= Seq::<(String, Option<String>)>::empty());
    assert(out@ =~= middle + attrs_text(attrs@.take(0)));
    while k < attrs.len()
        invariant
            k <= attrs.len(),
            out@ == middle + attrs_text(attrs@.take(k as int)),
        decreases attrs.len() - k,
    {
        proof {
            let done = attrs@.take(k + 1);
            assert(done.drop_last() =~= attrs@.take(k as int));
            assert(done.last() == attrs@[k as int]);
        }
        let attr = &attrs[k];
        write_word(out, attr.0.as_str());
        match &attr.1 {
            Some(value) => write_word(out, value.as_str()),
            None => {},
        }
        assert(out@ =~= middle + attrs_text(attrs@.take(k + 1)));
        k += 1;
    }
    assert(attrs@.take(k as int) =~= attrs@);
    assert(out@ =~= old(out)@ + (seq!['\n'] + optional_text(*id) + classes_text(classes@)
        + attrs_text(attrs@)));
}

/// Appends what the start of an element contributes.
pub fn write_tag(out: &mut String, tag: &TagKind)
    ensures
        final(out)@ == old(out)@ + tag_text(*tag),
{
    match tag {
        TagKind::Heading { level: _, id, classes, attrs } => {
            write_heading(out, id, classes, attrs);
        },
        TagKind::CodeBlock { fenced: true, language: Some(language) } => {
            write_line(out, language.as_str());
            assert(out@ =~= old(out)@ + tag_text(*tag));
        },
        TagKind::FootnoteDefinition(label) => {
            write_line(out, label.as_str());
            assert(out@ =~= old(out)@ + tag_text(*tag));
        },
        TagKind::Link { url, title, id } => {
            write_line(out, url.as_str());
            write_word(out, title.as_str());
            write_word(out, id.as_str());
            assert(out@ =~= old(out)@ + tag_text(*tag));
        },
        TagKind::Image { url, title, id } => {
            write_line(out, url.as_str());
            write_word(out, title.as_str());
            write_word(out, id.as_str());
            assert(out@ =~= old(out)@ + tag_text(*tag));
        },
        _ => {
            assert(out@ =~= old(out)@ + tag_text(*tag));
        },
    }
}

/// Appends what an event contributes.
pub fn write_event(out: &mut String, event: &MdEvent)
    ensures
        final(out)@ == old(out)@ + event_text(*event),
{
    match event {
        MdEvent::Start(tag) => write_tag(out, tag),
        MdEvent::Text(text)
        | MdEvent::Code(text)
        | MdEvent::InlineMath(text)
        | MdEvent::DisplayMath(text)
        | MdEvent::Html(text)
        | MdEvent::InlineHtml(text)
        | MdEvent::FootnoteReference(text) => {
            write_line(out, text.as_str());
            assert(out@ =~= old(out)@ + event_text(*event));
        },
        _ => {
            assert(out@ =~= old(out)@ + event_text(*event));
        },
    }
}

/// The plain text of a sequence of events.
pub fn content_text(events: &Vec<MdEvent>) -> (out: String)
    ensures
        out@ == flatten(events@),
{
    let mut out = String::new();
    let mut i: usize = 0;
    assert(events@.take(0) =~= Seq::<MdEvent>::empty());
    while i < events.len()
        invariant
            i <= events.len(),
            out@ == flatten(events@.take(i as int)),
        decreases events.len() - i,
    {
        proof {
            let done = events@.take(i + 1);
            assert(done.drop_last() =~= events@.take(i as int));
            assert(done.last() == events@[i as int]);
        }
        write_event(&mut out, &events[i]);
        i += 1;
    }
    assert(events@.take(i as int) =~= events@);
    out
}

} // verus!
