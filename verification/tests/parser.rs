use std::collections::HashSet;

use note::content::{tokenize, EndKind, MdEvent, TagKind};
use note::date::{parse_date, Date};
use note::flatten::content_text;
use note::front_matter::front_matter_parser;
use note::language::Language;
use note::metadata::{decode, parse_front_matter, FrontMatterError};
use note::parser::{front_matter, parse, Error, Markdown};
use note::yaml::{load_documents, Value};

const FULL: &str = r#"---
title: "foo"
# comment
description: "bar"
tags: ["tag1", "tag1", "tag2"]
created: "1970-01-01"
updated: "1970-01-01"
released: false
language: en
---

# Hello world"#;

fn tag_set(tags: &[String]) -> HashSet<String> {
    tags.iter().cloned().collect()
}

fn epoch() -> Date {
    Date { year: 1970, month: 1, day: 1 }
}

fn note_with(fields: &str) -> String {
    format!("---\n{fields}---\nbody\n")
}

fn flaw_of(fields: &str) -> FrontMatterError {
    match parse(&note_with(fields)) {
        Err(Error::FrontMatter(error)) => error,
        other => panic!("expected a metadata error, got {other:?}"),
    }
}

#[test]
fn should_parse_front_matter() {
    let result = parse_front_matter(FULL).unwrap();

    assert_eq!(result.title, "foo");
    assert_eq!(result.description, "bar");
    assert_eq!(
        tag_set(&result.tags),
        HashSet::from_iter(["tag1".to_string(), "tag2".to_string()])
    );
    assert_eq!(result.created, epoch());
    assert_eq!(result.updated, Some(epoch()));
    assert!(!result.released);
    assert_eq!(result.language, Some(Language::Eng));
}

#[test]
fn mod_should_parse_front_matter() {
    let result = parse_front_matter(FULL).unwrap();

    assert_eq!(result.title, "foo");
    assert_eq!(result.description, "bar");
    assert_eq!(
        tag_set(&result.tags),
        HashSet::from_iter(["tag1".to_string(), "tag2".to_string()])
    );
    assert_eq!(result.created, epoch());
    assert_eq!(result.updated, Some(epoch()));
    assert!(!result.released);
    assert_eq!(result.language, Some(Language::Eng));
}

#[test]
fn parser_should_parse_front_matter() {
    let markdown = r#"---
title: "some"
---

# Hello world"#;

    let result = front_matter_parser(markdown);

    assert_eq!(result, Some(("\n# Hello world", "title: \"some\"\n")));
}

#[test]
fn populated_note_keeps_every_field() {
    let note = parse(FULL).unwrap();
    assert_eq!(note.title, "foo");
    assert_eq!(note.description, "bar");
    assert_eq!(note.tags, vec!["tag1".to_string(), "tag2".to_string()]);
    assert_eq!(note.created, epoch());
    assert_eq!(note.updated, Some(epoch()));
    assert!(!note.released);
    assert_eq!(note.language, Some(Language::Eng));
}

#[test]
fn missing_opening_delimiter() {
    assert_eq!(parse("title: \"foo\"\n---\n"), Err(Error::MissingFrontmatter));
    assert_eq!(parse(""), Err(Error::MissingFrontmatter));
    assert_eq!(parse("--\n---\n"), Err(Error::MissingFrontmatter));
    assert_eq!(parse(" ---\ntitle: a\n---\n"), Err(Error::MissingFrontmatter));
    assert_eq!(parse("---title: a\n---\n"), Err(Error::MissingFrontmatter));
    assert_eq!(parse("---"), Err(Error::MissingFrontmatter));
}

#[test]
fn missing_closing_delimiter() {
    assert_eq!(parse("---\ntitle: \"foo\"\n"), Err(Error::MissingFrontmatter));
    assert_eq!(parse("---\ntitle: \"foo\"\n--\n"), Err(Error::MissingFrontmatter));
    assert_eq!(parse("---\n"), Err(Error::MissingFrontmatter));
}

#[test]
fn delimiter_inside_a_line_does_not_close() {
    assert_eq!(front_matter_parser("---\ntitle: a --- b\n"), None);
    assert_eq!(front_matter_parser("---\ntitle: a\n--- \nrest"), None);
    assert_eq!(front_matter_parser("---\ntitle: a\n ---\nrest"), None);
    assert_eq!(front_matter_parser("---\ntitle: a\n----\nrest"), None);
    assert_eq!(
        front_matter_parser("---\ntitle: a --- b\n---\nrest"),
        Some(("rest", "title: a --- b\n"))
    );
}

#[test]
fn closing_delimiter_at_the_end_of_input() {
    assert_eq!(front_matter_parser("---\ntitle: a\n---"), Some(("", "title: a\n")));
    assert_eq!(front_matter_parser("---\ntitle: a\n---\n"), Some(("", "title: a\n")));
}

#[test]
fn empty_metadata_block_is_found() {
    assert_eq!(front_matter_parser("---\n---\nbody"), Some(("body", "")));
    assert_eq!(
        parse("---\n---\nbody"),
        Err(Error::FrontMatter(FrontMatterError::Empty))
    );
}

#[test]
fn carriage_returns_end_delimiter_lines() {
    assert_eq!(
        front_matter_parser("---\r\ntitle: a\r\n---\r\nbody"),
        Some(("body", "title: a\r\n"))
    );
    assert_eq!(front_matter_parser("---\rtitle: a\n---\n"), None);
}

#[test]
fn text_beyond_ascii_is_split_on_character_boundaries() {
    assert_eq!(
        front_matter_parser("---\n\u{e9}t\u{e9}: \u{4e16}\u{754c}\n---\n\u{1f600} body"),
        Some(("\u{1f600} body", "\u{e9}t\u{e9}: \u{4e16}\u{754c}\n"))
    );
}

#[test]
fn missing_title_is_reported_first() {
    assert_eq!(
        flaw_of("created: \"1970-01-01\"\n"),
        FrontMatterError::FieldMissing("title")
    );
    assert_eq!(
        flaw_of("description: \"bar\"\ncreated: \"1970-01-01\"\n"),
        FrontMatterError::FieldMissing("title")
    );
}

#[test]
fn missing_description_and_created() {
    assert_eq!(
        flaw_of("title: foo\n"),
        FrontMatterError::FieldMissing("description")
    );
    assert_eq!(
        flaw_of("title: foo\ndescription: bar\n"),
        FrontMatterError::FieldMissing("created")
    );
}

#[test]
fn ill_typed_fields() {
    assert_eq!(
        flaw_of("title: 3\n"),
        FrontMatterError::FieldType { name: "title", expected: "string" }
    );
    assert_eq!(
        flaw_of("title: foo\ndescription: [a]\n"),
        FrontMatterError::FieldType { name: "description", expected: "string" }
    );
    assert_eq!(
        flaw_of("title: foo\ndescription: bar\ntags: nope\n"),
        FrontMatterError::FieldType { name: "tags", expected: "array" }
    );
    assert_eq!(
        flaw_of("title: foo\ndescription: bar\ntags: [a, 3]\n"),
        FrontMatterError::FieldType { name: "tags", expected: "string" }
    );
    assert_eq!(
        flaw_of("title: foo\ndescription: bar\ncreated: 1970\n"),
        FrontMatterError::FieldType { name: "created", expected: "string" }
    );
    assert_eq!(
        flaw_of("title: foo\ndescription: bar\ncreated: \"1970-01-01\"\nupdated: true\n"),
        FrontMatterError::FieldType { name: "updated", expected: "string" }
    );
    assert_eq!(
        flaw_of("title: foo\ndescription: bar\ncreated: \"1970-01-01\"\nreleased: \"yes\"\n"),
        FrontMatterError::FieldType { name: "released", expected: "bool" }
    );
    assert_eq!(
        flaw_of("title: foo\ndescription: bar\ncreated: \"1970-01-01\"\nlanguage: 3\n"),
        FrontMatterError::FieldType { name: "language", expected: "string" }
    );
}

#[test]
fn earlier_flaw_wins() {
    assert_eq!(
        flaw_of("title: foo\ndescription: bar\ncreated: \"nope\"\nreleased: 3\nlanguage: fr\n"),
        match flaw_of("title: foo\ndescription: bar\ncreated: \"nope\"\n") {
            error @ FrontMatterError::Date { name: "created", .. } => error,
            other => panic!("expected a date error, got {other:?}"),
        }
    );
    assert_eq!(
        flaw_of("title: foo\ndescription: bar\ncreated: \"1970-01-01\"\nreleased: 3\nlanguage: fr\n"),
        FrontMatterError::FieldType { name: "released", expected: "bool" }
    );
}

#[test]
fn duplicate_tags_collapse() {
    let fields = "title: foo\ndescription: bar\ntags: [\"a\", \"a\", \"b\"]\ncreated: \"1970-01-01\"\n";
    let note = parse(&note_with(fields)).unwrap();
    assert_eq!(note.tags.len(), 2);
    assert_eq!(note.tags, vec!["a".to_string(), "b".to_string()]);
    assert_eq!(
        tag_set(&note.tags),
        HashSet::from_iter(["a".to_string(), "b".to_string()])
    );
}

#[test]
fn tags_keep_the_order_of_first_occurrence() {
    let fields = "title: foo\ndescription: bar\ntags: [c, a, c, b, a]\ncreated: \"1970-01-01\"\n";
    let note = parse(&note_with(fields)).unwrap();
    assert_eq!(note.tags, vec!["c".to_string(), "a".to_string(), "b".to_string()]);
}

#[test]
fn absent_optional_fields_take_their_defaults() {
    let note = parse(&note_with("title: foo\ndescription: bar\ncreated: \"2024-02-29\"\n")).unwrap();
    assert!(note.tags.is_empty());
    assert_eq!(note.created, Date { year: 2024, month: 2, day: 29 });
    assert_eq!(note.updated, None);
    assert!(!note.released);
    assert_eq!(note.language, None);
}

#[test]
fn released_and_language_are_read() {
    let fields = "title: foo\ndescription: bar\ncreated: \"1970-01-01\"\nreleased: true\nlanguage: it\n";
    let note = parse(&note_with(fields)).unwrap();
    assert!(note.released);
    assert_eq!(note.language, Some(Language::It));
}

#[test]
fn unknown_keys_are_ignored() {
    let fields = "extra: 1\ntitle: foo\nother: [x]\ndescription: bar\ncreated: \"1970-01-01\"\n";
    let note = parse(&note_with(fields)).unwrap();
    assert_eq!(note.title, "foo");
    assert_eq!(note.description, "bar");
}

#[test]
fn created_date_is_parsed() {
    let note = parse(&note_with("title: foo\ndescription: bar\ncreated: \"1970-01-01\"\n")).unwrap();
    assert_eq!(note.created, epoch());
    assert_eq!(parse_date("1970-01-01"), Ok(epoch()));
    assert_eq!(parse_date("2023-12-31"), Ok(Date { year: 2023, month: 12, day: 31 }));
}

#[test]
fn invalid_dates_are_rejected() {
    match flaw_of("title: foo\ndescription: bar\ncreated: \"not-a-date\"\n") {
        FrontMatterError::Date { name, .. } => assert_eq!(name, "created"),
        other => panic!("expected a date error, got {other:?}"),
    }
    match flaw_of("title: foo\ndescription: bar\ncreated: \"1970-01-01\"\nupdated: \"1970-02-30\"\n") {
        FrontMatterError::Date { name, .. } => assert_eq!(name, "updated"),
        other => panic!("expected a date error, got {other:?}"),
    }
    assert!(parse_date("not-a-date").is_err());
    assert!(parse_date("1970/01/01").is_err());
    assert!(parse_date("").is_err());
}

#[test]
fn unknown_language_is_rejected() {
    match flaw_of("title: foo\ndescription: bar\ncreated: \"1970-01-01\"\nlanguage: \"fr\"\n") {
        FrontMatterError::Language(error) => {
            assert_eq!(error.token(), "fr");
            assert_eq!(error.message(), "invalid language fr");
        }
        other => panic!("expected a language error, got {other:?}"),
    }
}

#[test]
fn language_tokens() {
    assert_eq!(Language::from_str("en").unwrap(), Language::Eng);
    assert_eq!(Language::from_str("it").unwrap(), Language::It);
    assert_eq!(Language::from_str("EN").unwrap_err().token(), "EN");
    assert_eq!(Language::from_str("").unwrap_err().token(), "");
    assert_eq!(Language::from_str("eng").unwrap_err().token(), "eng");
}

#[test]
fn malformed_yaml_is_rejected() {
    match flaw_of("title: \"foo\n") {
        FrontMatterError::Yaml(_) => {}
        other => panic!("expected a scan error, got {other:?}"),
    }
    assert!(load_documents("a: [1, 2").is_err());
}

#[test]
fn second_document_must_be_null() {
    let two = "title: foo\ndescription: bar\ncreated: \"1970-01-01\"\n---\nmore: 1\n";
    assert_eq!(parse_front_matter(two), Err(FrontMatterError::MultipleDoc));
    let null = "title: foo\ndescription: bar\ncreated: \"1970-01-01\"\n---\n# nothing\n";
    assert_eq!(parse_front_matter(null).unwrap().title, "foo");
}

#[test]
fn document_must_be_a_mapping() {
    assert_eq!(flaw_of("- a\n- b\n"), FrontMatterError::NotAMap);
    assert_eq!(flaw_of("just text\n"), FrontMatterError::NotAMap);
    assert_eq!(decode(&vec![Value::Integer(3)]), Err(FrontMatterError::NotAMap));
    assert_eq!(decode(&vec![]), Err(FrontMatterError::Empty));
}

#[test]
fn decode_reads_a_mapping_given_as_values() {
    let text = |s: &str| Value::String(s.to_string());
    let doc = Value::Hash(vec![
        (text("description"), text("bar")),
        (text("title"), text("foo")),
        (text("created"), text("2001-02-03")),
        (text("tags"), Value::Array(vec![text("x"), text("x")])),
        (text("released"), Value::Boolean(true)),
    ]);
    let metadata = decode(&vec![doc, Value::Null]).unwrap();
    assert_eq!(metadata.title, "foo");
    assert_eq!(metadata.description, "bar");
    assert_eq!(metadata.tags, vec!["x".to_string()]);
    assert_eq!(metadata.created, Date { year: 2001, month: 2, day: 3 });
    assert!(metadata.released);
    assert_eq!(
        decode(&vec![Value::Hash(vec![]), Value::Integer(1)]),
        Err(FrontMatterError::MultipleDoc)
    );
}

#[test]
fn loader_copies_the_tree() {
    let documents = load_documents("a: [1, true, ~, 2.5, x]\nb: {c: d}\n").unwrap();
    let text = |s: &str| Value::String(s.to_string());
    assert_eq!(
        documents,
        vec![Value::Hash(vec![
            (
                text("a"),
                Value::Array(vec![
                    Value::Integer(1),
                    Value::Boolean(true),
                    Value::Null,
                    Value::Real("2.5".to_string()),
                    text("x"),
                ])
            ),
            (text("b"), Value::Hash(vec![(text("c"), text("d"))])),
        ])]
    );
    assert_eq!(load_documents("").unwrap(), vec![]);
}

#[test]
fn front_matter_hands_back_the_rest() {
    let (metadata, rest) = front_matter("---\ntitle: foo\ndescription: bar\ncreated: \"1970-01-01\"\n---\n\n# Hello").unwrap();
    assert_eq!(metadata.title, "foo");
    assert_eq!(rest, "\n# Hello");
}

#[test]
fn end_to_end() {
    let input = "---\ntitle: \"foo\"\ndescription: \"bar\"\ncreated: \"1970-01-01\"\n---\n\n# Hello\n";
    let note = parse(input).unwrap();
    assert_eq!(note.title, "foo");
    assert_eq!(note.description, "bar");
    assert!(note.tags.is_empty());
    assert_eq!(note.created, epoch());
    assert!(!note.released);
    assert_eq!(note.language, None);
    assert_eq!(
        note.content,
        vec![
            MdEvent::Start(TagKind::Heading {
                level: 1,
                id: None,
                classes: vec![],
                attrs: vec![],
            }),
            MdEvent::Text("Hello".to_string()),
            MdEvent::End(EndKind::Heading(1)),
        ]
    );
    assert_eq!(note.content_into_string(), "\n\nHello");
}

fn heading(id: Option<&str>, classes: &[&str], attrs: &[(&str, Option<&str>)]) -> MdEvent {
    MdEvent::Start(TagKind::Heading {
        level: 2,
        id: id.map(str::to_string),
        classes: classes.iter().map(|c| c.to_string()).collect(),
        attrs: attrs
            .iter()
            .map(|(k, v)| (k.to_string(), v.map(str::to_string)))
            .collect(),
    })
}

#[test]
fn flatten_heading() {
    let events = vec![heading(
        Some("top"),
        &["big", "red"],
        &[("lang", Some("en")), ("hidden", None)],
    )];
    assert_eq!(content_text(&events), "\ntop big red lang en hidden");
    assert_eq!(content_text(&vec![heading(None, &[], &[])]), "\n");
    assert_eq!(content_text(&vec![heading(None, &["c"], &[])]), "\n c");
}

#[test]
fn flatten_tags_with_text() {
    let fenced = MdEvent::Start(TagKind::CodeBlock { fenced: true, language: Some("rust".to_string()) });
    let indented = MdEvent::Start(TagKind::CodeBlock { fenced: false, language: None });
    let footnote = MdEvent::Start(TagKind::FootnoteDefinition("note1".to_string()));
    let link = MdEvent::Start(TagKind::Link {
        url: "https://example.com".to_string(),
        title: "Example".to_string(),
        id: "ex".to_string(),
    });
    let image = MdEvent::Start(TagKind::Image {
        url: "a.png".to_string(),
        title: "".to_string(),
        id: "".to_string(),
    });
    assert_eq!(content_text(&vec![fenced]), "\nrust");
    assert_eq!(content_text(&vec![indented]), "");
    assert_eq!(content_text(&vec![footnote]), "\nnote1");
    assert_eq!(content_text(&vec![link]), "\nhttps://example.com Example ex");
    assert_eq!(content_text(&vec![image]), "\na.png  ");
}

#[test]
fn flatten_text_events() {
    let events = vec![
        MdEvent::Text("a".to_string()),
        MdEvent::Code("b".to_string()),
        MdEvent::Html("<i>".to_string()),
        MdEvent::InlineHtml("<b>".to_string()),
        MdEvent::InlineMath("x".to_string()),
        MdEvent::DisplayMath("y".to_string()),
        MdEvent::FootnoteReference("f".to_string()),
    ];
    assert_eq!(content_text(&events), "\na\nb\n<i>\n<b>\nx\ny\nf");
}

#[test]
fn flatten_skips_structure() {
    let events = vec![
        MdEvent::Start(TagKind::Paragraph),
        MdEvent::Start(TagKind::Emphasis),
        MdEvent::Start(TagKind::Superscript),
        MdEvent::Start(TagKind::Subscript),
        MdEvent::Start(TagKind::List),
        MdEvent::Start(TagKind::Table),
        MdEvent::End(EndKind::Paragraph),
        MdEvent::End(EndKind::Link),
        MdEvent::SoftBreak,
        MdEvent::HardBreak,
        MdEvent::Rule,
        MdEvent::TaskListMarker(true),
    ];
    assert_eq!(content_text(&events), "");
    assert_eq!(content_text(&vec![]), "");
}

#[test]
fn flatten_keeps_text_as_it_is() {
    let events = vec![
        MdEvent::Text("  Two  Spaces ".to_string()),
        MdEvent::Text("  Two  Spaces ".to_string()),
        MdEvent::Text("UPPER".to_string()),
    ];
    assert_eq!(content_text(&events), "\n  Two  Spaces \n  Two  Spaces \nUPPER");
}

#[test]
fn flatten_is_the_same_for_the_same_note() {
    let first: Markdown = parse(FULL).unwrap();
    let second: Markdown = parse(FULL).unwrap();
    assert_eq!(first, second);
    assert_eq!(first.content_into_string(), second.content_into_string());
    assert_eq!(first.content_into_string(), "\n\nHello world");
}

#[test]
fn flatten_joins_runs_in_order() {
    let first = vec![MdEvent::Text("a".to_string()), MdEvent::Rule];
    let second = vec![MdEvent::Code("b".to_string())];
    let mut all = first.clone();
    all.extend(second.clone());
    assert_eq!(
        content_text(&all),
        format!("{}{}", content_text(&first), content_text(&second))
    );
}

#[test]
fn tokenize_reads_the_extensions() {
    let events = tokenize("~~gone~~ and `code`\n\n- [x] done\n");
    assert_eq!(
        events,
        vec![
            MdEvent::Start(TagKind::Paragraph),
            MdEvent::Start(TagKind::Strikethrough),
            MdEvent::Text("gone".to_string()),
            MdEvent::End(EndKind::Strikethrough),
            MdEvent::Text(" and ".to_string()),
            MdEvent::Code("code".to_string()),
            MdEvent::End(EndKind::Paragraph),
            MdEvent::Start(TagKind::List),
            MdEvent::Start(TagKind::Item),
            MdEvent::TaskListMarker(true),
            MdEvent::Text("done".to_string()),
            MdEvent::End(EndKind::Item),
            MdEvent::End(EndKind::List),
        ]
    );
    assert_eq!(tokenize(""), vec![]);
}

#[test]
fn tokenize_reads_links_code_blocks_and_headings() {
    let events = tokenize("## Title {#top .big key=val}\n\n[text](https://e.org \"T\")\n\n```rust\nfn x() {}\n```\n\n    indented\n\n---\n");
    assert_eq!(
        events[0],
        MdEvent::Start(TagKind::Heading {
            level: 2,
            id: Some("top".to_string()),
            classes: vec!["big".to_string()],
            attrs: vec![("key".to_string(), Some("val".to_string()))],
        })
    );
    assert_eq!(events[2], MdEvent::End(EndKind::Heading(2)));
    assert!(events.contains(&MdEvent::Start(TagKind::Link {
        url: "https://e.org".to_string(),
        title: "T".to_string(),
        id: "".to_string(),
    })));
    assert!(events.contains(&MdEvent::End(EndKind::Link)));
    assert!(events.contains(&MdEvent::Start(TagKind::CodeBlock {
        fenced: true,
        language: Some("rust".to_string()),
    })));
    assert!(events.contains(&MdEvent::Start(TagKind::CodeBlock { fenced: false, language: None })));
    assert!(events.contains(&MdEvent::End(EndKind::CodeBlock)));
    assert_eq!(events.last(), Some(&MdEvent::Rule));
}

#[test]
fn tokenize_reads_tables_footnotes_images_and_html() {
    let body = "| a | b |\n|---|---|\n| 1 | 2 |\n\nnote[^1] ![alt](i.png) <b>x</b>\n\n[^1]: the note\n\n<div>\nraw\n</div>\n";
    let events = tokenize(body);
    for expected in [
        MdEvent::Start(TagKind::Table),
        MdEvent::Start(TagKind::TableHead),
        MdEvent::Start(TagKind::TableRow),
        MdEvent::Start(TagKind::TableCell),
        MdEvent::End(EndKind::Table),
        MdEvent::FootnoteReference("1".to_string()),
        MdEvent::Start(TagKind::FootnoteDefinition("1".to_string())),
        MdEvent::End(EndKind::FootnoteDefinition),
        MdEvent::Start(TagKind::Image {
            url: "i.png".to_string(),
            title: "".to_string(),
            id: "".to_string(),
        }),
        MdEvent::End(EndKind::Image),
        MdEvent::InlineHtml("<b>".to_string()),
        MdEvent::Start(TagKind::HtmlBlock),
        MdEvent::End(EndKind::HtmlBlock),
    ] {
        assert!(events.contains(&expected), "missing {expected:?} in {events:?}");
    }
}

#[test]
fn tokenize_reads_quotes_math_and_emphasis() {
    let events = tokenize("> *a* **b** $x$ ^up^\n\nline  \nbreak\nsoft\n");
    for expected in [
        MdEvent::Start(TagKind::BlockQuote),
        MdEvent::End(EndKind::BlockQuote),
        MdEvent::Start(TagKind::Emphasis),
        MdEvent::End(EndKind::Emphasis),
        MdEvent::Start(TagKind::Strong),
        MdEvent::End(EndKind::Strong),
        MdEvent::InlineMath("x".to_string()),
        MdEvent::Start(TagKind::Superscript),
        MdEvent::End(EndKind::Superscript),
        MdEvent::HardBreak,
        MdEvent::SoftBreak,
    ] {
        assert!(events.contains(&expected), "missing {expected:?} in {events:?}");
    }
}
