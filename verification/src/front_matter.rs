//! Locating the metadata block at the top of a note.
//!
//! A note starts with a line that holds exactly `---`. The metadata runs from
//! the next line up to the first later line that again holds exactly `---`;
//! the body is whatever follows that closing line.

use vstd::prelude::*;
use vstd::string::*;
use vstd::utf8::*;
use crate::text::{lemma_boundary_after_ascii, lemma_boundary_at_ascii, lemma_chars_of_bytes};

verus! {

/// The byte `-`, three of which make a delimiter.
pub const DASH: u8 = 45;

/// The byte `\n`.
pub const LINE_FEED: u8 = 10;

/// The byte `\r`.
pub const CARRIAGE_RETURN: u8 = 13;

/// The three bytes starting at `at` are the delimiter `---`.
pub open spec fn delimiter_at(bytes: Seq<u8>, at: int) -> bool {
    &&& 0 <= at
    &&& at + 3 <= bytes.len()
    &&& bytes[at] == DASH
    &&& bytes[at + 1] == DASH
    &&& bytes[at + 2] == DASH
}

/// Length of the line terminator (`\n` or `\r\n`) starting at `at`, or 0 when
/// there is none.
pub open spec fn line_ending_len(bytes: Seq<u8>, at: int) -> int {
    if 0 <= at < bytes.len() && bytes[at] == LINE_FEED {
        1
    } else if 0 <= at && at + 1 < bytes.len() && bytes[at] == CARRIAGE_RETURN && bytes[at + 1]
        == LINE_FEED {
        2
    } else {
        0
    }
}

/// Length of the opening delimiter line, terminator included, or 0 when the
/// text does not start with one.
pub open spec fn opening_len(bytes: Seq<u8>) -> int {
    if delimiter_at(bytes, 0) && line_ending_len(bytes, 3) > 0 {
        3 + line_ending_len(bytes, 3)
    } else {
        0
    }
}

/// `at` is where a line begins, for a scan that started at `from`.
pub open spec fn line_start(bytes: Seq<u8>, from: int, at: int) -> bool {
    at == from || (from < at <= bytes.len() && bytes[at - 1] == LINE_FEED)
}

/// A closing delimiter line begins at `at`: the delimiter stands at the start
/// of a line and is followed by a line terminator or by the end of the text.
pub open spec fn closes_at(bytes: Seq<u8>, from: int, at: int) -> bool {
    &&& from <= at
    &&& line_start(bytes, from, at)
    &&& delimiter_at(bytes, at)
    &&& (at + 3 == bytes.len() || line_ending_len(bytes, at + 3) > 0)
}

/// `at` is the first closing delimiter line at or after `from`.
pub open spec fn first_close(bytes: Seq<u8>, from: int, at: int) -> bool {
    &&& closes_at(bytes, from, at)
    &&& forall|q: int| from <= q < at ==> !closes_at(bytes, from, q)
}

/// Where the body begins, given that the closing delimiter line begins at `at`.
pub open spec fn body_start(bytes: Seq<u8>, at: int) -> int {
    at + 3 + line_ending_len(bytes, at + 3)
}

/// The metadata and the body of a note, as bytes, or `None` when the note has
/// no opening delimiter line or no closing one.
pub open spec fn block_of(bytes: Seq<u8>) -> Option<(Seq<u8>, Seq<u8>)> {
    let open = opening_len(bytes);
    if open > 0 && exists|at: int| closes_at(bytes, open, at) {
        let at = choose|at: int| first_close(bytes, open, at);
        Some(
            (bytes.subrange(open, at), bytes.subrange(body_start(bytes, at), bytes.len() as int)),
        )
    } else {
        None
    }
}

/// The metadata and the body of a note, as text.
pub open spec fn block_of_text(text: Seq<char>) -> Option<(Seq<char>, Seq<char>)> {
    match block_of(encode_utf8(text)) {
        Some((metadata, body)) => Some((decode_utf8(metadata), decode_utf8(body))),
        None => None,
    }
}

/// There is at most one first closing delimiter, so naming one pins the block.
pub proof fn lemma_first_close_pins_block(bytes: Seq<u8>, at: int)
    requires
        opening_len(bytes) > 0,
        first_close(bytes, opening_len(bytes), at),
    ensures
        block_of(bytes) == Some(
            (
                bytes.subrange(opening_len(bytes), at),
                bytes.subrange(body_start(bytes, at), bytes.len() as int),
            ),
        ),
{
    let open = opening_len(bytes);
    let chosen = choose|c: int| first_close(bytes, open, c);
    assert(first_close(bytes, open, chosen));
    assert(chosen == at) by {
        if chosen < at {
            assert(!closes_at(bytes, open, chosen));
        }
        if at < chosen {
            assert(!closes_at(bytes, open, at));
        }
    }
}

fn line_ending_length(bytes: &[u8], at: usize) -> (n: usize)
    requires
        at <= bytes.len(),
    ensures
        n == line_ending_len(bytes@, at as int),
{
    if at < bytes.len() && bytes[at] == LINE_FEED {
        1
    } else if bytes.len() - at >= 2 && bytes[at] == CARRIAGE_RETURN && bytes[at + 1] == LINE_FEED {
        2
    } else {
        0
    }
}

fn is_delimiter(bytes: &[u8], at: usize) -> (found: bool)
    requires
        at <= bytes.len(),
    ensures
        found == delimiter_at(bytes@, at as int),
{
    bytes.len() - at >= 3 && bytes[at] == DASH && bytes[at + 1] == DASH && bytes[at + 2] == DASH
}

fn opening_length(bytes: &[u8]) -> (n: usize)
    ensures
        n == opening_len(bytes@),
        n <= bytes.len(),
        n > 0 ==> bytes@[n - 1] == LINE_FEED,
{
    if is_delimiter(bytes, 0) {
        let ending = line_ending_length(bytes, 3);
        if ending > 0 {
            return 3 + ending;
        }
    }
    0
}

fn is_closing(bytes: &[u8], at: usize) -> (found: bool)
    requires
        at <= bytes.len(),
    ensures
        found == (delimiter_at(bytes@, at as int) && (at + 3 == bytes.len() || line_ending_len(
            bytes@,
            at + 3,
        ) > 0)),
{
    if is_delimiter(bytes, at) {
        let end = at + 3;
        end == bytes.len() || line_ending_length(bytes, end) > 0
    } else {
        false
    }
}

/// Scans line by line from `from` for the first closing delimiter line.
fn find_closing(bytes: &[u8], from: usize) -> (found: Option<usize>)
    requires
        from <= bytes.len(),
    ensures
        match found {
            Some(at) => at <= bytes.len() && first_close(bytes@, from as int, at as int),
            None => forall|q: int| !closes_at(bytes@, from as int, q),
        },
{
    let mut at = from;
    loop
        invariant
            from <= at <= bytes.len(),
            line_start(bytes@, from as int, at as int),
            forall|q: int| from <= q < at ==> !closes_at(bytes@, from as int, q),
        decreases bytes.len() - at,
    {
        if is_closing(bytes, at) {
            return Some(at);
        }
        let mut next = at;
        while next < bytes.len() && bytes[next] != LINE_FEED
            invariant
                at <= next <= bytes.len(),
                forall|j: int| at <= j < next ==> bytes@[j] != LINE_FEED,
            decreases bytes.len() - next,
        {
            next += 1;
        }
        if next == bytes.len() {
            assert forall|q: int| !closes_at(bytes@, from as int, q) by {
                if at < q <= bytes.len() {
                    assert(bytes@[q - 1] != LINE_FEED);
                }
            }
            return None;
        }
        assert forall|q: int| from <= q < next + 1 implies !closes_at(bytes@, from as int, q) by {
            if at < q {
                assert(bytes@[q - 1] != LINE_FEED);
            }
        }
        at = next + 1;
    }
}

/// Splits a note into the text after its metadata block and the metadata
/// itself, in that order. Returns `None` when the note does not start with a
/// delimiter line or when no later line closes the block.
pub fn front_matter_parser(markdown: &str) -> (parts: Option<(&str, &str)>)
    ensures
        match parts {
            Some((rest, yaml)) => {
                &&& block_of(markdown.spec_bytes()) == Some((yaml.spec_bytes(), rest.spec_bytes()))
                &&& block_of_text(markdown@) == Some((yaml@, rest@))
            },
            None => block_of(markdown.spec_bytes()) is None && block_of_text(markdown@) is None,
        },
{
    let bytes = markdown.as_bytes();
    let open = opening_length(bytes);
    if open == 0 {
        return None;
    }
    match find_closing(bytes, open) {
        None => None,
        Some(at) => {
            let after = at + 3 + line_ending_length(bytes, at + 3);
            proof {
                lemma_chars_of_bytes(markdown);
                lemma_boundary_at_ascii(bytes@, at as int);
                lemma_first_close_pins_block(bytes@, at as int);
            }
            let (head, tail) = markdown.split_at(at);
            proof {
                lemma_chars_of_bytes(head);
                lemma_chars_of_bytes(tail);
                assert(head.spec_bytes()[open - 1] == bytes@[open - 1]);
                lemma_boundary_after_ascii(head.spec_bytes(), open - 1);
                assert(tail.spec_bytes()[after - at - 1] == bytes@[after - 1]);
                lemma_boundary_after_ascii(tail.spec_bytes(), after - at - 1);
            }
            let (_, yaml) = head.split_at(open);
            let (_, rest) = tail.split_at(after - at);
            proof {
                lemma_chars_of_bytes(yaml);
                lemma_chars_of_bytes(rest);
                assert(yaml.spec_bytes() =~= bytes@.subrange(open as int, at as int));
                assert(rest.spec_bytes() =~= bytes@.subrange(after as int, bytes@.len() as int));
            }
            Some((rest, yaml))
        },
    }
}

} // verus!
