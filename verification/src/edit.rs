//! Where a note is kept.

use vstd::prelude::*;
use vstd::string::*;

verus! {

/// Whether `c` is white space in the sense of Unicode.
pub uninterp spec fn is_white_space(c: char) -> bool;

/// `c` in lower case where it is an ASCII capital letter, `c` itself
/// otherwise.
pub open spec fn ascii_lower(c: char) -> char {
    if 'A' <= c <= 'Z' {
        ((c as u32) + 32) as char
    } else {
        c
    }
}

/// `char::is_whitespace`: whether the character has the Unicode property
/// `White_Space`, which is a property of the character alone.
#[verifier::external_body]
fn is_whitespace(c: char) -> (white: bool)
    ensures
        white == is_white_space(c),
{
    c.is_whitespace()
}

/// `char::to_ascii_lowercase`: the letters `A` to `Z` become `a` to `z`, every
/// other character stays as it is.
#[verifier::external_body]
fn to_ascii_lowercase(c: char) -> (lower: char)
    ensures
        lower == ascii_lower(c),
{
    c.to_ascii_lowercase()
}

/// `String::push`: appends one character.
#[verifier::external_body]
fn push_char(text: &mut String, c: char)
    ensures
        final(text)@ == old(text)@.push(c),
{
    text.push(c)
}

/// The character that stands for `c` in the name of a note's file.
pub open spec fn file_char(c: char) -> char {
    if is_white_space(c) {
        '_'
    } else {
        ascii_lower(c)
    }
}

/// The name of a note's file for the name the user gave: white space becomes
/// an underscore and ASCII capitals become small letters.
pub open spec fn file_name(path: Seq<char>) -> Seq<char> {
    path.map_values(|c: char| file_char(c))
}

/// The text is empty or white space throughout.
pub open spec fn is_blank(text: Seq<char>) -> bool {
    forall|i: int| 0 <= i < text.len() ==> is_white_space(#[trigger] text[i])
}

/// Whether the text is empty or white space throughout.
pub fn blank(text: &str) -> (blank: bool)
    ensures
        blank == is_blank(text@),
{
    for chr in iter: text.chars()
        invariant
            iter.seq() == text@,
            forall|i: int| 0 <= i < iter.index() ==> is_white_space(#[trigger] text@[i]),
    {
        assert(chr == text@[iter.index() as int]);
        if !is_whitespace(chr) {
            return false;
        }
    }
    true
}

/// Where a note is kept: the directory of the notes and, below it, the note's
/// own path, to which the extension `md` is still to be added.
#[derive(Debug, Clone, PartialEq, Eq)]
pub struct NotePath {
    pub base_path: String,
    pub path: String,
}

/// The character that stands for `chr` in the name of a note's file, given
/// whether `chr` is white space.
pub fn file_char_of(chr: char, white: bool) -> (mapped: char)
    ensures
        mapped == if white {
            '_'
        } else {
            ascii_lower(chr)
        },
{
    if white {
        '_'
    } else {
        to_ascii_lowercase(chr)
    }
}

/// Works out where the note that the user calls `path` is kept.
pub fn get_path(base_path: &str, path: &str) -> (file_path: NotePath)
    ensures
        file_path.base_path@ == base_path@,
        file_path.path@ == file_name(path@),
{
    let mut path_string = String::new();
    for chr in iter: path.chars()
        invariant
            iter.seq() == path@,
            path_string@ == file_name(path@.take(iter.index() as int)),
    {
        assert(chr == path@[iter.index() as int]);
        assert(file_name(path@.take(iter.index() + 1)) =~= file_name(
            path@.take(iter.index() as int),
        ).push(file_char(chr)));
        push_char(&mut path_string, file_char_of(chr, is_whitespace(chr)));
    }
    assert(path@.take(path@.len() as int) =~= path@);
    NotePath { base_path: String::from_str(base_path), path: path_string }
}

} // verus!
