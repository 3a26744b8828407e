//! Putting parsed notes in order for publication.
//!
//! Unreleased notes can be left out. The notes that stay are put newest
//! first by the day of their last update; a note without one comes after
//! every note that has one, and notes that tie keep the order they came in.

use vstd::prelude::*;
use crate::date::Date;
use crate::parser::Markdown;

verus! {

/// A parsed note with the name of its file.
#[derive(Debug, Clone, PartialEq, Eq)]
pub struct File {
    pub file: String,
    pub note: Markdown,
}

/// The update `a` is more recent than the update `b`: a day is more recent
/// than an earlier day and than no day at all.
pub open spec fn newer(a: Option<Date>, b: Option<Date>) -> bool {
    match (a, b) {
        (Some(a), Some(b)) => a.after(b),
        (Some(_), None) => true,
        (None, _) => false,
    }
}

/// `sorted` with `file` put in behind every note that is newer than it, and
/// before the first that is not.
pub open spec fn placed(file: File, sorted: Seq<File>) -> Seq<File>
    decreases sorted.len(),
{
    if sorted.len() > 0 && newer(sorted[0].note.updated, file.note.updated) {
        seq![sorted[0]] + placed(file, sorted.drop_first())
    } else {
        seq![file] + sorted
    }
}

/// The notes to publish, in order: the notes of `files`, without the
/// unreleased ones where `skip_unreleased` is set, newest first.
pub open spec fn published(files: Seq<File>, skip_unreleased: bool) -> Seq<File>
    decreases files.len(),
{
    if files.len() == 0 {
        Seq::empty()
    } else {
        let later = published(files.drop_first(), skip_unreleased);
        if skip_unreleased && !files[0].note.released {
            later
        } else {
            placed(files[0], later)
        }
    }
}

/// No note comes before a newer one.
pub open spec fn newest_first(files: Seq<File>) -> bool {
    forall|i: int, j: int|
        0 <= i < j < files.len() ==> !newer(
            #[trigger] files[j].note.updated,
            #[trigger] files[i].note.updated,
        )
}

fn is_newer(a: &Option<Date>, b: &Option<Date>) -> (is_newer: bool)
    ensures
        is_newer == newer(*a, *b),
{
    match (a, b) {
        (Some(a), Some(b)) => a.is_after(b),
        (Some(_), None) => true,
        (None, _) => false,
    }
}

/// Puts `file` into `sorted` behind every note that is newer than it.
fn place(sorted: &mut Vec<File>, file: File)
    ensures
        final(sorted)@ == placed(file, old(sorted)@),
{
    let ghost before = sorted@;
    let mut at: usize = 0;
    assert(before.skip(0) =~= before);
    assert(before.take(0) + placed(file, before) =~= placed(file, before));
    while at < sorted.len() && is_newer(&sorted[at].note.updated, &file.note.updated)
        invariant
            at <= sorted.len(),
            sorted@ == before,
            placed(file, before) == before.take(at as int) + placed(file, before.skip(at as int)),
        decreases sorted.len() - at,
    {
        proof {
            let rest = before.skip(at as int);
            assert(rest[0] == before[at as int]);
            assert(rest.drop_first() =~= before.skip(at + 1));
            assert(before.take(at as int) + (seq![rest[0]] + placed(file, rest.drop_first()))
                =~= before.take(at + 1) + placed(file, before.skip(at + 1)));
        }
        at += 1;
    }
    proof {
        let rest = before.skip(at as int);
        if at < before.len() {
            assert(rest[0] == before[at as int]);
        }
        assert(placed(file, rest) == seq![file] + rest);
        assert(before.take(at as int) + (seq![file] + rest) =~= before.insert(at as int, file));
    }
    sorted.insert(at, file);
}

/// Selects the notes to publish and puts them in order.
pub fn arrange(files: Vec<File>, skip_unreleased: bool) -> (arranged: Vec<File>)
    ensures
        arranged@ == published(files@, skip_unreleased),
{
    let ghost all = files@;
    let mut files = files;
    let mut arranged: Vec<File> = Vec::new();
    assert(all.skip(all.len() as int) =~= Seq::<File>::empty());
    while files.len() > 0
        invariant
            files@ == all.take(files@.len() as int),
            files@.len() <= all.len(),
            arranged@ == published(all.skip(files@.len() as int), skip_unreleased),
        decreases files.len(),
    {
        let ghost count = files@.len() as int;
        let file = match files.pop() {
            Some(file) => file,
            None => {
                return arranged;
            },
        };
        proof {
            assert(file == all[count - 1]);
            assert(files@ =~= all.take(count - 1));
            let tail = all.skip(count - 1);
            assert(tail[0] == file);
            assert(tail.drop_first() =~= all.skip(count));
        }
        if !(skip_unreleased && !file.note.released) {
            place(&mut arranged, file);
        }
    }
    assert(all.skip(0) =~= all);
    arranged
}

/// Putting a note in place keeps the notes newest first.
pub proof fn lemma_placed_newest_first(file: File, sorted: Seq<File>)
    requires
        newest_first(sorted),
    ensures
        newest_first(placed(file, sorted)),
        placed(file, sorted).to_multiset() == sorted.to_multiset().insert(file),
        placed(file, sorted).len() == sorted.len() + 1,
        sorted.len() > 0 ==> (placed(file, sorted)[0] == file || placed(file, sorted)[0]
            == sorted[0]),
    decreases sorted.len(),
{
    broadcast use vstd::seq_lib::group_to_multiset_ensures;

    let out = placed(file, sorted);
    if sorted.len() > 0 && newer(sorted[0].note.updated, file.note.updated) {
        let rest = sorted.drop_first();
        assert forall|i: int, j: int| 0 <= i < j < rest.len() implies !newer(
            #[trigger] rest[j].note.updated,
            #[trigger] rest[i].note.updated,
        ) by {
            assert(rest[i] == sorted[i + 1] && rest[j] == sorted[j + 1]);
        }
        lemma_placed_newest_first(file, rest);
        let inner = placed(file, rest);
        assert forall|i: int, j: int| 0 <= i < j < out.len() implies !newer(
            #[trigger] out[j].note.updated,
            #[trigger] out[i].note.updated,
        ) by {
            if i == 0 {
                // out[j] is the new note or a note of `rest`
                let k = j - 1;
                assert(out[j] == inner[k]);
                assert(inner.to_multiset().count(inner[k]) > 0);
                assert(rest.to_multiset().insert(file).count(inner[k]) > 0);
                if inner[k] != file {
                    assert(rest.to_multiset().count(inner[k]) > 0);
                    let m = choose|m: int| 0 <= m < rest.len() && rest[m] == inner[k];
                    assert(sorted[m + 1] == inner[k]);
                    assert(!newer(sorted[m + 1].note.updated, sorted[0].note.updated));
                }
            } else {
                assert(out[i] == inner[i - 1] && out[j] == inner[j - 1]);
            }
        }
        assert(sorted =~= seq![sorted[0]] + rest);
        assert(out.to_multiset() =~= sorted.to_multiset().insert(file)) by {
            vstd::seq_lib::lemma_multiset_commutative(seq![sorted[0]], inner);
            vstd::seq_lib::lemma_multiset_commutative(seq![sorted[0]], rest);
        }
    } else {
        assert forall|i: int, j: int| 0 <= i < j < out.len() implies !newer(
            #[trigger] out[j].note.updated,
            #[trigger] out[i].note.updated,
        ) by {
            if i == 0 {
                assert(out[j] == sorted[j - 1]);
                if j - 1 > 0 {
                    assert(!newer(sorted[j - 1].note.updated, sorted[0].note.updated));
                    lemma_newer_is_transitive(
                        sorted[j - 1].note.updated,
                        sorted[0].note.updated,
                        file.note.updated,
                    );
                }
            } else {
                assert(out[i] == sorted[i - 1] && out[j] == sorted[j - 1]);
            }
        }
        assert(out.to_multiset() =~= sorted.to_multiset().insert(file)) by {
            vstd::seq_lib::lemma_multiset_commutative(seq![file], sorted);
        }
    }
}

/// Of three updates, if the first is not newer than the second and the
/// second is not newer than the third, the first is not newer than the third.
pub proof fn lemma_newer_is_transitive(a: Option<Date>, b: Option<Date>, c: Option<Date>)
    requires
        !newer(a, b),
        !newer(b, c),
    ensures
        !newer(a, c),
{
}

/// Whether a note is among those to publish.
pub open spec fn is_published(file: File, skip_unreleased: bool) -> bool {
    !skip_unreleased || file.note.released
}

/// The notes to publish are in order: none comes before a newer one.
pub proof fn law_published_newest_first(files: Seq<File>, skip_unreleased: bool)
    ensures
        newest_first(published(files, skip_unreleased)),
    decreases files.len(),
{
    if files.len() > 0 {
        law_published_newest_first(files.drop_first(), skip_unreleased);
        if is_published(files[0], skip_unreleased) {
            lemma_placed_newest_first(files[0], published(files.drop_first(), skip_unreleased));
        }
    }
}

/// Nothing is lost and nothing is made up: a note to publish comes out as
/// often as it went in, and any other note does not come out at all.
pub proof fn law_published_members(files: Seq<File>, skip_unreleased: bool, file: File)
    ensures
        published(files, skip_unreleased).to_multiset().count(file) == if is_published(
            file,
            skip_unreleased,
        ) {
            files.to_multiset().count(file)
        } else {
            0
        },
    decreases files.len(),
{
    broadcast use vstd::seq_lib::group_to_multiset_ensures;

    if files.len() > 0 {
        let rest = files.drop_first();
        law_published_members(rest, skip_unreleased, file);
        law_published_newest_first(rest, skip_unreleased);
        assert(files =~= seq![files[0]] + rest);
        vstd::seq_lib::lemma_multiset_commutative(seq![files[0]], rest);
        assert(seq![files[0]] =~= Seq::<File>::empty().push(files[0]));
        if is_published(files[0], skip_unreleased) {
            lemma_placed_newest_first(files[0], published(rest, skip_unreleased));
        }
    }
}

} // verus!
