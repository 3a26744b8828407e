//! How a listing of the notes is laid out: what it leaves out, and in which
//! order the rest appears.

use vstd::prelude::*;
use vstd::string::*;

verus! {

/// The name starts with a dot.
pub open spec fn hidden(name: Seq<char>) -> bool {
    name.len() > 0 && name[0] == '.'
}

/// Whether a file or directory of this name is hidden.
pub fn is_hidden(name: &str) -> (is_hidden: bool)
    ensures
        is_hidden == hidden(name@),
{
    for chr in iter: name.chars()
        invariant
            iter.seq() == name@,
            iter.index() == 0,
    {
        assert(chr == name@[0]);
        return chr == '.';
    }
    false
}

/// `a` comes before `b` in the order of the dictionary, byte by byte: at the
/// first place where they differ `a` has the smaller byte, or `a` ends there
/// and `b` goes on.
pub open spec fn name_before(a: Seq<u8>, b: Seq<u8>) -> bool
    decreases a.len(),
{
    if b.len() == 0 {
        false
    } else if a.len() == 0 {
        true
    } else if a[0] != b[0] {
        a[0] < b[0]
    } else {
        name_before(a.drop_first(), b.drop_first())
    }
}

/// An entry of a directory, as far as the order of a listing goes.
pub struct Entry<'a> {
    pub is_file: bool,
    pub name: &'a [u8],
}

/// `a` is listed before `b`: files come before directories, and two entries
/// of one kind are listed by name.
pub open spec fn listed_before(a: Entry, b: Entry) -> bool {
    if a.is_file != b.is_file {
        a.is_file
    } else {
        name_before(a.name@, b.name@)
    }
}

fn is_name_before(a: &[u8], b: &[u8]) -> (before: bool)
    ensures
        before == name_before(a@, b@),
{
    let mut i: usize = 0;
    assert(a@.skip(0) =~= a@ && b@.skip(0) =~= b@);
    while i < a.len() && i < b.len()
        invariant
            i <= a.len(),
            i <= b.len(),
            name_before(a@, b@) == name_before(a@.skip(i as int), b@.skip(i as int)),
        decreases a.len() - i,
    {
        proof {
            assert(a@.skip(i as int)[0] == a@[i as int]);
            assert(b@.skip(i as int)[0] == b@[i as int]);
            assert(a@.skip(i as int).drop_first() =~= a@.skip(i + 1));
            assert(b@.skip(i as int).drop_first() =~= b@.skip(i + 1));
        }
        if a[i] != b[i] {
            return a[i] < b[i];
        }
        i += 1;
    }
    i < b.len()
}

impl<'a> Entry<'a> {
    /// Whether this entry is listed before `other`.
    pub fn is_listed_before(&self, other: &Entry) -> (before: bool)
        ensures
            before == listed_before(*self, *other),
    {
        if self.is_file != other.is_file {
            self.is_file
        } else {
            is_name_before(self.name, other.name)
        }
    }
}

/// No name comes before itself, so no entry is listed before itself.
pub proof fn law_listing_is_irreflexive(a: Entry)
    ensures
        !listed_before(a, a),
{
    lemma_name_not_before_itself(a.name@);
}

/// Of two entries at most one is listed before the other.
pub proof fn law_listing_is_asymmetric(a: Entry, b: Entry)
    requires
        listed_before(a, b),
    ensures
        !listed_before(b, a),
{
    lemma_name_order_is_asymmetric(a.name@, b.name@);
}

/// Two entries of which neither is listed before the other are of one kind
/// and have one name.
pub proof fn law_listing_is_total(a: Entry, b: Entry)
    requires
        !listed_before(a, b),
        !listed_before(b, a),
    ensures
        a.is_file == b.is_file,
        a.name@ == b.name@,
{
    lemma_name_order_is_total(a.name@, b.name@);
}

proof fn lemma_name_not_before_itself(a: Seq<u8>)
    ensures
        !name_before(a, a),
    decreases a.len(),
{
    if a.len() > 0 {
        lemma_name_not_before_itself(a.drop_first());
    }
}

proof fn lemma_name_order_is_asymmetric(a: Seq<u8>, b: Seq<u8>)
    ensures
        !(name_before(a, b) && name_before(b, a)),
    decreases a.len(),
{
    if a.len() > 0 && b.len() > 0 && a[0] == b[0] {
        lemma_name_order_is_asymmetric(a.drop_first(), b.drop_first());
    }
}

proof fn lemma_name_order_is_total(a: Seq<u8>, b: Seq<u8>)
    ensures
        name_before(a, b) || name_before(b, a) || a == b,
    decreases a.len(),
{
    if a.len() > 0 && b.len() > 0 && a[0] == b[0] {
        lemma_name_order_is_total(a.drop_first(), b.drop_first());
        if a.drop_first() == b.drop_first() {
            assert(a =~= seq![a[0]] + a.drop_first());
            assert(b =~= seq![b[0]] + b.drop_first());
        }
    } else if a.len() == 0 && b.len() == 0 {
        assert(a =~= b);
    }
}

} // verus!
