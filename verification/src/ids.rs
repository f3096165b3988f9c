//! The set of rejected-read identifiers.
//!
//! The set is loaded once from the newline-delimited identifier file and then
//! probed once per input record, so it is held in a hash set with the FNV
//! hasher. The hash set itself is outside code; its contents are named by
//! [`id_set`] and every operation the library uses carries a contract over
//! that name.

use crate::bytes::{seq_views, split_seq};
use vstd::prelude::*;

verus! {

/// The membership contents of an [`UnblockedIds`] value, as a set of byte
/// strings.
pub uninterp spec fn id_set(ids: UnblockedIds) -> Set<Seq<u8>>;

/// An immutable, unordered membership set of read identifiers, built once
/// per run from the identifier file.
#[verifier::external_body]
pub struct UnblockedIds {
    set: fnv::FnvHashSet<Vec<u8>>,
}

impl UnblockedIds {
    /// Relies on `FnvHashSet::default` (std's `HashSet` with fnv's hasher):
    /// a freshly created set is empty.
    #[verifier::external_body]
    pub fn new() -> (ids: UnblockedIds)
        ensures
            id_set(ids) == Set::<Seq<u8>>::empty(),
    {
        UnblockedIds { set: fnv::FnvHashSet::default() }
    }

    /// Relies on std's `HashSet::insert`: afterwards the set holds the new
    /// element together with everything it held before.
    #[verifier::external_body]
    pub fn insert(&mut self, id: Vec<u8>)
        ensures
            id_set(*final(self)) == id_set(*old(self)).insert(id@),
    {
        self.set.insert(id);
    }

    /// Relies on std's `HashSet::contains`: true exactly when the set holds
    /// an element equal to the probed bytes.
    #[verifier::external_body]
    pub fn contains(&self, id: &[u8]) -> (r: bool)
        ensures
            r == id_set(*self).contains(id@),
    {
        self.set.contains(id)
    }

    /// Relies on std's `HashSet::len`: the number of elements held.
    #[verifier::external_body]
    pub fn len(&self) -> (n: usize)
        ensures
            n == id_set(*self).len(),
    {
        self.set.len()
    }
}

/// `line` without a trailing carriage return, so that identifier files with
/// either line ending load identically.
pub open spec fn trim_cr(line: Seq<u8>) -> Seq<u8> {
    if line.len() > 0 && line.last() == 13 {
        line.drop_last()
    } else {
        line
    }
}

/// The identifiers on a sequence of lines: each line, trailing carriage
/// return removed, except empty lines.
pub open spec fn lines_to_set(lines: Seq<Seq<u8>>) -> Set<Seq<u8>>
    decreases lines.len(),
{
    if lines.len() == 0 {
        Set::<Seq<u8>>::empty()
    } else {
        let rest = lines_to_set(lines.drop_last());
        let id = trim_cr(lines.last());
        if id.len() == 0 {
            rest
        } else {
            rest.insert(id)
        }
    }
}

/// The identifier set described by the bytes of a newline-delimited file:
/// one entry per non-empty line, duplicates collapsed, order forgotten.
pub open spec fn id_set_of_file(contents: Seq<u8>) -> Set<Seq<u8>> {
    lines_to_set(split_seq(contents, 10))
}

/// Build the rejected-identifier set from the bytes of the identifier file.
pub fn load_ids(contents: &[u8]) -> (ids: UnblockedIds)
    ensures
        id_set(ids) == id_set_of_file(contents@),
{
    let lines = crate::bytes::split_bytes(contents, 10);
    let mut ids = UnblockedIds::new();
    let mut i: usize = 0;
    proof {
        assert(seq_views(lines@).take(0) =~= Seq::<Seq<u8>>::empty());
    }
    while i < lines.len()
        invariant
            i <= lines@.len(),
            seq_views(lines@) == split_seq(contents@, 10),
            id_set(ids) == lines_to_set(seq_views(lines@).take(i as int)),
        decreases lines@.len() - i,
    {
        proof {
            assert(seq_views(lines@).take(i + 1).drop_last() =~= seq_views(lines@).take(
                i as int,
            ));
            assert(seq_views(lines@).take(i + 1).last() == lines@[i as int]@);
        }
        let mut id = vstd::slice::slice_to_vec(lines[i].as_slice());
        if id.len() > 0 && id[id.len() - 1] == 13 {
            id.pop();
        }
        proof {
            assert(id@ == trim_cr(lines@[i as int]@));
        }
        if id.len() > 0 {
            ids.insert(id);
        }
        i += 1;
    }
    proof {
        assert(seq_views(lines@).take(lines@.len() as int) =~= seq_views(lines@));
    }
    ids
}

} // verus!
