//! Reading a read identifier out of a FASTX header line.

use vstd::prelude::*;

verus! {

/// The identifier part of a FASTX header line: everything before the first
/// space, or the whole line when it has none.
pub fn header_to_id(bytes: &[u8]) -> (id: &[u8])
    ensures
        id@ == bytes@.take(id@.len() as int),
        forall|j: int| 0 <= j < id@.len() ==> bytes@[j] != 32,
        id@.len() == bytes@.len() || bytes@[id@.len() as int] == 32,
{
    let mut i: usize = 0;
    while i < bytes.len()
        invariant
            i <= bytes@.len(),
            forall|j: int| 0 <= j < i ==> bytes@[j] != 32,
        decreases bytes@.len() - i,
    {
        if bytes[i] == 32 {
            return vstd::slice::slice_subrange(bytes, 0, i);
        }
        i += 1;
    }
    proof {
        assert(bytes@.take(bytes@.len() as int) =~= bytes@);
    }
    bytes
}

} // verus!
