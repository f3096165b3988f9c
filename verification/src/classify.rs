//! Classification of a record as unblocked or sequenced.
//!
//! A record with the duplex segment tag carries a composite identifier:
//! several segment tokens joined by `;`. Such a record counts as unblocked
//! if any of its tokens is in the rejected set, because a re-sequenced read
//! must be attributed to rejection if any contributing segment was rejected.
//! Any other record is classified by exact match of its whole identifier.

use crate::bytes::{seq_views, split_bytes, split_seq};
use crate::ids::{id_set, UnblockedIds};
use vstd::prelude::*;

verus! {

/// Whether a record with identifier `read_id` is classified as unblocked
/// against the rejected set `ids`.
pub open spec fn spec_classify(read_id: Seq<u8>, has_duplex_tag: bool, ids: Set<Seq<u8>>) -> bool {
    if has_duplex_tag {
        exists|k: int|
            0 <= k < split_seq(read_id, 59).len() && #[trigger] ids.contains(
                split_seq(read_id, 59)[k],
            )
    } else {
        ids.contains(read_id)
    }
}

/// Classify a record: true means unblocked (rejected mid-read), false means
/// sequenced.
pub fn classify_unblocked(read_id: &[u8], has_duplex_tag: bool, ids: &UnblockedIds) -> (r: bool)
    ensures
        r == spec_classify(read_id@, has_duplex_tag, id_set(*ids)),
{
    if has_duplex_tag {
        let tokens = split_bytes(read_id, 59);
        let mut i: usize = 0;
        while i < tokens.len()
            invariant
                has_duplex_tag,
                i <= tokens@.len(),
                seq_views(tokens@) == split_seq(read_id@, 59),
                forall|k: int| 0 <= k < i ==> !id_set(*ids).contains(split_seq(read_id@, 59)[k]),
            decreases tokens@.len() - i,
        {
            if ids.contains(tokens[i].as_slice()) {
                proof {
                    assert(seq_views(tokens@)[i as int] == tokens@[i as int]@);
                    assert(0 <= i < split_seq(read_id@, 59).len() && id_set(*ids).contains(
                        split_seq(read_id@, 59)[i as int],
                    ));
                }
                return true;
            }
            proof {
                assert(seq_views(tokens@)[i as int] == tokens@[i as int]@);
            }
            i += 1;
        }
        false
    } else {
        ids.contains(read_id)
    }
}

} // verus!
