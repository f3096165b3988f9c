//! Splitting byte sequences on a separator.
//!
//! Identifier files are newline-delimited, and composite read identifiers
//! join their segment tokens with `;`. Both are handled by one verified
//! splitter.

use vstd::prelude::*;

verus! {

/// The views of a sequence of byte vectors.
pub open spec fn seq_views(ts: Seq<Vec<u8>>) -> Seq<Seq<u8>> {
    ts.map_values(|t: Vec<u8>| t@)
}

/// The tokens of `s` delimited by `sep`: splitting the empty sequence gives
/// one empty token, and every separator byte ends the token before it, so
/// `n` separators give `n + 1` tokens.
pub open spec fn split_seq(s: Seq<u8>, sep: u8) -> Seq<Seq<u8>>
    decreases s.len(),
{
    if s.len() == 0 {
        seq![Seq::<u8>::empty()]
    } else if s.last() == sep {
        split_seq(s.drop_last(), sep).push(Seq::<u8>::empty())
    } else {
        let r = split_seq(s.drop_last(), sep);
        r.update(r.len() - 1, r.last().push(s.last()))
    }
}

/// Splitting always yields at least one token.
pub proof fn lemma_split_seq_len(s: Seq<u8>, sep: u8)
    ensures
        split_seq(s, sep).len() >= 1,
    decreases s.len(),
{
    if s.len() > 0 {
        lemma_split_seq_len(s.drop_last(), sep);
    }
}

/// Split `s` into the tokens delimited by `sep`.
pub fn split_bytes(s: &[u8], sep: u8) -> (tokens: Vec<Vec<u8>>)
    ensures
        seq_views(tokens@) == split_seq(s@, sep),
{
    let mut tokens: Vec<Vec<u8>> = Vec::new();
    let mut cur: Vec<u8> = Vec::new();
    let mut i: usize = 0;
    proof {
        assert(seq_views(tokens@).push(cur@) =~~= split_seq(s@.take(0), sep));
    }
    while i < s.len()
        invariant
            i <= s@.len(),
            seq_views(tokens@).push(cur@) == split_seq(s@.take(i as int), sep),
        decreases s@.len() - i,
    {
        let ghost prev_tokens = tokens@;
        let ghost prev_cur = cur@;
        let b = s[i];
        proof {
            assert(s@.take(i + 1).drop_last() =~= s@.take(i as int));
            assert(s@.take(i + 1).last() == s@[i as int]);
            lemma_split_seq_len(s@.take(i as int), sep);
        }
        if b == sep {
            tokens.push(cur);
            cur = Vec::new();
            proof {
                assert(seq_views(tokens@) =~~= seq_views(prev_tokens).push(prev_cur));
                assert(seq_views(tokens@).push(cur@) =~~= split_seq(s@.take(i + 1), sep));
            }
        } else {
            cur.push(b);
            proof {
                let r = split_seq(s@.take(i as int), sep);
                assert(split_seq(s@.take(i + 1), sep) == r.update(r.len() - 1, r.last().push(b)));
                assert(seq_views(tokens@).push(cur@) =~~= r.update(r.len() - 1, r.last().push(b)));
            }
        }
        i += 1;
    }
    proof {
        assert(s@.take(s@.len() as int) =~= s@);
    }
    let ghost prev_tokens = tokens@;
    let ghost prev_cur = cur@;
    tokens.push(cur);
    proof {
        assert(seq_views(tokens@) =~~= seq_views(prev_tokens).push(prev_cur));
    }
    tokens
}

} // verus!
