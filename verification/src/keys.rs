//! Storage keys: the market hash and range-scan bounds.
//!
//! Positions are grouped under a fixed-size hash of the market address.
//! Ascending range scans over big-endian keys resume strictly after a given
//! key by computing its successor: increment with carry from the right.

use vstd::prelude::*;
use sha3::{Digest, Sha3_256};

verus! {

/// The SHA3-256 digest of a byte string.
pub uninterp spec fn sha3_256_of(input: Seq<u8>) -> Seq<u8>;

/// Relies on sha3::Sha3_256 (new, update, finalize): the digest depends on
/// the input bytes alone and is 32 bytes long.
#[verifier::external_body]
pub fn keccak_256(input: &[u8]) -> (r: Vec<u8>)
    ensures
        r@ == sha3_256_of(input@),
        r@.len() == 32,
{
    let mut hasher = Sha3_256::new();
    hasher.update(input);
    hasher.finalize().to_vec()
}

/// The successor of a big-endian byte key: trailing maximal bytes roll over
/// to zero and the first byte before them is incremented.  A key of all
/// maximal bytes rolls over to all zeros.
pub open spec fn spec_successor(s: Seq<u8>) -> Seq<u8>
    decreases s.len(),
{
    if s.len() == 0 {
        s
    } else if s.last() == 255 {
        spec_successor(s.drop_last()).push(0)
    } else {
        s.drop_last().push((s.last() + 1) as u8)
    }
}

/// The successor keeps the key's length.
pub proof fn lemma_successor_len(s: Seq<u8>)
    ensures
        spec_successor(s).len() == s.len(),
    decreases s.len(),
{
    if s.len() > 0 && s.last() == 255 {
        lemma_successor_len(s.drop_last());
    }
}

/// Closed form of the successor when some byte is below the maximum: the
/// prefix up to the last such byte is kept, that byte is incremented, and
/// the rest becomes zero.
proof fn lemma_successor_split(s: Seq<u8>, k: int)
    requires
        0 <= k < s.len(),
        s[k] != 255,
        forall|j: int| k < j < s.len() ==> s[j] == 255,
    ensures
        spec_successor(s) =~= s.take(k) + seq![(s[k] + 1) as u8] + Seq::new(
            (s.len() - k - 1) as nat,
            |i: int| 0u8,
        ),
    decreases s.len(),
{
    if k == s.len() - 1 {
        assert(spec_successor(s) == s.drop_last().push((s.last() + 1) as u8));
    } else {
        assert(s.last() == 255);
        lemma_successor_split(s.drop_last(), k);
        lemma_successor_len(s.drop_last());
    }
}

/// Closed form of the successor when every byte is maximal: all zeros.
proof fn lemma_successor_all_max(s: Seq<u8>)
    requires
        forall|j: int| 0 <= j < s.len() ==> s[j] == 255,
    ensures
        spec_successor(s) =~= Seq::new(s.len(), |i: int| 0u8),
    decreases s.len(),
{
    if s.len() > 0 {
        lemma_successor_all_max(s.drop_last());
        lemma_successor_len(s.drop_last());
    }
}

/// The exclusive lower bound of an ascending range scan: the successor of
/// the `start_after` key, so that the key itself is excluded.
pub fn calc_range_start(start_after: Option<Vec<u8>>) -> (r: Option<Vec<u8>>)
    ensures
        start_after is None ==> r is None,
        start_after matches Some(v) ==> (r matches Some(w) && w@ == spec_successor(v@)),
{
    match start_after {
        Some(input) => {
            let n: usize = input.len();
            let mut k: usize = n;
            while k > 0 && input[k - 1] == 255
                invariant
                    n == input@.len(),
                    k <= n,
                    forall|j: int| k <= j < n ==> input@[j] == 255,
                decreases k,
            {
                k = k - 1;
            }
            let mut out: Vec<u8> = Vec::new();
            if k == 0 {
                proof {
                    lemma_successor_all_max(input@);
                }
                let mut i: usize = 0;
                while i < n
                    invariant
                        i <= n,
                        out@ =~= Seq::new(i as nat, |j: int| 0u8),
                    decreases n - i,
                {
                    out.push(0);
                    proof {
                        assert(out@ =~= Seq::new(i as nat + 1, |j: int| 0u8));
                    }
                    i = i + 1;
                }
                proof {
                    assert(out@ =~= spec_successor(input@));
                }
            } else {
                proof {
                    lemma_successor_split(input@, k as int - 1);
                }
                let mut i: usize = 0;
                while i < k - 1
                    invariant
                        k >= 1,
                        k <= n,
                        n == input@.len(),
                        i <= k - 1,
                        out@ =~= input@.take(i as int),
                    decreases k - i,
                {
                    out.push(input[i]);
                    i = i + 1;
                }
                out.push(input[k - 1] + 1);
                let mut z: usize = k;
                while z < n
                    invariant
                        k >= 1,
                        k <= z <= n,
                        n == input@.len(),
                        out@ =~= input@.take(k as int - 1) + seq![(input@[k as int - 1] + 1) as u8]
                            + Seq::new((z - k) as nat, |j: int| 0u8),
                    decreases n - z,
                {
                    out.push(0);
                    proof {
                        assert(out@ =~= input@.take(k as int - 1) + seq![
                            (input@[k as int - 1] + 1) as u8,
                        ] + Seq::new((z + 1 - k) as nat, |j: int| 0u8));
                    }
                    z = z + 1;
                }
                proof {
                    assert(out@ =~= spec_successor(input@));
                }
            }
            Some(out)
        },
        None => None,
    }
}

} // verus!
