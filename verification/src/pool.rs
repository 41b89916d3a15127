//! The persisted state of one pool, and the byte-wise total order on asset
//! identifiers that makes the pair canonical.

use vstd::prelude::*;

verus! {

/// Strict byte-wise lexicographic order on two equal-length byte strings:
/// some position holds a smaller byte while every earlier position agrees.
pub open spec fn bytes_lt(a: Seq<u8>, b: Seq<u8>) -> bool {
    exists|i: int|
        0 <= i < a.len() && i < b.len() && a[i] < b[i] && (forall|j: int|
            0 <= j < i ==> a[j] == b[j])
}

/// An opaque 32-byte asset identifier, compared byte-wise.
#[derive(Clone, Copy, Debug, PartialEq, Eq)]
pub struct AssetId {
    pub bytes: [u8; 32],
}

impl View for AssetId {
    type V = Seq<u8>;

    open spec fn view(&self) -> Seq<u8> {
        self.bytes@
    }
}

impl AssetId {
    /// Strict byte-wise comparison, scanning for the first differing byte.
    pub fn lt(&self, other: &AssetId) -> (r: bool)
        ensures
            r == bytes_lt(self@, other@),
    {
        let mut i: usize = 0;
        while i < 32
            invariant
                i <= 32,
                forall|j: int| 0 <= j < i ==> self@[j] == other@[j],
            decreases 32 - i,
        {
            let x: u8 = self.bytes[i];
            let y: u8 = other.bytes[i];
            if x < y {
                assert(bytes_lt(self@, other@));
                return true;
            }
            if x > y {
                proof {
                    if bytes_lt(self@, other@) {
                        let k = choose|k: int|
                            0 <= k < self@.len() && k < other@.len() && self@[k] < other@[k] && (
                            forall|j: int| 0 <= j < k ==> self@[j] == other@[j]);
                        if k < i as int {
                            assert(self@[k] == other@[k]);
                        } else if k > i as int {
                            assert(self@[i as int] == other@[i as int]);
                        }
                        assert(false);
                    }
                }
                return false;
            }
            i += 1;
        }
        proof {
            if bytes_lt(self@, other@) {
                let k = choose|k: int|
                    0 <= k < self@.len() && k < other@.len() && self@[k] < other@[k] && (forall|
                        j: int,
                    | 0 <= j < k ==> self@[j] == other@[j]);
                assert(self@[k] == other@[k]);
            }
        }
        false
    }
}

/// The byte-wise order is asymmetric: the same pair cannot be strictly
/// ordered both ways, so a pool rejected for one orientation of a pair is
/// accepted for the other only.
pub proof fn lemma_bytes_lt_asymmetric(a: Seq<u8>, b: Seq<u8>)
    requires
        bytes_lt(a, b),
    ensures
        !bytes_lt(b, a),
{
    if bytes_lt(b, a) {
        let k1 = choose|i: int|
            0 <= i < a.len() && i < b.len() && a[i] < b[i] && (forall|j: int|
                0 <= j < i ==> a[j] == b[j]);
        let k2 = choose|i: int|
            0 <= i < b.len() && i < a.len() && b[i] < a[i] && (forall|j: int|
                0 <= j < i ==> b[j] == a[j]);
        if k1 < k2 {
            assert(b[k1] == a[k1]);
        } else if k2 < k1 {
            assert(a[k2] == b[k2]);
        }
        assert(false);
    }
}

proof fn lemma_prefix_agrees(a: Seq<u8>, b: Seq<u8>, i: int)
    requires
        a.len() == b.len(),
        !bytes_lt(a, b),
        !bytes_lt(b, a),
        0 <= i <= a.len(),
    ensures
        forall|j: int| 0 <= j < i ==> a[j] == b[j],
    decreases i,
{
    if i > 0 {
        lemma_prefix_agrees(a, b, i - 1);
        if a[i - 1] < b[i - 1] {
            assert(bytes_lt(a, b));
        }
        if b[i - 1] < a[i - 1] {
            assert(bytes_lt(b, a));
        }
    }
}

/// The byte-wise order is total: two equal-length identifiers that are
/// ordered in neither direction are equal byte for byte. Together with
/// asymmetry, every unordered pair of distinct identifiers has exactly one
/// orientation that pool creation accepts.
pub proof fn lemma_bytes_lt_total(a: Seq<u8>, b: Seq<u8>)
    requires
        a.len() == b.len(),
        !bytes_lt(a, b),
        !bytes_lt(b, a),
    ensures
        a =~= b,
{
    lemma_prefix_agrees(a, b, a.len() as int);
}

/// The persisted state of one pool: the two pooled asset mints in canonical
/// order, the current reserves, the mint of the ownership-share token, and
/// the nonce that re-derives the pool's control address.
#[derive(Clone, Copy, Debug, PartialEq, Eq)]
pub struct PoolAccount {
    pub token_a_mint: AssetId,
    pub token_b_mint: AssetId,
    pub token_a_amount: u128,
    pub token_b_amount: u128,
    pub lp_token_mint: AssetId,
    pub bump: u8,
}

impl PoolAccount {
    /// Canonical pairing invariant: the asset mints are stored in strictly
    /// increasing byte-wise order, so one record per unordered pair.
    pub open spec fn wf(self) -> bool {
        bytes_lt(self.token_a_mint@, self.token_b_mint@)
    }
}

} // verus!
