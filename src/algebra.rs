//! Facts that relate several operations of `BitSet`, stated over the same
//! spec functions that the operations' own contracts use.
use vstd::prelude::*;

use crate::bits;
use crate::bits::{
    all_false,
    all_true,
    bits_of,
    fits_u64,
    seq_and,
    seq_not,
    seq_or,
    seq_shl,
    seq_shr,
    seq_xor,
};
use crate::bitset::BitSet;

verus! {

/// Flipping the same valid position twice restores the bit set, and so the
/// bit read back at that position is the original one.
pub proof fn lemma_flip_twice(x: BitSet, p: int)
    requires
        0 <= p < 128,
    ensures
        ({
            let once = x@.update(p, !x@[p]);
            &&& once.update(p, !once[p]) == x@
            &&& once.update(p, !once[p])[p] == x@[p]
        }),
{
    BitSet::lemma_view_eq(x, x);
    let once = x@.update(p, !x@[p]);
    assert(once.update(p, !once[p]) =~= x@);
}

/// Flipping two positions gives the same bit set in either order.
pub proof fn lemma_flip_commutes(x: BitSet, p: int, q: int)
    requires
        0 <= p < 128,
        0 <= q < 128,
    ensures
        ({
            let pq = x@.update(p, !x@[p]);
            let qp = x@.update(q, !x@[q]);
            pq.update(q, !pq[q]) == qp.update(p, !qp[p])
        }),
{
    BitSet::lemma_view_eq(x, x);
    let pq = x@.update(p, !x@[p]);
    let qp = x@.update(q, !x@[q]);
    assert(pq.update(q, !pq[q]) =~= qp.update(p, !qp[p]));
}

/// Inverting every bit twice, by `flip_all` or by `!`, restores the bit set.
pub proof fn lemma_not_involution(x: BitSet)
    ensures
        seq_not(seq_not(x@)) == x@,
{
    BitSet::lemma_view_eq(x, x);
    assert(seq_not(seq_not(x@)) =~= x@);
}

/// A bit set combined with itself: AND and OR give it back, XOR gives the
/// all-false set.
pub proof fn lemma_self_combination(x: BitSet)
    ensures
        seq_and(x@, x@) == x@,
        seq_or(x@, x@) == x@,
        seq_xor(x@, x@) == all_false(),
{
    BitSet::lemma_view_eq(x, x);
    assert(seq_and(x@, x@) =~= x@);
    assert(seq_or(x@, x@) =~= x@);
    assert(seq_xor(x@, x@) =~= all_false());
}

/// AND, OR and XOR are commutative and associative, and the all-false set
/// is the identity of XOR.
pub proof fn lemma_commutative_algebra(x: BitSet, y: BitSet, z: BitSet)
    ensures
        seq_and(x@, y@) == seq_and(y@, x@),
        seq_or(x@, y@) == seq_or(y@, x@),
        seq_xor(x@, y@) == seq_xor(y@, x@),
        seq_and(seq_and(x@, y@), z@) == seq_and(x@, seq_and(y@, z@)),
        seq_or(seq_or(x@, y@), z@) == seq_or(x@, seq_or(y@, z@)),
        seq_xor(seq_xor(x@, y@), z@) == seq_xor(x@, seq_xor(y@, z@)),
        seq_xor(x@, all_false()) == x@,
{
    BitSet::lemma_view_eq(x, x);
    assert(seq_and(x@, y@) =~= seq_and(y@, x@));
    assert(seq_or(x@, y@) =~= seq_or(y@, x@));
    assert(seq_xor(x@, y@) =~= seq_xor(y@, x@));
    assert(seq_and(seq_and(x@, y@), z@) =~= seq_and(x@, seq_and(y@, z@)));
    assert(seq_or(seq_or(x@, y@), z@) =~= seq_or(x@, seq_or(y@, z@)));
    assert(seq_xor(seq_xor(x@, y@), z@) =~= seq_xor(x@, seq_xor(y@, z@)));
    assert(seq_xor(x@, all_false()) =~= x@);
}

/// Shifting by the capacity, either way, gives the all-false set; shifting
/// by zero changes nothing.
pub proof fn lemma_shift_bounds(x: BitSet)
    ensures
        seq_shl(x@, 128) == all_false(),
        seq_shr(x@, 128) == all_false(),
        seq_shl(x@, 0) == x@,
        seq_shr(x@, 0) == x@,
{
    BitSet::lemma_view_eq(x, x);
    assert(seq_shl(x@, 128) =~= all_false());
    assert(seq_shr(x@, 128) =~= all_false());
    assert(seq_shl(x@, 0) =~= x@);
    assert(seq_shr(x@, 0) =~= x@);
}

/// Setting a valid position to the same value twice is the same as once.
pub proof fn lemma_set_idempotent(x: BitSet, i: int, value: bool)
    requires
        0 <= i < 128,
    ensures
        x@.update(i, value).update(i, value) == x@.update(i, value),
{
    BitSet::lemma_view_eq(x, x);
    assert(x@.update(i, value).update(i, value) =~= x@.update(i, value));
}

/// A 128-bit integer taken into a bit set comes back unchanged: the only
/// integer with the bits of `v` is `v`.
pub proof fn lemma_u128_round_trip(v: u128)
    ensures
        forall|w: u128| #[trigger] bits_of(w) == bits_of(v) ==> w == v,
{
    assert forall|w: u128| #[trigger] bits_of(w) == bits_of(v) implies w == v by {
        bits::lemma_bits_of_injective(w, v);
    }
}

/// A 64-bit integer taken into a bit set fits in 64 bits again and comes
/// back unchanged.
pub proof fn lemma_u64_round_trip(v: u64)
    ensures
        fits_u64(bits_of(v as u128)),
        forall|w: u64| #[trigger] bits_of(w as u128) == bits_of(v as u128) ==> w == v,
{
    bits::lemma_fits_u64(v as u128);
    assert forall|w: u64| #[trigger] bits_of(w as u128) == bits_of(v as u128) implies w == v by {
        bits::lemma_bits_of_injective(w as u128, v as u128);
    }
}

/// `all` and `none` never hold of the same bit set.
pub proof fn lemma_all_none_exclusive(x: BitSet)
    ensures
        !(x@ == all_true() && x@ == all_false()),
{
    assert(all_true()[0] != all_false()[0]);
}

} // verus!
