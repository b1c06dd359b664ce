//! The bit-level model of a 128-bit word, and the facts about machine
//! bit operations that connect the two.
use vstd::prelude::*;

verus! {

/// Bit `i` of `v`, counting from the least significant bit.
pub open spec fn bit_of(v: u128, i: int) -> bool {
    0 <= i < 128 && (v >> (i as u128)) & 1u128 == 1u128
}

/// The 128 bits of `v`, least significant first.
pub open spec fn bits_of(v: u128) -> Seq<bool> {
    Seq::new(128, |i: int| bit_of(v, i))
}

/// The word whose bits are `s`.
pub open spec fn word_of(s: Seq<bool>) -> u128 {
    choose|v: u128| bits_of(v) == s
}

/// 128 bits, all `false`.
pub open spec fn all_false() -> Seq<bool> {
    Seq::new(128, |i: int| false)
}

/// 128 bits, all `true`.
pub open spec fn all_true() -> Seq<bool> {
    Seq::new(128, |i: int| true)
}

/// Position-wise conjunction.
pub open spec fn seq_and(a: Seq<bool>, b: Seq<bool>) -> Seq<bool> {
    Seq::new(128, |i: int| a[i] && b[i])
}

/// Position-wise disjunction.
pub open spec fn seq_or(a: Seq<bool>, b: Seq<bool>) -> Seq<bool> {
    Seq::new(128, |i: int| a[i] || b[i])
}

/// Position-wise exclusive or.
pub open spec fn seq_xor(a: Seq<bool>, b: Seq<bool>) -> Seq<bool> {
    Seq::new(128, |i: int| a[i] != b[i])
}

/// Position-wise negation.
pub open spec fn seq_not(a: Seq<bool>) -> Seq<bool> {
    Seq::new(128, |i: int| !a[i])
}

/// Logical shift towards the high positions by `n`, filling with `false`.
pub open spec fn seq_shl(a: Seq<bool>, n: nat) -> Seq<bool> {
    Seq::new(128, |i: int| i >= n && a[i - n])
}

/// Logical shift towards the low positions by `n`, filling with `false`.
pub open spec fn seq_shr(a: Seq<bool>, n: nat) -> Seq<bool> {
    Seq::new(128, |i: int| i + n < 128 && a[i + n])
}

/// The number of `true` entries of `s`.
pub open spec fn count_set(s: Seq<bool>) -> nat
    decreases s.len(),
{
    if s.len() == 0 {
        0
    } else {
        count_set(s.drop_last()) + if s.last() {
            1nat
        } else {
            0nat
        }
    }
}

/// No bit at position 64 or above is set.
pub open spec fn fits_u64(s: Seq<bool>) -> bool {
    forall|i: int| 64 <= i < 128 ==> !s[i]
}

pub proof fn lemma_bits_of_zero()
    ensures
        bits_of(0) == all_false(),
{
    assert forall|i: int| 0 <= i < 128 implies !bit_of(0, i) by {
        let s = i as u128;
        assert((0u128 >> s) & 1u128 == 0u128) by (bit_vector);
    }
    assert(bits_of(0) =~= all_false());
}

pub proof fn lemma_mask_test(d: u128, p: u128)
    requires
        p < 128,
    ensures
        (d & (1u128 << p)) != 0 <==> bit_of(d, p as int),
{
    assert((d & (1u128 << p)) != 0 <==> (d >> p) & 1u128 == 1u128) by (bit_vector)
        requires
            p < 128,
    ;
}

/// If bits `k` and above of `d` are clear, then `d >> k` is zero.
proof fn lemma_high_clear(d: u128, k: u128)
    requires
        k <= 128,
        forall|i: int| k <= i < 128 ==> !bit_of(d, i),
    ensures
        k == 128 || d >> k == 0,
    decreases 128 - k,
{
    if k < 128 {
        lemma_high_clear(d, (k + 1) as u128);
        let k1 = (k + 1) as u128;
        assert(!bit_of(d, k as int));
        assert((d >> k) & 1u128 != 1u128);
        assert(k1 == 128 || d >> k1 == 0);
        assert(((k1 == 128 || d >> k1 == 0u128) && (d >> k) & 1u128 != 1u128 && k < 128
            && k1 == k + 1) ==> d >> k == 0u128) by (bit_vector);
    }
}

pub proof fn lemma_bits_of_injective(a: u128, b: u128)
    requires
        bits_of(a) == bits_of(b),
    ensures
        a == b,
{
    let x = a ^ b;
    assert forall|i: int| 0 <= i < 128 implies !bit_of(x, i) by {
        assert(bits_of(a)[i] == bits_of(b)[i]);
        let s = i as u128;
        let ba = (a >> s) & 1u128 == 1u128;
        let bb = (b >> s) & 1u128 == 1u128;
        assert(bits_of(a)[i] == bit_of(a, i));
        assert(bit_of(a, i) == ba);
        assert(ba == bb);
        assert((x >> s) & 1u128 != 1u128) by (bit_vector)
            requires
                x == a ^ b,
                ((a >> s) & 1u128 == 1u128) == ((b >> s) & 1u128 == 1u128),
        ;
    }
    lemma_high_clear(x, 0);
    assert((a ^ b) >> 0u128 == 0u128 ==> a == b) by (bit_vector);
}

pub proof fn lemma_bits_of_max()
    ensures
        bits_of(0xFFFF_FFFF_FFFF_FFFF_FFFF_FFFF_FFFF_FFFFu128) == all_true(),
{
    let m = 0xFFFF_FFFF_FFFF_FFFF_FFFF_FFFF_FFFF_FFFFu128;
    assert forall|i: int| 0 <= i < 128 implies bit_of(m, i) by {
        let s = i as u128;
        assert((m >> s) & 1u128 == 1u128) by (bit_vector)
            requires
                m == 0xFFFF_FFFF_FFFF_FFFF_FFFF_FFFF_FFFF_FFFFu128,
                s < 128,
        ;
    }
    assert(bits_of(m) =~= all_true());
}

pub proof fn lemma_bits_of_and(a: u128, b: u128)
    ensures
        bits_of(a & b) == seq_and(bits_of(a), bits_of(b)),
{
    assert forall|i: int| 0 <= i < 128 implies bit_of(a & b, i) == (bit_of(a, i) && bit_of(
        b,
        i,
    )) by {
        let s = i as u128;
        assert((((a & b) >> s) & 1u128 == 1u128) == ((a >> s) & 1u128 == 1u128 && (b >> s)
            & 1u128 == 1u128)) by (bit_vector);
    }
    assert(bits_of(a & b) =~= seq_and(bits_of(a), bits_of(b)));
}

pub proof fn lemma_bits_of_or(a: u128, b: u128)
    ensures
        bits_of(a | b) == seq_or(bits_of(a), bits_of(b)),
{
    assert forall|i: int| 0 <= i < 128 implies bit_of(a | b, i) == (bit_of(a, i) || bit_of(
        b,
        i,
    )) by {
        let s = i as u128;
        assert((((a | b) >> s) & 1u128 == 1u128) == ((a >> s) & 1u128 == 1u128 || (b >> s)
            & 1u128 == 1u128)) by (bit_vector);
    }
    assert(bits_of(a | b) =~= seq_or(bits_of(a), bits_of(b)));
}

pub proof fn lemma_bits_of_xor(a: u128, b: u128)
    ensures
        bits_of(a ^ b) == seq_xor(bits_of(a), bits_of(b)),
{
    assert forall|i: int| 0 <= i < 128 implies bit_of(a ^ b, i) == (bit_of(a, i) != bit_of(
        b,
        i,
    )) by {
        let s = i as u128;
        assert((((a ^ b) >> s) & 1u128 == 1u128) == (((a >> s) & 1u128 == 1u128) != ((b >> s)
            & 1u128 == 1u128))) by (bit_vector);
    }
    assert(bits_of(a ^ b) =~= seq_xor(bits_of(a), bits_of(b)));
}

pub proof fn lemma_bits_of_not(a: u128)
    ensures
        bits_of(!a) == seq_not(bits_of(a)),
{
    assert forall|i: int| 0 <= i < 128 implies bit_of(!a, i) == !bit_of(a, i) by {
        let s = i as u128;
        assert((((!a) >> s) & 1u128 == 1u128) == !((a >> s) & 1u128 == 1u128)) by (bit_vector)
            requires
                s < 128,
        ;
    }
    assert(bits_of(!a) =~= seq_not(bits_of(a)));
}

pub proof fn lemma_bits_of_shl(a: u128, n: u128)
    requires
        n < 128,
    ensures
        bits_of(a << n) == seq_shl(bits_of(a), n as nat),
{
    assert forall|i: int| 0 <= i < 128 implies bit_of(a << n, i) == (i >= n && bit_of(
        a,
        i - n,
    )) by {
        let s = i as u128;
        if i >= n {
            let t = (i - n) as u128;
            assert((((a << n) >> s) & 1u128 == 1u128) == ((a >> t) & 1u128 == 1u128))
                by (bit_vector)
                requires
                    n < 128,
                    s < 128,
                    s >= n,
                    t == s - n,
            ;
        } else {
            assert(((a << n) >> s) & 1u128 == 0u128) by (bit_vector)
                requires
                    n < 128,
                    s < n,
            ;
        }
    }
    assert(bits_of(a << n) =~= seq_shl(bits_of(a), n as nat));
}

pub proof fn lemma_bits_of_shr(a: u128, n: u128)
    requires
        n < 128,
    ensures
        bits_of(a >> n) == seq_shr(bits_of(a), n as nat),
{
    assert forall|i: int| 0 <= i < 128 implies bit_of(a >> n, i) == (i + n < 128 && bit_of(
        a,
        i + n,
    )) by {
        let s = i as u128;
        if i + n < 128 {
            let t = (i + n) as u128;
            assert((((a >> n) >> s) & 1u128 == 1u128) == ((a >> t) & 1u128 == 1u128))
                by (bit_vector)
                requires
                    n < 128,
                    s < 128,
                    t == s + n,
                    t < 128,
            ;
        } else {
            assert(((a >> n) >> s) & 1u128 == 0u128) by (bit_vector)
                requires
                    n < 128,
                    s < 128,
                    s + n >= 128,
            ;
        }
    }
    assert(bits_of(a >> n) =~= seq_shr(bits_of(a), n as nat));
}

pub proof fn lemma_bits_of_set(d: u128, p: u128)
    requires
        p < 128,
    ensures
        bits_of(d | (1u128 << p)) == bits_of(d).update(p as int, true),
        bits_of(d & !(1u128 << p)) == bits_of(d).update(p as int, false),
        bits_of(d ^ (1u128 << p)) == bits_of(d).update(p as int, !bits_of(d)[p as int]),
{
    let b = bits_of(d);
    let q = p as int;
    let x = d | (1u128 << p);
    let y = d & !(1u128 << p);
    let z = d ^ (1u128 << p);
    assert forall|i: int| 0 <= i < 128 implies {
        &&& bits_of(x)[i] == b.update(q, true)[i]
        &&& bits_of(y)[i] == b.update(q, false)[i]
        &&& bits_of(z)[i] == b.update(q, !b[q])[i]
    } by {
        let s = i as u128;
        assert(bits_of(x)[i] == bit_of(x, i));
        assert(bits_of(y)[i] == bit_of(y, i));
        assert(bits_of(z)[i] == bit_of(z, i));
        assert(b[i] == bit_of(d, i));
        assert(((x >> s) & 1u128 == 1u128) == (s == p || (d >> s) & 1u128 == 1u128))
            by (bit_vector)
            requires
                x == d | (1u128 << p),
                p < 128,
                s < 128,
        ;
        assert(((y >> s) & 1u128 == 1u128) == (s != p && (d >> s) & 1u128 == 1u128))
            by (bit_vector)
            requires
                y == d & !(1u128 << p),
                p < 128,
                s < 128,
        ;
        assert(((z >> s) & 1u128 == 1u128) == (((d >> s) & 1u128 == 1u128) != (s == p)))
            by (bit_vector)
            requires
                z == d ^ (1u128 << p),
                p < 128,
                s < 128,
        ;
    }
    assert(bits_of(x) =~= b.update(q, true));
    assert(bits_of(y) =~= b.update(q, false));
    assert(bits_of(z) =~= b.update(q, !b[q]));
}

/// A word fits in 64 bits exactly when its bits 64 and above are clear.
pub proof fn lemma_fits_u64(d: u128)
    ensures
        (d & (0xFFFF_FFFF_FFFF_FFFFu128 << 64u128)) == 0 <==> d <= 0xFFFF_FFFF_FFFF_FFFFu128,
        d <= 0xFFFF_FFFF_FFFF_FFFFu128 <==> fits_u64(bits_of(d)),
{
    assert((d & (0xFFFF_FFFF_FFFF_FFFFu128 << 64u128)) == 0 <==> d <= 0xFFFF_FFFF_FFFF_FFFFu128)
        by (bit_vector);
    if d <= 0xFFFF_FFFF_FFFF_FFFFu128 {
        assert forall|i: int| 64 <= i < 128 implies !bits_of(d)[i] by {
            let s = i as u128;
            assert((d >> s) & 1u128 == 0u128) by (bit_vector)
                requires
                    d <= 0xFFFF_FFFF_FFFF_FFFFu128,
                    64 <= s < 128,
            ;
        }
    }
    if fits_u64(bits_of(d)) {
        assert forall|i: int| 64 <= i < 128 implies !bit_of(d, i) by {
            assert(!bits_of(d)[i]);
        }
        lemma_high_clear(d, 64);
        assert(d >> 64u128 == 0u128 ==> d <= 0xFFFF_FFFF_FFFF_FFFFu128) by (bit_vector);
    }
}

pub proof fn lemma_word_of_bits(d: u128)
    ensures
        word_of(bits_of(d)) == d,
{
    let w = word_of(bits_of(d));
    assert(bits_of(w) == bits_of(d));
    lemma_bits_of_injective(w, d);
}

} // verus!
