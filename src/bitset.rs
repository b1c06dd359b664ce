//! The `BitSet` type: construction, per-bit access, aggregate queries,
//! conversions, and the bitwise operators.
use vstd::prelude::*;
use vstd::string::StringExecFns;

use crate::bits;
use crate::bits::{
    all_false,
    all_true,
    bits_of,
    count_set,
    fits_u64,
    seq_not,
    seq_shl,
    seq_shr,
    word_of,
};
use crate::text;

mod ops;
use crate::text::{
    bit_char,
    bit_string,
    display_text,
};

verus! {

/// The number of bits a `BitSet` holds.
pub const CAPACITY: usize = 128;

/// The word with every bit set.
const ALL_ONES: u128 = 0xFFFF_FFFF_FFFF_FFFF_FFFF_FFFF_FFFF_FFFFu128;

/// A fixed-size sequence of 128 bits, transformed by the standard logic
/// operators and converted to and from integers.
#[derive(Copy, Clone, Debug, PartialEq, Eq, Hash, Structural)]
pub struct BitSet {
    data: u128,
}

impl View for BitSet {
    type V = Seq<bool>;

    closed spec fn view(&self) -> Seq<bool> {
        bits_of(self.data)
    }
}

impl BitSet {
    /// Two bit sets are equal exactly when their bits are.
    pub proof fn lemma_view_eq(a: BitSet, b: BitSet)
        ensures
            a@.len() == 128,
            a@ == b@ <==> a == b,
    {
        if a@ == b@ {
            bits::lemma_bits_of_injective(a.data, b.data);
        }
    }

    /// A bit set with every bit `false`.
    pub fn new() -> (r: BitSet)
        ensures
            r@ == all_false(),
    {
        proof {
            bits::lemma_bits_of_zero();
        }
        BitSet { data: 0 }
    }

    /// A bit set whose low 64 bits are those of `value`, the rest `false`.
    pub fn from_u64(value: u64) -> (r: BitSet)
        ensures
            r@ == bits_of(value as u128),
            fits_u64(r@),
    {
        proof {
            bits::lemma_fits_u64(value as u128);
        }
        BitSet { data: value as u128 }
    }

    /// A bit set holding the bits of `value` exactly.
    pub fn from_u128(value: u128) -> (r: BitSet)
        ensures
            r@ == bits_of(value),
    {
        BitSet { data: value }
    }

    /// Whether the bit at `position` is set; `false` past the capacity.
    pub fn test(&self, position: usize) -> (r: bool)
        ensures
            r == (position < 128 && self@[position as int]),
    {
        if position < CAPACITY {
            proof {
                bits::lemma_mask_test(self.data, position as u128);
            }
            self.data & (1u128 << (position as u128)) != 0
        } else {
            false
        }
    }

    /// The number of bits set to `true`.
    pub fn count(&self) -> (r: usize)
        ensures
            r == count_set(self@),
            r <= 128,
    {
        let mut n: usize = 0;
        let mut i: usize = 0;
        while i < CAPACITY
            invariant
                i <= 128,
                n <= i,
                n == count_set(self@.subrange(0, i as int)),
            decreases 128 - i,
        {
            proof {
                assert(self@.subrange(0, i as int + 1).drop_last() =~= self@.subrange(0, i as int));
            }
            if (self.data >> (i as u128)) & 1u128 == 1u128 {
                n = n + 1;
            }
            i = i + 1;
        }
        proof {
            assert(self@.subrange(0, 128) =~= self@);
        }
        n
    }

    /// The number of bits a bit set holds: always 128.
    pub fn capacity(&self) -> (r: usize)
        ensures
            r == 128,
    {
        CAPACITY
    }

    /// Whether every bit is set.
    pub fn all(&self) -> (r: bool)
        ensures
            r == (self@ == all_true()),
    {
        proof {
            bits::lemma_bits_of_max();
            if self@ == all_true() {
                bits::lemma_bits_of_injective(self.data, ALL_ONES);
            }
        }
        self.data == ALL_ONES
    }

    /// Whether no bit is set.
    pub fn none(&self) -> (r: bool)
        ensures
            r == (self@ == all_false()),
    {
        proof {
            bits::lemma_bits_of_zero();
            if self@ == all_false() {
                bits::lemma_bits_of_injective(self.data, 0);
            }
        }
        self.data == 0
    }

    /// Whether at least one bit is set.
    pub fn any(&self) -> (r: bool)
        ensures
            r == (self@ != all_false()),
    {
        proof {
            bits::lemma_bits_of_zero();
            if self@ == all_false() {
                bits::lemma_bits_of_injective(self.data, 0);
            }
        }
        self.data != 0
    }

    /// Inverts every bit.
    pub fn flip_all(&mut self)
        ensures
            final(self)@ == seq_not(old(self)@),
    {
        let d = self.data;
        proof {
            bits::lemma_bits_of_not(d);
            assert(d ^ ALL_ONES == !d) by (bit_vector)
                requires
                    ALL_ONES == 0xFFFF_FFFF_FFFF_FFFF_FFFF_FFFF_FFFF_FFFFu128,
            ;
        }
        self.data = d ^ ALL_ONES;
    }

    /// Inverts the bit at `position`; `None`, with nothing changed, past the
    /// capacity.
    pub fn flip(&mut self, position: usize) -> (r: Option<()>)
        ensures
            position < 128 ==> r is Some && final(self)@ == old(self)@.update(
                position as int,
                !old(self)@[position as int],
            ),
            position >= 128 ==> r is None && *final(self) == *old(self),
    {
        if position < CAPACITY {
            proof {
                bits::lemma_bits_of_set(self.data, position as u128);
            }
            self.data = self.data ^ (1u128 << (position as u128));
            Some(())
        } else {
            None
        }
    }

    /// Sets every bit to `true`.
    pub fn set_all(&mut self)
        ensures
            final(self)@ == all_true(),
    {
        proof {
            bits::lemma_bits_of_max();
        }
        self.data = ALL_ONES;
    }

    /// Sets every bit to `false`.
    pub fn reset_all(&mut self)
        ensures
            final(self)@ == all_false(),
    {
        proof {
            bits::lemma_bits_of_zero();
        }
        self.data = 0;
    }

    /// Sets the bit at `position` to `value`; `None`, with nothing changed,
    /// past the capacity.
    pub fn set(&mut self, position: usize, value: bool) -> (r: Option<()>)
        ensures
            position < 128 ==> r is Some && final(self)@ == old(self)@.update(
                position as int,
                value,
            ),
            position >= 128 ==> r is None && *final(self) == *old(self),
    {
        if position < CAPACITY {
            let mask: u128 = 1u128 << (position as u128);
            proof {
                bits::lemma_bits_of_set(self.data, position as u128);
            }
            if value {
                self.data = self.data | mask;
            } else {
                self.data = self.data & !mask;
            }
            Some(())
        } else {
            None
        }
    }

    /// The value of the bit at `position`, or `None` past the capacity.
    pub fn get(&self, position: usize) -> (r: Option<bool>)
        ensures
            position < 128 ==> r == Some(self@[position as int]),
            position >= 128 ==> r is None,
    {
        if position < CAPACITY {
            let mask: u128 = 1u128 << (position as u128);
            proof {
                bits::lemma_mask_test(self.data, position as u128);
            }
            if (self.data & mask) != 0 {
                Some(true)
            } else {
                Some(false)
            }
        } else {
            None
        }
    }

    /// The bits as a 64-bit integer, or `None` when a bit at position 64 or
    /// above is set.
    pub fn to_u64(&self) -> (r: Option<u64>)
        ensures
            r is Some <==> fits_u64(self@),
            r matches Some(v) ==> bits_of(v as u128) == self@,
    {
        proof {
            bits::lemma_fits_u64(self.data);
        }
        if (self.data & (0xFFFF_FFFF_FFFF_FFFFu128 << 64u128)) == 0 {
            Some(self.data as u64)
        } else {
            None
        }
    }

    /// The bits as a 128-bit integer; always present.
    pub fn to_u128(&self) -> (r: Option<u128>)
        ensures
            r matches Some(v) && bits_of(v) == self@,
    {
        Some(self.data)
    }

    /// A readable rendering: `BitSet [0x`, the bits as an uppercase
    /// hexadecimal numeral without leading zeros, then `]`.
    pub fn display_string(&self) -> (r: String)
        ensures
            r@ == display_text(word_of(self@) as nat),
    {
        proof {
            bits::lemma_word_of_bits(self.data);
        }
        text::display_of(self.data)
    }

    /// The word after a logical left shift by `amount`; zero from 128 on.
    closed spec fn spec_shifted_left(self, amount: usize) -> BitSet {
        if amount < 128 {
            BitSet { data: self.data << (amount as u128) }
        } else {
            BitSet { data: 0 }
        }
    }

    /// The word after a logical right shift by `amount`; zero from 128 on.
    closed spec fn spec_shifted_right(self, amount: usize) -> BitSet {
        if amount < 128 {
            BitSet { data: self.data >> (amount as u128) }
        } else {
            BitSet { data: 0 }
        }
    }

    /// Every bit moves `amount` positions up; bits that pass position 127
    /// are lost and the vacated low positions are `false`.
    fn shifted_left(&self, amount: usize) -> (r: BitSet)
        ensures
            r@ == seq_shl(self@, amount as nat),
            r == self.spec_shifted_left(amount),
    {
        if amount < CAPACITY {
            proof {
                bits::lemma_bits_of_shl(self.data, amount as u128);
            }
            BitSet { data: self.data << (amount as u128) }
        } else {
            proof {
                bits::lemma_bits_of_zero();
                assert(seq_shl(self@, amount as nat) =~= all_false());
            }
            BitSet { data: 0 }
        }
    }

    /// Every bit moves `amount` positions down; bits that pass position 0
    /// are lost and the vacated high positions are `false`.
    fn shifted_right(&self, amount: usize) -> (r: BitSet)
        ensures
            r@ == seq_shr(self@, amount as nat),
            r == self.spec_shifted_right(amount),
    {
        if amount < CAPACITY {
            proof {
                bits::lemma_bits_of_shr(self.data, amount as u128);
            }
            BitSet { data: self.data >> (amount as u128) }
        } else {
            proof {
                bits::lemma_bits_of_zero();
                assert(seq_shr(self@, amount as nat) =~= all_false());
            }
            BitSet { data: 0 }
        }
    }

    /// The bits as 128 binary digits, position 127 first and position 0 last.
    pub fn as_string(&self) -> (r: String)
        ensures
            r@ == bit_string(self@),
            r@.len() == 128,
    {
        let mut st = String::new();
        let mut i: usize = CAPACITY;
        while i > 0
            invariant
                i <= 128,
                self@.len() == 128,
                st@ == Seq::new((128 - i) as nat, |j: int| bit_char(self@[127 - j])),
            decreases i,
        {
            i = i - 1;
            proof {
                reveal_strlit("1");
                reveal_strlit("0");
            }
            if self.test(i) {
                st.append("1");
            } else {
                st.append("0");
            }
            assert(st@ =~= Seq::new((128 - i) as nat, |j: int| bit_char(self@[127 - j])));
        }
        assert(st@ =~= bit_string(self@));
        st
    }
}

} // verus!
