//! The bitwise operators on `BitSet`, for each combination of owned and
//! borrowed operands. Every form gives the same result as the owned one.
use vstd::prelude::*;

use super::BitSet;
use crate::bits;
use crate::bits::{
    seq_and,
    seq_not,
    seq_or,
    seq_shl,
    seq_shr,
    seq_xor,
};

verus! {

impl core::ops::BitAnd<BitSet> for BitSet {
    type Output = BitSet;

    fn bitand(self, other: BitSet) -> (r: BitSet)
        ensures
            r@ == seq_and(self@, other@),
    {
        proof {
            bits::lemma_bits_of_and(self.data, other.data);
        }
        BitSet { data: self.data & other.data }
    }
}

impl vstd::std_specs::ops::BitAndSpecImpl<BitSet> for BitSet {
    open spec fn obeys_bitand_spec() -> bool {
        true
    }

    open spec fn bitand_req(self, rhs: BitSet) -> bool {
        true
    }

    closed spec fn bitand_spec(self, rhs: BitSet) -> BitSet {
        BitSet { data: self.data & rhs.data }
    }
}

impl<'a> core::ops::BitAnd<&'a BitSet> for BitSet {
    type Output = BitSet;

    fn bitand(self, other: &'a BitSet) -> (r: BitSet)
        ensures
            r@ == seq_and(self@, other@),
    {
        proof {
            bits::lemma_bits_of_and(self.data, other.data);
        }
        BitSet { data: self.data & other.data }
    }
}

impl<'a> vstd::std_specs::ops::BitAndSpecImpl<&'a BitSet> for BitSet {
    open spec fn obeys_bitand_spec() -> bool {
        true
    }

    open spec fn bitand_req(self, rhs: &'a BitSet) -> bool {
        true
    }

    closed spec fn bitand_spec(self, rhs: &'a BitSet) -> BitSet {
        BitSet { data: self.data & rhs.data }
    }
}

impl<'b> core::ops::BitAnd<BitSet> for &'b BitSet {
    type Output = BitSet;

    fn bitand(self, other: BitSet) -> (r: BitSet)
        ensures
            r@ == seq_and(self@, other@),
    {
        proof {
            bits::lemma_bits_of_and(self.data, other.data);
        }
        BitSet { data: self.data & other.data }
    }
}

impl<'b> vstd::std_specs::ops::BitAndSpecImpl<BitSet> for &'b BitSet {
    open spec fn obeys_bitand_spec() -> bool {
        true
    }

    open spec fn bitand_req(self, rhs: BitSet) -> bool {
        true
    }

    closed spec fn bitand_spec(self, rhs: BitSet) -> BitSet {
        BitSet { data: self.data & rhs.data }
    }
}

impl<'a, 'b> core::ops::BitAnd<&'a BitSet> for &'b BitSet {
    type Output = BitSet;

    fn bitand(self, other: &'a BitSet) -> (r: BitSet)
        ensures
            r@ == seq_and(self@, other@),
    {
        proof {
            bits::lemma_bits_of_and(self.data, other.data);
        }
        BitSet { data: self.data & other.data }
    }
}

impl<'a, 'b> vstd::std_specs::ops::BitAndSpecImpl<&'a BitSet> for &'b BitSet {
    open spec fn obeys_bitand_spec() -> bool {
        true
    }

    open spec fn bitand_req(self, rhs: &'a BitSet) -> bool {
        true
    }

    closed spec fn bitand_spec(self, rhs: &'a BitSet) -> BitSet {
        BitSet { data: self.data & rhs.data }
    }
}

impl core::ops::BitOr<BitSet> for BitSet {
    type Output = BitSet;

    fn bitor(self, other: BitSet) -> (r: BitSet)
        ensures
            r@ == seq_or(self@, other@),
    {
        proof {
            bits::lemma_bits_of_or(self.data, other.data);
        }
        BitSet { data: self.data | other.data }
    }
}

impl vstd::std_specs::ops::BitOrSpecImpl<BitSet> for BitSet {
    open spec fn obeys_bitor_spec() -> bool {
        true
    }

    open spec fn bitor_req(self, rhs: BitSet) -> bool {
        true
    }

    closed spec fn bitor_spec(self, rhs: BitSet) -> BitSet {
        BitSet { data: self.data | rhs.data }
    }
}

impl<'a> core::ops::BitOr<&'a BitSet> for BitSet {
    type Output = BitSet;

    fn bitor(self, other: &'a BitSet) -> (r: BitSet)
        ensures
            r@ == seq_or(self@, other@),
    {
        proof {
            bits::lemma_bits_of_or(self.data, other.data);
        }
        BitSet { data: self.data | other.data }
    }
}

impl<'a> vstd::std_specs::ops::BitOrSpecImpl<&'a BitSet> for BitSet {
    open spec fn obeys_bitor_spec() -> bool {
        true
    }

    open spec fn bitor_req(self, rhs: &'a BitSet) -> bool {
        true
    }

    closed spec fn bitor_spec(self, rhs: &'a BitSet) -> BitSet {
        BitSet { data: self.data | rhs.data }
    }
}

impl<'b> core::ops::BitOr<BitSet> for &'b BitSet {
    type Output = BitSet;

    fn bitor(self, other: BitSet) -> (r: BitSet)
        ensures
            r@ == seq_or(self@, other@),
    {
        proof {
            bits::lemma_bits_of_or(self.data, other.data);
        }
        BitSet { data: self.data | other.data }
    }
}

impl<'b> vstd::std_specs::ops::BitOrSpecImpl<BitSet> for &'b BitSet {
    open spec fn obeys_bitor_spec() -> bool {
        true
    }

    open spec fn bitor_req(self, rhs: BitSet) -> bool {
        true
    }

    closed spec fn bitor_spec(self, rhs: BitSet) -> BitSet {
        BitSet { data: self.data | rhs.data }
    }
}

impl<'a, 'b> core::ops::BitOr<&'a BitSet> for &'b BitSet {
    type Output = BitSet;

    fn bitor(self, other: &'a BitSet) -> (r: BitSet)
        ensures
            r@ == seq_or(self@, other@),
    {
        proof {
            bits::lemma_bits_of_or(self.data, other.data);
        }
        BitSet { data: self.data | other.data }
    }
}

impl<'a, 'b> vstd::std_specs::ops::BitOrSpecImpl<&'a BitSet> for &'b BitSet {
    open spec fn obeys_bitor_spec() -> bool {
        true
    }

    open spec fn bitor_req(self, rhs: &'a BitSet) -> bool {
        true
    }

    closed spec fn bitor_spec(self, rhs: &'a BitSet) -> BitSet {
        BitSet { data: self.data | rhs.data }
    }
}

impl core::ops::BitXor<BitSet> for BitSet {
    type Output = BitSet;

    fn bitxor(self, other: BitSet) -> (r: BitSet)
        ensures
            r@ == seq_xor(self@, other@),
    {
        proof {
            bits::lemma_bits_of_xor(self.data, other.data);
        }
        BitSet { data: self.data ^ other.data }
    }
}

impl vstd::std_specs::ops::BitXorSpecImpl<BitSet> for BitSet {
    open spec fn obeys_bitxor_spec() -> bool {
        true
    }

    open spec fn bitxor_req(self, rhs: BitSet) -> bool {
        true
    }

    closed spec fn bitxor_spec(self, rhs: BitSet) -> BitSet {
        BitSet { data: self.data ^ rhs.data }
    }
}

impl<'a> core::ops::BitXor<&'a BitSet> for BitSet {
    type Output = BitSet;

    fn bitxor(self, other: &'a BitSet) -> (r: BitSet)
        ensures
            r@ == seq_xor(self@, other@),
    {
        proof {
            bits::lemma_bits_of_xor(self.data, other.data);
        }
        BitSet { data: self.data ^ other.data }
    }
}

impl<'a> vstd::std_specs::ops::BitXorSpecImpl<&'a BitSet> for BitSet {
    open spec fn obeys_bitxor_spec() -> bool {
        true
    }

    open spec fn bitxor_req(self, rhs: &'a BitSet) -> bool {
        true
    }

    closed spec fn bitxor_spec(self, rhs: &'a BitSet) -> BitSet {
        BitSet { data: self.data ^ rhs.data }
    }
}

impl<'b> core::ops::BitXor<BitSet> for &'b BitSet {
    type Output = BitSet;

    fn bitxor(self, other: BitSet) -> (r: BitSet)
        ensures
            r@ == seq_xor(self@, other@),
    {
        proof {
            bits::lemma_bits_of_xor(self.data, other.data);
        }
        BitSet { data: self.data ^ other.data }
    }
}

impl<'b> vstd::std_specs::ops::BitXorSpecImpl<BitSet> for &'b BitSet {
    open spec fn obeys_bitxor_spec() -> bool {
        true
    }

    open spec fn bitxor_req(self, rhs: BitSet) -> bool {
        true
    }

    closed spec fn bitxor_spec(self, rhs: BitSet) -> BitSet {
        BitSet { data: self.data ^ rhs.data }
    }
}

impl<'a, 'b> core::ops::BitXor<&'a BitSet> for &'b BitSet {
    type Output = BitSet;

    fn bitxor(self, other: &'a BitSet) -> (r: BitSet)
        ensures
            r@ == seq_xor(self@, other@),
    {
        proof {
            bits::lemma_bits_of_xor(self.data, other.data);
        }
        BitSet { data: self.data ^ other.data }
    }
}

impl<'a, 'b> vstd::std_specs::ops::BitXorSpecImpl<&'a BitSet> for &'b BitSet {
    open spec fn obeys_bitxor_spec() -> bool {
        true
    }

    open spec fn bitxor_req(self, rhs: &'a BitSet) -> bool {
        true
    }

    closed spec fn bitxor_spec(self, rhs: &'a BitSet) -> BitSet {
        BitSet { data: self.data ^ rhs.data }
    }
}

impl core::ops::Shl<usize> for BitSet {
    type Output = BitSet;

    fn shl(self, amount: usize) -> (r: BitSet)
        ensures
            r@ == seq_shl(self@, amount as nat),
    {
        self.shifted_left(amount)
    }
}

impl vstd::std_specs::ops::ShlSpecImpl<usize> for BitSet {
    open spec fn obeys_shl_spec() -> bool {
        true
    }

    open spec fn shl_req(self, rhs: usize) -> bool {
        true
    }

    closed spec fn shl_spec(self, rhs: usize) -> BitSet {
        self.spec_shifted_left(rhs)
    }
}

impl<'b> core::ops::Shl<usize> for &'b BitSet {
    type Output = BitSet;

    fn shl(self, amount: usize) -> (r: BitSet)
        ensures
            r@ == seq_shl(self@, amount as nat),
    {
        self.shifted_left(amount)
    }
}

impl<'b> vstd::std_specs::ops::ShlSpecImpl<usize> for &'b BitSet {
    open spec fn obeys_shl_spec() -> bool {
        true
    }

    open spec fn shl_req(self, rhs: usize) -> bool {
        true
    }

    closed spec fn shl_spec(self, rhs: usize) -> BitSet {
        self.spec_shifted_left(rhs)
    }
}

impl core::ops::Shr<usize> for BitSet {
    type Output = BitSet;

    fn shr(self, amount: usize) -> (r: BitSet)
        ensures
            r@ == seq_shr(self@, amount as nat),
    {
        self.shifted_right(amount)
    }
}

impl vstd::std_specs::ops::ShrSpecImpl<usize> for BitSet {
    open spec fn obeys_shr_spec() -> bool {
        true
    }

    open spec fn shr_req(self, rhs: usize) -> bool {
        true
    }

    closed spec fn shr_spec(self, rhs: usize) -> BitSet {
        self.spec_shifted_right(rhs)
    }
}

impl<'b> core::ops::Shr<usize> for &'b BitSet {
    type Output = BitSet;

    fn shr(self, amount: usize) -> (r: BitSet)
        ensures
            r@ == seq_shr(self@, amount as nat),
    {
        self.shifted_right(amount)
    }
}

impl<'b> vstd::std_specs::ops::ShrSpecImpl<usize> for &'b BitSet {
    open spec fn obeys_shr_spec() -> bool {
        true
    }

    open spec fn shr_req(self, rhs: usize) -> bool {
        true
    }

    closed spec fn shr_spec(self, rhs: usize) -> BitSet {
        self.spec_shifted_right(rhs)
    }
}

impl core::ops::Not for BitSet {
    type Output = BitSet;

    fn not(self) -> (r: BitSet)
        ensures
            r@ == seq_not(self@),
    {
        proof {
            bits::lemma_bits_of_not(self.data);
        }
        BitSet { data: !self.data }
    }
}

impl vstd::std_specs::ops::NotSpecImpl for BitSet {
    open spec fn obeys_not_spec() -> bool {
        true
    }

    open spec fn not_req(self) -> bool {
        true
    }

    closed spec fn not_spec(self) -> BitSet {
        BitSet { data: !self.data }
    }
}

impl<'b> core::ops::Not for &'b BitSet {
    type Output = BitSet;

    fn not(self) -> (r: BitSet)
        ensures
            r@ == seq_not(self@),
    {
        proof {
            bits::lemma_bits_of_not(self.data);
        }
        BitSet { data: !self.data }
    }
}

impl<'b> vstd::std_specs::ops::NotSpecImpl for &'b BitSet {
    open spec fn obeys_not_spec() -> bool {
        true
    }

    open spec fn not_req(self) -> bool {
        true
    }

    closed spec fn not_spec(self) -> BitSet {
        BitSet { data: !self.data }
    }
}

impl core::ops::BitAndAssign<BitSet> for BitSet {
    fn bitand_assign(&mut self, other: BitSet)
        ensures
            final(self)@ == seq_and(old(self)@, other@),
    {
        proof {
            bits::lemma_bits_of_and(self.data, other.data);
        }
        self.data = self.data & other.data;
    }
}

impl<'a> core::ops::BitAndAssign<&'a BitSet> for BitSet {
    fn bitand_assign(&mut self, other: &'a BitSet)
        ensures
            final(self)@ == seq_and(old(self)@, other@),
    {
        proof {
            bits::lemma_bits_of_and(self.data, other.data);
        }
        self.data = self.data & other.data;
    }
}

impl core::ops::BitOrAssign<BitSet> for BitSet {
    fn bitor_assign(&mut self, other: BitSet)
        ensures
            final(self)@ == seq_or(old(self)@, other@),
    {
        proof {
            bits::lemma_bits_of_or(self.data, other.data);
        }
        self.data = self.data | other.data;
    }
}

impl<'a> core::ops::BitOrAssign<&'a BitSet> for BitSet {
    fn bitor_assign(&mut self, other: &'a BitSet)
        ensures
            final(self)@ == seq_or(old(self)@, other@),
    {
        proof {
            bits::lemma_bits_of_or(self.data, other.data);
        }
        self.data = self.data | other.data;
    }
}

impl core::ops::BitXorAssign<BitSet> for BitSet {
    fn bitxor_assign(&mut self, other: BitSet)
        ensures
            final(self)@ == seq_xor(old(self)@, other@),
    {
        proof {
            bits::lemma_bits_of_xor(self.data, other.data);
        }
        self.data = self.data ^ other.data;
    }
}

impl<'a> core::ops::BitXorAssign<&'a BitSet> for BitSet {
    fn bitxor_assign(&mut self, other: &'a BitSet)
        ensures
            final(self)@ == seq_xor(old(self)@, other@),
    {
        proof {
            bits::lemma_bits_of_xor(self.data, other.data);
        }
        self.data = self.data ^ other.data;
    }
}

impl core::ops::ShlAssign<usize> for BitSet {
    fn shl_assign(&mut self, amount: usize)
        ensures
            final(self)@ == seq_shl(old(self)@, amount as nat),
    {
        *self = self.shifted_left(amount);
    }
}

impl core::ops::ShrAssign<usize> for BitSet {
    fn shr_assign(&mut self, amount: usize)
        ensures
            final(self)@ == seq_shr(old(self)@, amount as nat),
    {
        *self = self.shifted_right(amount);
    }
}

} // verus!
