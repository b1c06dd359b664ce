//! Textual renderings: binary digits, and hexadecimal numerals.
use vstd::prelude::*;
use vstd::string::{
    StrSliceExecFns,
    StringExecFns,
};

verus! {

/// The digit that renders one bit.
pub open spec fn bit_char(b: bool) -> char {
    if b {
        '1'
    } else {
        '0'
    }
}

/// The bits of `s` as binary digits, the highest position first.
pub open spec fn bit_string(s: Seq<bool>) -> Seq<char> {
    Seq::new(s.len(), |j: int| bit_char(s[s.len() - 1 - j]))
}

/// The uppercase hexadecimal digit of `d`, for `d` below 16.
pub open spec fn hex_digit(d: nat) -> char {
    seq!['0', '1', '2', '3', '4', '5', '6', '7', '8', '9', 'A', 'B', 'C', 'D', 'E', 'F'][d as int]
}

/// The uppercase hexadecimal numeral of `v`, without leading zeros.
pub open spec fn hex_numeral(v: nat) -> Seq<char>
    decreases v,
{
    if v < 16 {
        seq![hex_digit(v)]
    } else {
        hex_numeral(v / 16).push(hex_digit(v % 16))
    }
}

/// `BitSet [0x`, the numeral of `v`, then `]`.
pub open spec fn display_text(v: nat) -> Seq<char> {
    seq!['B', 'i', 't', 'S', 'e', 't', ' ', '[', '0', 'x'] + hex_numeral(v) + seq![']']
}

/// Appends the uppercase hexadecimal numeral of `v` to `st`.
fn push_hex(st: &mut String, v: u128)
    ensures
        final(st)@ == old(st)@ + hex_numeral(v as nat),
    decreases v,
{
    if v >= 16 {
        push_hex(st, v / 16);
    }
    let d = (v % 16) as usize;
    let digits = "0123456789ABCDEF";
    proof {
        reveal_strlit("0123456789ABCDEF");
        assert(digits@ =~= seq![
            '0', '1', '2', '3', '4', '5', '6', '7', '8', '9', 'A', 'B', 'C', 'D', 'E', 'F'
        ]);
    }
    let digit = digits.substring_char(d, d + 1);
    proof {
        assert(digit@ =~= seq![hex_digit(d as nat)]);
    }
    st.append(digit);
    assert(st@ =~= old(st)@ + hex_numeral(v as nat));
}

/// `BitSet [0x`, the numeral of `v`, then `]`.
pub(crate) fn display_of(v: u128) -> (r: String)
    ensures
        r@ == display_text(v as nat),
{
    proof {
        reveal_strlit("BitSet [0x");
        reveal_strlit("]");
    }
    let mut st = String::from_str("BitSet [0x");
    push_hex(&mut st, v);
    st.append("]");
    proof {
        assert(st@ =~= display_text(v as nat));
    }
    st
}

} // verus!
