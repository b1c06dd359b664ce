//! A fixed-capacity set of 128 bits with value semantics.
//!
//! A `BitSet` is viewed as a sequence of 128 booleans, index 0 being the
//! least significant bit of the underlying word. Every operation is stated
//! over that view.
//!
//! Positions run from 0 to 127. Past that, `get`, `set` and `flip` answer
//! `None` and leave the set unchanged, while `test` answers `false`. Shifts
//! by 128 or more give the all-false set.
mod algebra;
mod bits;
mod bitset;
mod text;

pub use algebra::{
    lemma_all_none_exclusive,
    lemma_commutative_algebra,
    lemma_flip_commutes,
    lemma_flip_twice,
    lemma_not_involution,
    lemma_self_combination,
    lemma_set_idempotent,
    lemma_shift_bounds,
    lemma_u128_round_trip,
    lemma_u64_round_trip,
};
pub use bits::{
    all_false,
    all_true,
    bit_of,
    bits_of,
    count_set,
    fits_u64,
    lemma_word_of_bits,
    seq_and,
    seq_not,
    seq_or,
    seq_shl,
    seq_shr,
    seq_xor,
    word_of,
};
pub use bitset::{
    BitSet,
    CAPACITY,
};
pub use text::{
    bit_char,
    bit_string,
    display_text,
    hex_digit,
    hex_numeral,
};
