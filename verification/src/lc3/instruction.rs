//! Bit-level decoding utilities: field extraction, sign extension and
//! condition-flag classification, together with the bit-vector lemmas the
//! instruction handlers rely on.

use vstd::prelude::*;

use crate::lc3::consts::{condition_flag_bits, ConditionFlag};

verus! {

/// The mask selecting the low `w` bits of a word.
pub open spec fn mask_spec(w: u16) -> u16
    recommends
        w < 16,
{
    ((1u16 << w) - 1) as u16
}

/// The `length`-bit field of `instruction` whose lowest bit is bit
/// `start_pos`.
pub open spec fn arg_spec(instruction: u16, start_pos: u16, length: u16) -> u16
    recommends
        start_pos < 16,
        length < 16,
{
    (instruction >> start_pos) & mask_spec(length)
}

/// A `w`-bit two's-complement value widened to 16 bits: bits at and above
/// `w` are copies of bit `w - 1`.
pub open spec fn sign_extend_spec(x: u16, w: u16) -> u16
    recommends
        1 <= w < 16,
{
    if (x >> ((w - 1) as u16)) & 1 != 0 {
        x | (0xFFFFu16 << w)
    } else {
        x
    }
}

/// The classification a value stores into the condition register: zero,
/// negative (high bit set) or positive.
pub open spec fn cond_flag_of(v: u16) -> ConditionFlag {
    if v == 0 {
        ConditionFlag::ZRO
    } else if v >> 15 != 0 {
        ConditionFlag::NEG
    } else {
        ConditionFlag::POS
    }
}

/// The bit pattern the condition register holds after `v` is written to a
/// general register.
pub open spec fn flag_bits_of(v: u16) -> u16 {
    condition_flag_bits(cond_flag_of(v))
}

/// A masked value never exceeds its mask.
pub proof fn lemma_and_mask_le(x: u16, m: u16)
    by (bit_vector)
    ensures
        x & m <= m,
{
}

/// Bounds of the instruction fields the handlers extract: a field of `w`
/// bits is below `1 << w`.
pub proof fn lemma_arg_bounds(x: u16, s: u16)
    by (bit_vector)
    requires
        s < 16,
    ensures
        arg_spec(x, s, 1) < 2,
        arg_spec(x, s, 3) < 8,
        arg_spec(x, s, 5) < 32,
        arg_spec(x, s, 6) < 64,
        arg_spec(x, s, 8) < 256,
        arg_spec(x, s, 9) < 512,
        arg_spec(x, s, 11) < 2048,
        x >> 12 < 16,
        x & 0xFF < 256,
        x >> 8 < 256,
{
}

/// A value is classified negative exactly when its high bit is set.
pub proof fn lemma_negative_is_high_bit(v: u16)
    by (bit_vector)
    ensures
        (v >> 15 != 0) <==> v >= 0x8000,
{
}

/// The condition register holds exactly one of the three flag patterns
/// after any classification.
pub proof fn lemma_flag_bits_valid(v: u16)
    ensures
        flag_bits_of(v) == 1 || flag_bits_of(v) == 2 || flag_bits_of(v) == 4,
{
}

/// Sign extension of a 5-bit field: with bit 4 set the bits above the field
/// are filled with ones, so the result is `x | 0xFFE0`; with bit 4 clear a
/// properly masked field is returned unchanged.
pub proof fn lemma_sign_extend_width5(x: u16)
    by (bit_vector)
    ensures
        x & 0x10 != 0 ==> sign_extend_spec(x, 5) == (x | 0xFFE0),
        x & 0x10 == 0 && x < 0x20 ==> sign_extend_spec(x, 5) == x,
{
}

/// Create a bit mask for the low `num_bits` bits of a word.
pub fn bit_mask(num_bits: u16) -> (mask: u16)
    requires
        num_bits < 16,
    ensures
        mask == mask_spec(num_bits),
{
    proof {
        assert(1u16 << num_bits >= 1) by (bit_vector)
            requires
                num_bits < 16,
        ;
    }
    (1u16 << num_bits) - 1
}

/// Retrieve an argument field of an instruction word: the `length`-bit
/// slice starting at bit `start_pos`.
pub fn get_arg(instruction: u16, start_pos: u16, length: u16) -> (arg: u16)
    requires
        start_pos < 16,
        length < 16,
    ensures
        arg == arg_spec(instruction, start_pos, length),
        arg <= mask_spec(length),
{
    let m: u16 = bit_mask(length);
    proof {
        lemma_and_mask_le(instruction >> start_pos, m);
    }
    (instruction >> start_pos) & m
}

/// Extend a `bit_count`-bit immediate value to 16 bits, replicating its
/// sign bit: ones are filled in above the field for negative values and
/// zeros for positive ones.
pub fn sign_extend(x: u16, bit_count: usize) -> (r: u16)
    requires
        1 <= bit_count < 16,
    ensures
        r == sign_extend_spec(x, bit_count as u16),
{
    let w: u16 = bit_count as u16;
    if (x >> (w - 1)) & 1 != 0 {
        x | (0xFFFFu16 << w)
    } else {
        x
    }
}

/// Classify a value as the condition flag it stores: `ZRO` for zero, `NEG`
/// when the high bit is set, `POS` otherwise.
pub fn get_cond_flag(value: u16) -> (flag: ConditionFlag)
    ensures
        flag == cond_flag_of(value),
{
    if value == 0 {
        ConditionFlag::ZRO
    } else if value >> 15 != 0 {
        ConditionFlag::NEG
    } else {
        ConditionFlag::POS
    }
}

} // verus!
