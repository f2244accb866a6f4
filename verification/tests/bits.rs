//! Tests for the bit-level decoding utilities.

use lc3::lc3::consts::ConditionFlag;
use lc3::lc3::instruction::{bit_mask, get_arg, get_cond_flag, sign_extend};

#[test]
fn sign_extend_width5_negative_fills_high_bits() {
    // Bit 4 set: the result is the input with the bits above the field set.
    for x in 0x10u16..0x20u16 {
        assert_eq!(sign_extend(x, 5), x | 0xFFE0);
    }
    assert_eq!(sign_extend(0x1F, 5), 0xFFFF);
    assert_eq!(sign_extend(0x10, 5), 0xFFF0);
}

#[test]
fn sign_extend_width5_positive_is_unchanged() {
    // Bit 4 clear: a masked field comes back unchanged, zero above.
    for x in 0x00u16..0x10u16 {
        assert_eq!(sign_extend(x, 5), x);
    }
}

#[test]
fn sign_extend_other_widths() {
    assert_eq!(sign_extend(0x1FF, 9), 0xFFFF);
    assert_eq!(sign_extend(0x100, 9), 0xFF00);
    assert_eq!(sign_extend(0x0FF, 9), 0x00FF);
    assert_eq!(sign_extend(0x3F, 6), 0xFFFF);
    assert_eq!(sign_extend(0x1F, 6), 0x001F);
    assert_eq!(sign_extend(0x7FF, 11), 0xFFFF);
    assert_eq!(sign_extend(0x3FF, 11), 0x03FF);
}

#[test]
fn bit_mask_values() {
    assert_eq!(bit_mask(0), 0);
    assert_eq!(bit_mask(1), 1);
    assert_eq!(bit_mask(3), 7);
    assert_eq!(bit_mask(5), 0x1F);
    assert_eq!(bit_mask(6), 0x3F);
    assert_eq!(bit_mask(8), 0xFF);
    assert_eq!(bit_mask(9), 0x1FF);
    assert_eq!(bit_mask(11), 0x7FF);
    assert_eq!(bit_mask(15), 0x7FFF);
}

#[test]
fn get_arg_extracts_fields() {
    // 0001 000 001 0 00 010: ADD R0, R1, R2
    let instr: u16 = 0x1042;
    assert_eq!(get_arg(instr, 12, 4), 1);
    assert_eq!(get_arg(instr, 9, 3), 0);
    assert_eq!(get_arg(instr, 6, 3), 1);
    assert_eq!(get_arg(instr, 5, 1), 0);
    assert_eq!(get_arg(instr, 0, 3), 2);
    assert_eq!(get_arg(0xFFFF, 0, 9), 0x1FF);
}

#[test]
fn cond_flag_classification() {
    assert_eq!(get_cond_flag(0), ConditionFlag::ZRO);
    assert_eq!(get_cond_flag(1), ConditionFlag::POS);
    assert_eq!(get_cond_flag(0x7FFF), ConditionFlag::POS);
    assert_eq!(get_cond_flag(0x8000), ConditionFlag::NEG);
    assert_eq!(get_cond_flag(0xFFFF), ConditionFlag::NEG);
}

#[test]
fn cond_flag_bit_patterns() {
    assert_eq!(ConditionFlag::POS.bits(), 1);
    assert_eq!(ConditionFlag::ZRO.bits(), 2);
    assert_eq!(ConditionFlag::NEG.bits(), 4);
}
