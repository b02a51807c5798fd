//! Tests for the ARM and Thumb decode trees.

use armdecode::bits::is_valid_control_instr;
use armdecode::bits::is_valid_lsmisc_instr;
use armdecode::bits::is_valid_multiply_instr;
use armdecode::inst::ArmInst;
use armdecode::inst::ThumbInst;

#[test]
fn thumb_decode() {
    for i in 0..0x800u16 {
        println!("{:04x} {:?}", i << 5, ThumbInst::decode(i << 5));
    }
}

#[test]
fn golden_mov_rot_imm() {
    assert!(matches!(ArmInst::decode(0xE3A01005), ArmInst::MovRotImm));
}

#[test]
fn golden_push() {
    assert!(matches!(ArmInst::decode(0xE92D4010), ArmInst::Stmdb));
}

#[test]
fn golden_branch_link() {
    assert!(matches!(ArmInst::decode(0xEB000002), ArmInst::Bl));
}

#[test]
fn golden_bx() {
    assert!(matches!(ArmInst::decode(0x012FFF1E), ArmInst::Bx));
}

#[test]
fn golden_thumb_bx() {
    assert!(matches!(ThumbInst::decode(0x4770), ThumbInst::Bx));
}

#[test]
fn thumb_decode_total() {
    // Every halfword decodes to some kind; the harness would abort on a
    // panic.
    let mut count: u64 = 0;
    for x in 0..=0xFFFFu16 {
        let _ = ThumbInst::decode(x);
        count += 1;
    }
    assert_eq!(count, 0x10000);
}

#[test]
fn arm_decode_total_sample() {
    // A spread over the high half plus both extremes of the low half.
    for hi in 0..=0xFFFFu32 {
        let _ = ArmInst::decode(hi << 16);
        let _ = ArmInst::decode((hi << 16) | 0xFFFF);
    }
    let _ = ArmInst::decode(0);
    let _ = ArmInst::decode(0xFFFF_FFFF);
}

#[test]
fn multiply_priority_over_lsmisc() {
    // The word matches both the multiply and the load/store misc. masks;
    // the tree must classify it as a multiply.
    let w: u32 = 0xE0030291;
    assert!(is_valid_multiply_instr(w));
    assert!(is_valid_lsmisc_instr(w));
    assert!(!is_valid_control_instr(w));
    assert!(matches!(ArmInst::decode(w), ArmInst::Mul));
}

#[test]
fn swap_not_multiply() {
    // A swap matches the load/store misc. mask but not the multiply mask.
    let w: u32 = 0xE1013092;
    assert!(!is_valid_multiply_instr(w));
    assert!(is_valid_lsmisc_instr(w));
    assert!(matches!(ArmInst::decode(w), ArmInst::Swp));
}

#[test]
fn decode_idempotent() {
    let words = [0xE3A01005u32, 0xE92D4010, 0xEB000002, 0x012FFF1E, 0xE0030291, 0x00000000];
    for &w in words.iter() {
        assert_eq!(ArmInst::decode(w), ArmInst::decode(w));
    }
    for x in 0..=0xFFFFu16 {
        assert_eq!(ThumbInst::decode(x), ThumbInst::decode(x));
    }
}

#[test]
fn blx_needs_unconditional_cond() {
    assert!(matches!(ArmInst::decode(0xFB000000), ArmInst::BlxImm));
    assert!(matches!(ArmInst::decode(0xEB000000), ArmInst::Bl));
    assert!(matches!(ArmInst::decode(0xEA000000), ArmInst::B));
}

#[test]
fn swi_undefined_when_cond_is_ones() {
    assert!(matches!(ArmInst::decode(0xEF000000), ArmInst::Swi));
    assert!(matches!(ArmInst::decode(0xFF000000), ArmInst::Undefined));
}

#[test]
fn media_encoding_is_undefined() {
    assert!(matches!(ArmInst::decode(0xE6000010), ArmInst::Undefined));
}

#[test]
fn coprocessor_group() {
    assert!(matches!(ArmInst::decode(0xEC000000), ArmInst::CoprocLs));
    assert!(matches!(ArmInst::decode(0xEE000000), ArmInst::CoprocDp));
    assert!(matches!(ArmInst::decode(0xEE110F10), ArmInst::Mrc));
    assert!(matches!(ArmInst::decode(0xEE010F10), ArmInst::Mcr));
}

#[test]
fn thumb_unconditional_branch_group_is_undefined() {
    // Thumb-2 prefixes are out of scope: the whole top group decodes to the
    // sentinel.
    for x in (0xE000u16..=0xFFFF).step_by(0x101) {
        assert!(matches!(ThumbInst::decode(x), ThumbInst::Undefined));
    }
}
