//! Tests for the bitfield views, the field value types, and the byte-buffer
//! helper.

use armdecode::disas::branch::sign_extend;
use armdecode::fields::regname;
use armdecode::fields::Cond;
use armdecode::fields::CoprocNumber;
use armdecode::fields::CoprocRegister;
use armdecode::fields::Opcode;
use armdecode::fields::Register;
use armdecode::fields::ShifterType;
use armdecode::make_u32_buf;
use armdecode::newtype::BranchBf;
use armdecode::newtype::BxBf;
use armdecode::newtype::DpRotImmBf;
use armdecode::newtype::LsMultiBf;
use armdecode::newtype::PushPopBf;
use armdecode::newtype::ThumbDpFmt3Bf;
use armdecode::newtype::ThumbBxBf;
use armdecode::newtype::ThumbLsMultiBf;
use armdecode::traits::BranchBits;
use armdecode::traits::ImmBits;
use armdecode::traits::InstBits;
use armdecode::traits::LsBits;
use armdecode::traits::DpFmt3Bits;
use armdecode::traits::LsMultiBits;
use armdecode::traits::LsMultiFmt1Bits;
use armdecode::traits::LsMultiFmt2Bits;
use armdecode::traits::RegBits;
use armdecode::traits::RotBits;
use armdecode::traits::ThumbBranchExchangeBits;

#[test]
fn golden_mov_fields() {
    let op = DpRotImmBf(0xE3A01005);
    assert_eq!(op.cond(), 0b1110);
    assert_eq!(op.rd(), 1);
    assert_eq!(op.imm8(), 5);
    assert_eq!(op.rot_imm(), 0);
}

#[test]
fn golden_push_fields() {
    let op = LsMultiBf(0xE92D4010);
    assert!(!op.l());
    assert!(op.p());
    assert!(!op.u());
    assert!(op.w());
    assert_eq!(op.rn(), 13);
    assert_eq!(op.reglist(), (1 << 4) | (1 << 14));
}

#[test]
fn golden_branch_fields() {
    let op = BranchBf(0xEB000002);
    assert!(op.link());
    assert_eq!(op.imm24(), 2);
}

#[test]
fn golden_bx_fields() {
    let op = BxBf(0x012FFF1E);
    assert_eq!(op.rm(), 14);
}

#[test]
fn golden_thumb_bx_fields() {
    let op = ThumbBxBf(0x4770);
    assert_eq!(op.rm(), 14);
}

#[test]
fn view_group_field() {
    assert_eq!(DpRotImmBf(0xE3A01005).group(), 0b001);
    assert_eq!(LsMultiBf(0xE92D4010).group(), 0b100);
}

#[test]
fn field_names() {
    assert_eq!(Cond::from_u32(0).name(), "eq");
    assert_eq!(Cond::from_u32(14).name(), "");
    assert_eq!(Cond::from_u32(15).name(), "");
    assert_eq!(Opcode::from_u32(13).name(), "mov");
    assert_eq!(Register::from_u32(13).name(), "sp");
    assert_eq!(Register::from_u32(12).name(), "ip");
    assert_eq!(regname(15), "pc");
    assert_eq!(ShifterType::from_u32(2).name(), "asr");
    assert_eq!(CoprocNumber::from_u32(15).name(), "p15");
    assert_eq!(CoprocRegister::from_u32(3).name(), "cr3");
}

#[test]
fn shifter_compute() {
    assert_eq!(ShifterType::Lsl.compute(1, 4), (16, Some(false)));
    assert_eq!(ShifterType::Lsl.compute(0x0800_0000, 4), (0x8000_0000, Some(true)));
    assert_eq!(ShifterType::Lsl.compute(5, 0), (5, None));
    assert_eq!(ShifterType::Lsr.compute(0x10, 4), (1, Some(false)));
    assert_eq!(ShifterType::Lsr.compute(0x18, 4), (1, Some(true)));
    assert_eq!(ShifterType::Ror.compute(0x8000_0001, 4), (0x1800_0000, Some(true)));
    assert_eq!(ShifterType::Asr.compute(0x8000_0000, 4), (0xF800_0000, Some(false)));
}

#[test]
fn sign_extend_branch_immediates() {
    assert_eq!(sign_extend(2, 24), 2);
    assert_eq!(sign_extend(0x00FF_FFFE, 24), -2);
    assert_eq!(sign_extend(0x007F_FFFF, 24), 0x007F_FFFF);
    assert_eq!(sign_extend(0x0080_0000, 24), -0x0080_0000);
}

#[test]
fn byte_buffer_big_endian() {
    let bytes: Vec<u8> = vec![0xE9, 0x2D, 0x40, 0x10, 0x01, 0x2F, 0xFF, 0x1E];
    let words = make_u32_buf(&bytes);
    assert_eq!(words, vec![0xE92D4010, 0x012FFF1E]);
}

#[test]
fn byte_buffer_empty() {
    let bytes: Vec<u8> = Vec::new();
    let words = make_u32_buf(&bytes);
    assert!(words.is_empty());
}

#[test]
fn thumb_push_fields() {
    // push {r4, lr}
    let op = PushPopBf(0xB510);
    assert_eq!(op.reglist(), 1 << 4);
    assert!(op.r());
    assert!(!op.l());
}

#[test]
fn thumb_ls_multi_fields() {
    // stmia r2!, {r0, r1}
    let op = ThumbLsMultiBf(0xC203);
    assert_eq!(op.reglist(), 0b11);
    assert_eq!(op.rn(), 2);
    assert!(!op.l());
}

#[test]
fn thumb_imm_formats() {
    // mov r3, #42
    let op = ThumbDpFmt3Bf(0x232A);
    assert_eq!(op.rd(), 3);
    assert_eq!(op.imm8(), 42);
    assert_eq!(op.op3(), 0b00);
}

#[test]
fn it_works() {
    assert_eq!(2 + 2, 4);
}
