//! Tests for the disassembly formatters and the formatting lookup table.

use armdecode::disas::branch;
use armdecode::disas::cp;
use armdecode::disas::ctrl;
use armdecode::disas::dp;
use armdecode::disas::ls;
use armdecode::disas::undef_instr;
use armdecode::disas::ARMLookupTable;
use armdecode::newtype::BkptBf;
use armdecode::newtype::BranchBf;
use armdecode::newtype::BxBf;
use armdecode::newtype::CoprocBf;
use armdecode::newtype::DpRotImmBf;
use armdecode::newtype::DpShiftImmBf;
use armdecode::newtype::DpShiftRegBf;
use armdecode::newtype::DpShiftBf;
use armdecode::newtype::LsImmBf;
use armdecode::newtype::LsMiscBf;
use armdecode::newtype::LsMultiBf;
use armdecode::newtype::StatusBf;
use armdecode::newtype::SwiBf;

#[test]
fn fmt_push() {
    assert_eq!(ls::stmdb(&LsMultiBf(0xE92D4010)), "stmdb sp!, {r4, lr}");
}

#[test]
fn fmt_ldr_imm() {
    assert_eq!(ls::ldr_imm(&LsImmBf(0xE59F1000)), "ldr\t r1, [pc, #0]");
}

#[test]
fn fmt_mov_rot_imm() {
    assert_eq!(dp::rot_imm_mov_cmp(&DpRotImmBf(0xE3A01005)), "mov\t r0, #5");
}

#[test]
fn fmt_bx() {
    assert_eq!(branch::bx(&BxBf(0x012FFF1E)), "bxeq\t lr");
}

#[test]
fn fmt_branch_link() {
    assert_eq!(branch::bl(&BranchBf(0xEB000002), 0), "bl\t 8");
}

#[test]
fn fmt_branch_negative() {
    assert_eq!(branch::b(&BranchBf(0xEAFFFFFE), 0), "b\t -8");
}

#[test]
fn fmt_svc_hex() {
    assert_eq!(ctrl::svc(&SwiBf(0xEF00000F)), "svc\t 0x0000000f");
}

#[test]
fn fmt_bkpt_hex() {
    assert_eq!(ctrl::bkpt(&BkptBf(0xE1212374)), "bkpt\t 0x1234");
}

#[test]
fn fmt_msr_fields() {
    assert_eq!(ctrl::msr_reg(&StatusBf(0xE129F001)), "msr\t CPSR_fc, r1");
}

#[test]
fn fmt_strh_negative_offset() {
    // Offset nibbles 1 and 2 assemble to 18; the clear U bit negates it.
    assert_eq!(ls::strh_imm(&LsMiscBf(0xE14131B2)), "strh\t r3, [r1, #-18]");
}

#[test]
fn fmt_add_with_shift() {
    assert_eq!(dp::shift_imm_arith(&DpShiftBf(0xE0821203)), "add\t r1, r2, r3 lsl #4");
}

#[test]
fn fmt_mrc() {
    assert_eq!(cp::mrc(&CoprocBf(0xEE110F10)), "mrc\t p15, 1, r0, cr1, cr0, {0}");
}

#[test]
fn fmt_empty_reglist() {
    assert_eq!(ls::stmia(&LsMultiBf(0xE8800000)), "stmia r0, {}");
}

#[test]
fn fmt_undef_names_index() {
    assert_eq!(undef_instr(&0xE6000010), "No instruction; LUT index = 0601");
}

#[test]
fn table_disassembles_push() {
    let lut = ARMLookupTable::new();
    assert_eq!(lut.disassemble(&0xE92D4010), "stmdb sp!, {r4, lr}");
}

#[test]
fn table_disassembles_mov() {
    let lut = ARMLookupTable::new();
    assert_eq!(lut.disassemble(&0xE3A01005), "mov\t r0, #5");
}

#[test]
fn table_disassembles_undefined() {
    let lut = ARMLookupTable::new();
    assert_eq!(lut.disassemble(&0xE6000010), "No instruction; LUT index = 0601");
}

#[test]
fn table_disassembly_deterministic() {
    let a = ARMLookupTable::new();
    let b = ARMLookupTable::new();
    assert_eq!(a.data, b.data);
    for &w in [0xE92D4010u32, 0xE3A01005, 0xEB000002, 0x012FFF1E].iter() {
        assert_eq!(a.disassemble(&w), b.disassemble(&w));
    }
}

#[test]
fn table_disassembly_total() {
    // Every canonical word, and an operand-laden variant of each, formats
    // without panicking.
    let lut = ARMLookupTable::new();
    for i in 0..0x1000u32 {
        let w = armdecode::lut::arm_synth(i);
        let _ = lut.disassemble(&w);
        let _ = lut.disassemble(&(w | 0xE000_0000 | 0x000F_F00F));
        let _ = lut.disassemble(&(w | 0x0020_0000 | 0x000F_F00F));
    }
}

#[test]
fn fmt_whole_word_dp_rot_imm() {
    // The whole-word formatter prints the destination register for mov.
    assert_eq!(armdecode::armfmt::dp_rot_imm(&DpRotImmBf(0xE3A01005)), "mov\t r1, #5");
    assert_eq!(armdecode::armfmt::dp_rot_imm(&DpRotImmBf(0xE3510005)), "cmp\t r1, #5");
    assert_eq!(armdecode::armfmt::dp_rot_imm(&DpRotImmBf(0xE2821005)), "add\t r1, r2, #5");
}

#[test]
fn fmt_whole_word_dp_shift_imm() {
    assert_eq!(armdecode::armfmt::dp_shift_imm(&DpShiftImmBf(0xE0821203)), "add\t r1, r2, r3 lsl #4");
    assert_eq!(armdecode::armfmt::dp_shift_imm(&DpShiftImmBf(0xE1A01203)), "lsl\t r1, r3, #4");
}

#[test]
fn fmt_whole_word_dp_shift_reg() {
    assert_eq!(armdecode::armfmt::dp_shift_reg(&DpShiftRegBf(0xE1E01312)), "mvn\t r1, r2, lsl r3");
}

#[test]
fn fmt_whole_word_swi() {
    assert_eq!(armdecode::armfmt::swi(&SwiBf(0xEF00000F)), "svc\t 0x0000000f");
}

#[test]
fn fmt_whole_word_halfword() {
    assert_eq!(armdecode::armfmt::ls_halfword_imm(&LsMiscBf(0xE14131B2)), "strh\t r3, [r1, #-18]");
    assert_eq!(armdecode::armfmt::ls_halfword_imm(&LsMiscBf(0xE15131B2)), "ldrh\t r3, [r1, #-18]");
}

#[test]
fn fmt_whole_word_branch_resolved() {
    assert_eq!(armdecode::armfmt::branch(&BranchBf(0xEB000002), 0x100), "bl\t 0110");
    assert_eq!(armdecode::armfmt::branch(&BranchBf(0xEAFFFFFE), 0), "b\t 0000");
    assert_eq!(armdecode::armfmt::branch(&BranchBf(0xEAFFFFFD), 0), "b\t fffffffffffffffc");
}

#[test]
fn fmt_mla() {
    assert_eq!(armdecode::disas::mul::mla(&armdecode::newtype::MulBf(0xE0214392)), "mla\t r1, r2, r3, r4");
}

#[test]
fn fmt_smla() {
    assert_eq!(armdecode::disas::mul::smla_xy(&armdecode::newtype::MulBf(0xE1014382)), "smlabb\t r1, r2, r3, r4");
}

#[test]
fn table_disassembles_stmib() {
    let lut = ARMLookupTable::new();
    assert_eq!(lut.disassemble(&0xE9800012), "stmib r0, {r1, r4}");
}
