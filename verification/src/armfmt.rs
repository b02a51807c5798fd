//! Whole-instruction formatters that pick every part of the text, the
//! mnemonic included, from the word itself.
//!
//! The formatters in `crate::disas` assume a dispatcher has already chosen the
//! mnemonic for them; these read the opcode, load and width bits out of the
//! word instead, so one function covers a whole data-processing or load/store
//! family.

use vstd::prelude::*;
use vstd::string::StringExecFns;

use crate::bits::spec_imm24;
use crate::bits::spec_imm8;
use crate::bits::spec_l;
use crate::bits::spec_opcd;
use crate::bits::spec_rd;
use crate::bits::spec_rn;
use crate::disas::ctrl::spec_svc;
use crate::disas::dp::spec_rot_imm_mov_cmp;
use crate::disas::dp::spec_shift_imm_arith;
use crate::disas::dp::spec_shift_imm_cmp;
use crate::disas::dp::spec_shift_imm_mov;
use crate::disas::dp::spec_shift_reg_arith;
use crate::disas::dp::spec_shift_reg_cmp;
use crate::disas::dp::spec_shift_reg_mov;
use crate::disas::ls::spec_ls_misc_imm;
use crate::disas::ls::spec_ls_misc_reg;
use crate::disas::push_cond;
use crate::disas::push_reg;
use crate::disas::spec_cond_sfx;
use crate::fields::spec_opcode_from_u32;
use crate::fields::Opcode;
use crate::newtype::BranchBf;
use crate::newtype::DpRotImmBf;
use crate::newtype::DpShiftBf;
use crate::newtype::DpShiftImmBf;
use crate::newtype::DpShiftRegBf;
use crate::newtype::LsMiscBf;
use crate::newtype::SwiBf;
use crate::numfmt::push_dec;
use crate::numfmt::push_hex;
use crate::numfmt::push_hex_min;
use crate::numfmt::spec_dec;
use crate::numfmt::spec_hex_min;
use crate::traits::BranchBits;
use crate::traits::DpBits;
use crate::traits::ImmBits;
use crate::traits::LsBits;
use crate::traits::RegBits;

verus! {

/// Format a software interrupt.
pub fn swi(op: &SwiBf) -> (r: String)
    ensures
        r@ == spec_svc(op.0),
{
    let mut s = String::new();
    s.append("svc\t 0x");
    push_hex(&mut s, op.imm24(), 8);
    proof {
        assert(s@ =~= spec_svc(op.0));
    }
    s
}

/// Whether a data-processing opcode takes no destination register.
pub open spec fn spec_is_cmp_opcd(o: Opcode) -> bool {
    o is Tst || o is Teq || o is Cmp || o is Cmn
}

/// The rendering of a rotate-immediate data-processing instruction of any
/// opcode: compares print their operand register, moves their destination,
/// and the arithmetic forms both.
pub open spec fn spec_dp_rot_imm(w: u32) -> Seq<char> {
    let o = spec_opcode_from_u32(spec_opcd(w));
    if spec_is_cmp_opcd(o) {
        spec_rot_imm_mov_cmp(w)
    } else if o is Mov || o is Mvn {
        crate::fields::spec_opcode_name(o) + spec_cond_sfx(w) + "\t "@
            + crate::fields::spec_regname(spec_rd(w)) + ", #"@ + spec_dec(spec_imm8(w) as u64)
    } else {
        crate::fields::spec_opcode_name(o) + spec_cond_sfx(w) + "\t "@
            + crate::fields::spec_regname(spec_rd(w)) + ", "@ + crate::fields::spec_regname(
            spec_rn(w),
        ) + ", #"@ + spec_dec(spec_imm8(w) as u64)
    }
}

/// Format a rotate-immediate data-processing instruction of any opcode.
#[verifier::rlimit(100)]
pub fn dp_rot_imm(op: &DpRotImmBf) -> (r: String)
    ensures
        r@ == spec_dp_rot_imm(op.0),
{
    let opcd = Opcode::from_u32(op.opcd());
    let mut s = String::new();
    s.append(opcd.name());
    push_cond(&mut s, op.0);
    s.append("\t ");
    match opcd {
        Opcode::Tst | Opcode::Teq | Opcode::Cmp | Opcode::Cmn => {
            push_reg(&mut s, op.rn());
            s.append(", #");
            push_dec(&mut s, op.imm8() as u64);
        },
        Opcode::Mov | Opcode::Mvn => {
            push_reg(&mut s, op.rd());
            s.append(", #");
            push_dec(&mut s, op.imm8() as u64);
        },
        _ => {
            push_reg(&mut s, op.rd());
            s.append(", ");
            push_reg(&mut s, op.rn());
            s.append(", #");
            push_dec(&mut s, op.imm8() as u64);
        },
    }
    proof {
        assert(s@ =~= spec_dp_rot_imm(op.0));
    }
    s
}

/// The rendering of a shift-immediate data-processing instruction of any
/// opcode.
pub open spec fn spec_dp_shift_imm(w: u32) -> Seq<char> {
    let o = spec_opcode_from_u32(spec_opcd(w));
    if spec_is_cmp_opcd(o) {
        spec_shift_imm_cmp(w)
    } else if o is Mov || o is Mvn {
        spec_shift_imm_mov(w)
    } else {
        spec_shift_imm_arith(w)
    }
}

/// Format a shift-immediate data-processing instruction of any opcode.
pub fn dp_shift_imm(op: &DpShiftImmBf) -> (r: String)
    ensures
        r@ == spec_dp_shift_imm(op.0),
{
    let inner = DpShiftBf(op.0);
    match Opcode::from_u32(op.opcd()) {
        Opcode::Tst | Opcode::Teq | Opcode::Cmp | Opcode::Cmn => crate::disas::dp::shift_imm_cmp(
            &inner,
        ),
        Opcode::Mov | Opcode::Mvn => crate::disas::dp::shift_imm_mov(&inner),
        _ => crate::disas::dp::shift_imm_arith(&inner),
    }
}

/// The rendering of a shift-register data-processing instruction of any
/// opcode.
pub open spec fn spec_dp_shift_reg(w: u32) -> Seq<char> {
    let o = spec_opcode_from_u32(spec_opcd(w));
    if spec_is_cmp_opcd(o) {
        spec_shift_reg_cmp(w)
    } else if o is Mov || o is Mvn {
        spec_shift_reg_mov(w)
    } else {
        spec_shift_reg_arith(w)
    }
}

/// Format a shift-register data-processing instruction of any opcode.
pub fn dp_shift_reg(op: &DpShiftRegBf) -> (r: String)
    ensures
        r@ == spec_dp_shift_reg(op.0),
{
    let inner = DpShiftBf(op.0);
    match Opcode::from_u32(op.opcd()) {
        Opcode::Tst | Opcode::Teq | Opcode::Cmp | Opcode::Cmn => crate::disas::dp::shift_reg_cmp(
            &inner,
        ),
        Opcode::Mov | Opcode::Mvn => crate::disas::dp::shift_reg_mov(&inner),
        _ => crate::disas::dp::shift_reg_arith(&inner),
    }
}

/// The halfword-transfer mnemonic a word selects with its load bit.
pub open spec fn spec_halfword_name(w: u32) -> Seq<char> {
    if spec_l(w) {
        "ldrh"@
    } else {
        "strh"@
    }
}

/// Format a halfword load/store with an immediate offset, picking the
/// mnemonic from the load bit.
pub fn ls_halfword_imm(op: &LsMiscBf) -> (r: String)
    ensures
        r@ == spec_ls_misc_imm(op.0, spec_halfword_name(op.0)),
{
    if op.l() {
        crate::disas::ls::ls_misc_imm(op, "ldrh")
    } else {
        crate::disas::ls::ls_misc_imm(op, "strh")
    }
}

/// Format a halfword load/store with a register offset, picking the mnemonic
/// from the load bit.
pub fn ls_halfword_reg(op: &LsMiscBf) -> (r: String)
    ensures
        r@ == spec_ls_misc_reg(op.0, spec_halfword_name(op.0)),
{
    if op.l() {
        crate::disas::ls::ls_misc_reg(op, "ldrh")
    } else {
        crate::disas::ls::ls_misc_reg(op, "strh")
    }
}


/// The destination a branch resolves to: the offset of the word in its
/// buffer, plus the scaled displacement, plus the eight bytes of prefetch.
pub open spec fn spec_branch_dest(w: u32, offset: u32) -> int {
    (offset as i64) + ((crate::disas::branch::spec_branch_off(w)) as i64) + 8
}

/// The rendering of a branch with its destination resolved: the mnemonic is
/// picked from the link bit, and the destination prints as the lower-hex
/// 64-bit two's-complement pattern, zero-padded to at least four digits.
pub open spec fn spec_branch_resolved(w: u32, offset: u32) -> Seq<char> {
    (if crate::bits::spec_p(w) {
        "bl"@
    } else {
        "b"@
    }) + spec_cond_sfx(w) + "\t "@ + spec_hex_min(spec_branch_dest(w, offset) as u64, 4)
}

/// Format a branch against the offset of its word in the buffer.
pub fn branch(op: &BranchBf, offset: u32) -> (r: String)
    ensures
        r@ == spec_branch_resolved(op.0, offset),
{
    let imm24: i32 = crate::disas::branch::sign_extend(op.imm24() as i32, 24) << 2;
    let dest: i64 = (offset as i64) + (imm24 as i64) + 8;
    let mut s = String::new();
    if op.link() {
        s.append("bl");
    } else {
        s.append("b");
    }
    push_cond(&mut s, op.0);
    s.append("\t ");
    push_hex_min(&mut s, #[verifier::truncate] (dest as u64), 4);
    proof {
        assert(s@ =~= spec_branch_resolved(op.0, offset));
    }
    s
}

} // verus!
