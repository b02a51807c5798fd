//! Formatting for data-processing instructions.

use vstd::prelude::*;
use vstd::string::StringExecFns;

use crate::bits::spec_imm8;
use crate::bits::spec_opcd;
use crate::bits::spec_rd;
use crate::bits::spec_rm;
use crate::bits::spec_rn;
use crate::bits::spec_rs;
use crate::bits::spec_shift_imm;
use crate::disas::ls::spec_shift_name;
use crate::disas::push_cond;
use crate::disas::push_reg;
use crate::disas::spec_cond_sfx;
use crate::fields::spec_opcode_from_u32;
use crate::fields::spec_opcode_name;
use crate::fields::spec_regname;
use crate::fields::Opcode;
use crate::fields::ShifterType;
use crate::newtype::DpRotImmBf;
use crate::newtype::DpShiftBf;
use crate::numfmt::push_dec;
use crate::numfmt::spec_dec;
use crate::traits::DpBits;
use crate::traits::ImmBits;
use crate::traits::RegBits;
use crate::traits::ShiftBits;

verus! {

/// The mnemonic of the data-processing opcode of a word.
pub open spec fn spec_opcd_name(w: u32) -> Seq<char> {
    spec_opcode_name(spec_opcode_from_u32(spec_opcd(w)))
}

/// The rendering of a rotate-immediate mov or compare: one source operand.
pub open spec fn spec_rot_imm_mov_cmp(w: u32) -> Seq<char> {
    spec_opcd_name(w) + spec_cond_sfx(w) + "\t "@ + spec_regname(spec_rn(w)) + ", #"@ + spec_dec(
        spec_imm8(w) as u64,
    )
}

/// Format a rotate-immediate mov or compare.
pub fn rot_imm_mov_cmp(op: &DpRotImmBf) -> (r: String)
    ensures
        r@ == spec_rot_imm_mov_cmp(op.0),
{
    let mut s = String::new();
    s.append(Opcode::from_u32(op.opcd()).name());
    push_cond(&mut s, op.0);
    s.append("\t ");
    push_reg(&mut s, op.rn());
    s.append(", #");
    push_dec(&mut s, op.imm8() as u64);
    proof {
        assert(s@ =~= spec_rot_imm_mov_cmp(op.0));
    }
    s
}

/// The rendering of a rotate-immediate arithmetic operation.
pub open spec fn spec_rot_imm_arith(w: u32) -> Seq<char> {
    spec_opcd_name(w) + spec_cond_sfx(w) + "\t "@ + spec_regname(spec_rd(w)) + ", "@
        + spec_regname(spec_rn(w)) + ", #"@ + spec_dec(spec_imm8(w) as u64)
}

/// Format a rotate-immediate arithmetic operation.
pub fn rot_imm_arith(op: &DpRotImmBf) -> (r: String)
    ensures
        r@ == spec_rot_imm_arith(op.0),
{
    let mut s = String::new();
    s.append(Opcode::from_u32(op.opcd()).name());
    push_cond(&mut s, op.0);
    s.append("\t ");
    push_reg(&mut s, op.rd());
    s.append(", ");
    push_reg(&mut s, op.rn());
    s.append(", #");
    push_dec(&mut s, op.imm8() as u64);
    proof {
        assert(s@ =~= spec_rot_imm_arith(op.0));
    }
    s
}

/// The rendering of a shift-immediate arithmetic operation; a zero shift
/// immediate prints no shifter operand.
pub open spec fn spec_shift_imm_arith(w: u32) -> Seq<char> {
    if spec_shift_imm(w) == 0 {
        spec_opcd_name(w) + spec_cond_sfx(w) + "\t "@ + spec_regname(spec_rd(w)) + ", "@
            + spec_regname(spec_rn(w)) + ", "@ + spec_regname(spec_rm(w))
    } else {
        spec_opcd_name(w) + spec_cond_sfx(w) + "\t "@ + spec_regname(spec_rd(w)) + ", "@
            + spec_regname(spec_rn(w)) + ", "@ + spec_regname(spec_rm(w)) + " "@ + spec_shift_name(
            w,
        ) + " #"@ + spec_dec(spec_shift_imm(w) as u64)
    }
}

/// Format a shift-immediate arithmetic operation.
#[verifier::rlimit(100)]
pub fn shift_imm_arith(op: &DpShiftBf) -> (r: String)
    ensures
        r@ == spec_shift_imm_arith(op.0),
{
    let shift_imm = op.shift_imm();
    let mut s = String::new();
    s.append(Opcode::from_u32(op.opcd()).name());
    push_cond(&mut s, op.0);
    s.append("\t ");
    push_reg(&mut s, op.rd());
    s.append(", ");
    push_reg(&mut s, op.rn());
    s.append(", ");
    push_reg(&mut s, op.rm());
    if shift_imm != 0 {
        s.append(" ");
        s.append(ShifterType::from_u32(op.shift()).name());
        s.append(" #");
        push_dec(&mut s, shift_imm as u64);
    }
    proof {
        assert(s@ =~= spec_shift_imm_arith(op.0));
    }
    s
}

/// The rendering of a shift-immediate compare; a zero shift immediate prints
/// no shifter operand.
pub open spec fn spec_shift_imm_cmp(w: u32) -> Seq<char> {
    if spec_shift_imm(w) == 0 {
        spec_opcd_name(w) + spec_cond_sfx(w) + "\t "@ + spec_regname(spec_rn(w)) + ", "@
            + spec_regname(spec_rm(w))
    } else {
        spec_opcd_name(w) + spec_cond_sfx(w) + "\t "@ + spec_regname(spec_rn(w)) + ", "@
            + spec_regname(spec_rm(w)) + ", "@ + spec_shift_name(w) + " #"@ + spec_dec(
            spec_shift_imm(w) as u64,
        )
    }
}

/// Format a shift-immediate compare.
#[verifier::rlimit(100)]
pub fn shift_imm_cmp(op: &DpShiftBf) -> (r: String)
    ensures
        r@ == spec_shift_imm_cmp(op.0),
{
    let shift_imm = op.shift_imm();
    let mut s = String::new();
    s.append(Opcode::from_u32(op.opcd()).name());
    push_cond(&mut s, op.0);
    s.append("\t ");
    push_reg(&mut s, op.rn());
    s.append(", ");
    push_reg(&mut s, op.rm());
    if shift_imm != 0 {
        s.append(", ");
        s.append(ShifterType::from_u32(op.shift()).name());
        s.append(" #");
        push_dec(&mut s, shift_imm as u64);
    }
    proof {
        assert(s@ =~= spec_shift_imm_cmp(op.0));
    }
    s
}

/// The rendering of a shift-immediate mov or mvn: a mov with a shift prints
/// the shift mnemonic itself, while an mvn keeps its own mnemonic.
pub open spec fn spec_shift_imm_mov(w: u32) -> Seq<char> {
    if spec_shift_imm(w) == 0 {
        spec_opcd_name(w) + spec_cond_sfx(w) + "\t "@ + spec_regname(spec_rd(w)) + ", "@
            + spec_regname(spec_rm(w))
    } else if spec_opcode_from_u32(spec_opcd(w)) is Mov {
        spec_shift_name(w) + spec_cond_sfx(w) + "\t "@ + spec_regname(spec_rd(w)) + ", "@
            + spec_regname(spec_rm(w)) + ", #"@ + spec_dec(spec_shift_imm(w) as u64)
    } else {
        spec_opcd_name(w) + spec_cond_sfx(w) + "\t "@ + spec_regname(spec_rd(w)) + ", "@
            + spec_regname(spec_rm(w)) + ", "@ + spec_shift_name(w) + " #"@ + spec_dec(
            spec_shift_imm(w) as u64,
        )
    }
}

/// Format a shift-immediate mov or mvn.
#[verifier::rlimit(100)]
pub fn shift_imm_mov(op: &DpShiftBf) -> (r: String)
    ensures
        r@ == spec_shift_imm_mov(op.0),
{
    let shift_imm = op.shift_imm();
    let opcd = Opcode::from_u32(op.opcd());
    let mut s = String::new();
    if shift_imm == 0 {
        s.append(opcd.name());
        push_cond(&mut s, op.0);
        s.append("\t ");
        push_reg(&mut s, op.rd());
        s.append(", ");
        push_reg(&mut s, op.rm());
    } else if matches!(opcd, Opcode::Mov) {
        s.append(ShifterType::from_u32(op.shift()).name());
        push_cond(&mut s, op.0);
        s.append("\t ");
        push_reg(&mut s, op.rd());
        s.append(", ");
        push_reg(&mut s, op.rm());
        s.append(", #");
        push_dec(&mut s, shift_imm as u64);
    } else {
        s.append(opcd.name());
        push_cond(&mut s, op.0);
        s.append("\t ");
        push_reg(&mut s, op.rd());
        s.append(", ");
        push_reg(&mut s, op.rm());
        s.append(", ");
        s.append(ShifterType::from_u32(op.shift()).name());
        s.append(" #");
        push_dec(&mut s, shift_imm as u64);
    }
    proof {
        assert(s@ =~= spec_shift_imm_mov(op.0));
    }
    s
}

/// The rendering of a shift-register arithmetic operation.
pub open spec fn spec_shift_reg_arith(w: u32) -> Seq<char> {
    spec_opcd_name(w) + spec_cond_sfx(w) + "\t "@ + spec_regname(spec_rd(w)) + ", "@
        + spec_regname(spec_rn(w)) + ", "@ + spec_regname(spec_rm(w)) + " "@ + spec_shift_name(w)
        + " "@ + spec_regname(spec_rs(w))
}

/// Format a shift-register arithmetic operation.
#[verifier::rlimit(100)]
pub fn shift_reg_arith(op: &DpShiftBf) -> (r: String)
    ensures
        r@ == spec_shift_reg_arith(op.0),
{
    let mut s = String::new();
    s.append(Opcode::from_u32(op.opcd()).name());
    push_cond(&mut s, op.0);
    s.append("\t ");
    push_reg(&mut s, op.rd());
    s.append(", ");
    push_reg(&mut s, op.rn());
    s.append(", ");
    push_reg(&mut s, op.rm());
    s.append(" ");
    s.append(ShifterType::from_u32(op.shift()).name());
    s.append(" ");
    push_reg(&mut s, op.rs());
    proof {
        assert(s@ =~= spec_shift_reg_arith(op.0));
    }
    s
}

/// The rendering of a shift-register compare.
pub open spec fn spec_shift_reg_cmp(w: u32) -> Seq<char> {
    spec_opcd_name(w) + spec_cond_sfx(w) + "\t "@ + spec_regname(spec_rn(w)) + ", "@
        + spec_regname(spec_rm(w)) + ", "@ + spec_shift_name(w) + " "@ + spec_regname(spec_rs(w))
}

/// Format a shift-register compare.
#[verifier::rlimit(100)]
pub fn shift_reg_cmp(op: &DpShiftBf) -> (r: String)
    ensures
        r@ == spec_shift_reg_cmp(op.0),
{
    let mut s = String::new();
    s.append(Opcode::from_u32(op.opcd()).name());
    push_cond(&mut s, op.0);
    s.append("\t ");
    push_reg(&mut s, op.rn());
    s.append(", ");
    push_reg(&mut s, op.rm());
    s.append(", ");
    s.append(ShifterType::from_u32(op.shift()).name());
    s.append(" ");
    push_reg(&mut s, op.rs());
    proof {
        assert(s@ =~= spec_shift_reg_cmp(op.0));
    }
    s
}

/// The rendering of a shift-register mov or mvn.
pub open spec fn spec_shift_reg_mov(w: u32) -> Seq<char> {
    if spec_opcode_from_u32(spec_opcd(w)) is Mov {
        spec_shift_name(w) + spec_cond_sfx(w) + "\t "@ + spec_regname(spec_rd(w)) + ", "@
            + spec_regname(spec_rm(w)) + ", "@ + spec_regname(spec_rs(w))
    } else {
        spec_opcd_name(w) + spec_cond_sfx(w) + "\t "@ + spec_regname(spec_rd(w)) + ", "@
            + spec_regname(spec_rm(w)) + ", "@ + spec_shift_name(w) + " "@ + spec_regname(
            spec_rs(w),
        )
    }
}

/// Format a shift-register mov or mvn.
#[verifier::rlimit(100)]
pub fn shift_reg_mov(op: &DpShiftBf) -> (r: String)
    ensures
        r@ == spec_shift_reg_mov(op.0),
{
    let opcd = Opcode::from_u32(op.opcd());
    let mut s = String::new();
    if matches!(opcd, Opcode::Mov) {
        s.append(ShifterType::from_u32(op.shift()).name());
        push_cond(&mut s, op.0);
        s.append("\t ");
        push_reg(&mut s, op.rd());
        s.append(", ");
        push_reg(&mut s, op.rm());
        s.append(", ");
        push_reg(&mut s, op.rs());
    } else {
        s.append(opcd.name());
        push_cond(&mut s, op.0);
        s.append("\t ");
        push_reg(&mut s, op.rd());
        s.append(", ");
        push_reg(&mut s, op.rm());
        s.append(", ");
        s.append(ShifterType::from_u32(op.shift()).name());
        s.append(" ");
        push_reg(&mut s, op.rs());
    }
    proof {
        assert(s@ =~= spec_shift_reg_mov(op.0));
    }
    s
}

} // verus!
