//! Formatting for control instructions.

use vstd::prelude::*;
use vstd::string::StringExecFns;

use crate::bits::spec_b;
use crate::bits::spec_bit;
use crate::bits::spec_imm12_hi;
use crate::bits::spec_imm24;
use crate::bits::spec_imm4;
use crate::bits::spec_imm8;
use crate::bits::spec_rd;
use crate::bits::spec_rm;
use crate::bits::spec_rn;
use crate::disas::push_cond;
use crate::disas::push_reg;
use crate::disas::spec_cond_sfx;
use crate::fields::spec_regname;
use crate::newtype::BkptBf;
use crate::newtype::ClzBf;
use crate::newtype::SatBf;
use crate::newtype::StatusBf;
use crate::newtype::SwiBf;
use crate::numfmt::push_dec;
use crate::numfmt::push_hex;
use crate::numfmt::spec_dec;
use crate::numfmt::spec_hex;
use crate::traits::ImmBits;
use crate::traits::RegBits;
use crate::traits::SrBits;

verus! {

/// The rendering of a software interrupt.
pub open spec fn spec_svc(w: u32) -> Seq<char> {
    "svc\t 0x"@ + spec_hex(spec_imm24(w), 8)
}

/// Format an svc.
pub fn svc(op: &SwiBf) -> (r: String)
    ensures
        r@ == spec_svc(op.0),
{
    let mut s = String::new();
    s.append("svc\t 0x");
    push_hex(&mut s, op.imm24(), 8);
    proof {
        assert(s@ =~= spec_svc(op.0));
    }
    s
}

/// The rendering of a breakpoint: the 16-bit immediate assembled from its
/// two fields.
pub open spec fn spec_bkpt(w: u32) -> Seq<char> {
    "bkpt\t 0x"@ + spec_hex((spec_imm12_hi(w) << 4) | spec_imm4(w), 4)
}

/// Format a bkpt.
pub fn bkpt(op: &BkptBf) -> (r: String)
    ensures
        r@ == spec_bkpt(op.0),
{
    let v: u32 = (op.imm12_hi() << 4) | op.imm4();
    let mut s = String::new();
    s.append("bkpt\t 0x");
    push_hex(&mut s, v, 4);
    proof {
        assert(s@ =~= spec_bkpt(op.0));
    }
    s
}

/// The status register an instruction touches: SPSR when the R bit is set.
pub open spec fn spec_sr_name(w: u32) -> Seq<char> {
    if spec_b(w) {
        "SPSR"@
    } else {
        "CPSR"@
    }
}

/// The rendering of an mrs.
pub open spec fn spec_mrs(w: u32) -> Seq<char> {
    "mrs"@ + spec_cond_sfx(w) + "\t "@ + spec_regname(spec_rd(w)) + ", "@ + spec_sr_name(w)
}

/// Format an mrs.
pub fn mrs(op: &StatusBf) -> (r: String)
    ensures
        r@ == spec_mrs(op.0),
{
    let mut s = String::new();
    s.append("mrs");
    push_cond(&mut s, op.0);
    s.append("\t ");
    push_reg(&mut s, op.rd());
    s.append(", ");
    if op.r() {
        s.append("SPSR");
    } else {
        s.append("CPSR");
    }
    proof {
        assert(s@ =~= spec_mrs(op.0));
    }
    s
}

/// The field letters of an msr, highest field first: f, s, x, c for bits 3
/// down to 0 of the field mask.
pub open spec fn spec_msr_fields(w: u32) -> Seq<char> {
    (if spec_bit(spec_rn(w), 3) {
        "f"@
    } else {
        Seq::<char>::empty()
    }) + (if spec_bit(spec_rn(w), 2) {
        "s"@
    } else {
        Seq::<char>::empty()
    }) + (if spec_bit(spec_rn(w), 1) {
        "x"@
    } else {
        Seq::<char>::empty()
    }) + (if spec_bit(spec_rn(w), 0) {
        "c"@
    } else {
        Seq::<char>::empty()
    })
}

/// Append the field letters of an msr.
fn push_msr_fields(s: &mut String, op: &StatusBf)
    ensures
        final(s)@ == old(s)@ + spec_msr_fields(op.0),
{
    let fm = op.field_mask();
    if crate::bits::bit(fm, 3) {
        s.append("f");
    }
    if crate::bits::bit(fm, 2) {
        s.append("s");
    }
    if crate::bits::bit(fm, 1) {
        s.append("x");
    }
    if crate::bits::bit(fm, 0) {
        s.append("c");
    }
    proof {
        assert(s@ =~= old(s)@ + spec_msr_fields(op.0));
    }
}

/// The rendering of an msr from an immediate.
pub open spec fn spec_msr_imm(w: u32) -> Seq<char> {
    "msr"@ + spec_cond_sfx(w) + "\t "@ + spec_sr_name(w) + "_"@ + spec_msr_fields(w) + ", #"@
        + spec_dec(spec_imm8(w) as u64)
}

/// Format an msr from an immediate.
pub fn msr_imm(op: &StatusBf) -> (r: String)
    ensures
        r@ == spec_msr_imm(op.0),
{
    let mut s = String::new();
    s.append("msr");
    push_cond(&mut s, op.0);
    s.append("\t ");
    if op.r() {
        s.append("SPSR");
    } else {
        s.append("CPSR");
    }
    s.append("_");
    push_msr_fields(&mut s, op);
    s.append(", #");
    push_dec(&mut s, op.imm8() as u64);
    proof {
        assert(s@ =~= spec_msr_imm(op.0));
    }
    s
}

/// The rendering of an msr from a register.
pub open spec fn spec_msr_reg(w: u32) -> Seq<char> {
    "msr"@ + spec_cond_sfx(w) + "\t "@ + spec_sr_name(w) + "_"@ + spec_msr_fields(w) + ", "@
        + spec_regname(spec_rm(w))
}

/// Format an msr from a register.
pub fn msr_reg(op: &StatusBf) -> (r: String)
    ensures
        r@ == spec_msr_reg(op.0),
{
    let mut s = String::new();
    s.append("msr");
    push_cond(&mut s, op.0);
    s.append("\t ");
    if op.r() {
        s.append("SPSR");
    } else {
        s.append("CPSR");
    }
    s.append("_");
    push_msr_fields(&mut s, op);
    s.append(", ");
    push_reg(&mut s, op.rm());
    proof {
        assert(s@ =~= spec_msr_reg(op.0));
    }
    s
}

/// The rendering of a saturating add/subtract.
pub open spec fn spec_sat(w: u32, name: Seq<char>) -> Seq<char> {
    name + spec_cond_sfx(w) + "\t "@ + spec_regname(spec_rd(w)) + ", "@ + spec_regname(spec_rm(w))
        + ", "@ + spec_regname(spec_rn(w))
}

/// Format a saturating add/subtract under the given mnemonic.
fn sat_addsub(op: &SatBf, name: &str) -> (r: String)
    ensures
        r@ == spec_sat(op.0, name@),
{
    let mut s = String::new();
    s.append(name);
    push_cond(&mut s, op.0);
    s.append("\t ");
    push_reg(&mut s, op.rd());
    s.append(", ");
    push_reg(&mut s, op.rm());
    s.append(", ");
    push_reg(&mut s, op.rn());
    proof {
        assert(s@ =~= spec_sat(op.0, name@));
    }
    s
}

/// Format a qadd.
pub fn qadd(op: &SatBf) -> (r: String)
    ensures
        r@ == spec_sat(op.0, "qadd"@),
{
    sat_addsub(op, "qadd")
}

/// Format a qdadd.
pub fn qdadd(op: &SatBf) -> (r: String)
    ensures
        r@ == spec_sat(op.0, "qdadd"@),
{
    sat_addsub(op, "qdadd")
}

/// Format a qsub.
pub fn qsub(op: &SatBf) -> (r: String)
    ensures
        r@ == spec_sat(op.0, "qsub"@),
{
    sat_addsub(op, "qsub")
}

/// Format a qdsub.
pub fn qdsub(op: &SatBf) -> (r: String)
    ensures
        r@ == spec_sat(op.0, "qdsub"@),
{
    sat_addsub(op, "qdsub")
}

/// The rendering of a clz.
pub open spec fn spec_clz(w: u32) -> Seq<char> {
    "clz"@ + spec_cond_sfx(w) + "\t "@ + spec_regname(spec_rd(w)) + ", "@ + spec_regname(
        spec_rm(w),
    )
}

/// Format a clz.
pub fn clz(op: &ClzBf) -> (r: String)
    ensures
        r@ == spec_clz(op.0),
{
    let mut s = String::new();
    s.append("clz");
    push_cond(&mut s, op.0);
    s.append("\t ");
    push_reg(&mut s, op.rd());
    s.append(", ");
    push_reg(&mut s, op.rm());
    proof {
        assert(s@ =~= spec_clz(op.0));
    }
    s
}

} // verus!
