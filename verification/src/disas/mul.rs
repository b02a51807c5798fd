//! Formatting for multiply instructions, plain and extended.

use vstd::prelude::*;
use vstd::string::StringExecFns;

use crate::bits::spec_rd;
use crate::bits::spec_rm;
use crate::bits::spec_rn;
use crate::bits::spec_rs;
use crate::bits::spec_x;
use crate::bits::spec_y;
use crate::disas::push_cond;
use crate::disas::push_reg;
use crate::disas::spec_cond_sfx;
use crate::fields::spec_regname;
use crate::newtype::MulBf;
use crate::traits::MultiplyBits;
use crate::traits::RegBits;

verus! {

/// The bottom/top suffix pair of a halfword multiply.
pub open spec fn spec_xy_sfx(w: u32) -> Seq<char> {
    if !spec_x(w) && !spec_y(w) {
        "bb"@
    } else if !spec_x(w) && spec_y(w) {
        "bt"@
    } else if spec_x(w) && !spec_y(w) {
        "tb"@
    } else {
        "tt"@
    }
}

/// Append the bottom/top suffix pair of a halfword multiply.
fn push_xy(s: &mut String, op: &MulBf)
    ensures
        final(s)@ == old(s)@ + spec_xy_sfx(op.0),
{
    match (op.x(), op.y()) {
        (false, false) => s.append("bb"),
        (false, true) => s.append("bt"),
        (true, false) => s.append("tb"),
        (true, true) => s.append("tt"),
    }
}

/// The bottom/top suffix of a word-by-halfword multiply.
pub open spec fn spec_y_sfx(w: u32) -> Seq<char> {
    if spec_y(w) {
        "t"@
    } else {
        "b"@
    }
}

/// The rendering of a signed halfword multiply-accumulate.
pub open spec fn spec_smla_xy(w: u32) -> Seq<char> {
    "smla"@ + spec_xy_sfx(w) + spec_cond_sfx(w) + "\t "@ + spec_regname(spec_rn(w)) + ", "@
        + spec_regname(spec_rm(w)) + ", "@ + spec_regname(spec_rs(w)) + ", "@ + spec_regname(
        spec_rd(w),
    )
}

/// Format an smla with halfword operands.
pub fn smla_xy(op: &MulBf) -> (r: String)
    ensures
        r@ == spec_smla_xy(op.0),
{
    let mut s = String::new();
    s.append("smla");
    push_xy(&mut s, op);
    push_cond(&mut s, op.0);
    s.append("\t ");
    push_reg(&mut s, op.rn());
    s.append(", ");
    push_reg(&mut s, op.rm());
    s.append(", ");
    push_reg(&mut s, op.rs());
    s.append(", ");
    push_reg(&mut s, op.rd());
    proof {
        assert(s@ =~= spec_smla_xy(op.0));
    }
    s
}

/// The rendering of a signed long halfword multiply-accumulate.
pub open spec fn spec_smlal_xy(w: u32) -> Seq<char> {
    "smlal"@ + spec_xy_sfx(w) + spec_cond_sfx(w) + " "@ + spec_regname(spec_rd(w)) + ", "@
        + spec_regname(spec_rn(w)) + ", "@ + spec_regname(spec_rm(w)) + ", "@ + spec_regname(
        spec_rs(w),
    )
}

/// Format an smlal with halfword operands.
pub fn smlal_xy(op: &MulBf) -> (r: String)
    ensures
        r@ == spec_smlal_xy(op.0),
{
    let mut s = String::new();
    s.append("smlal");
    push_xy(&mut s, op);
    push_cond(&mut s, op.0);
    s.append(" ");
    push_reg(&mut s, op.rd());
    s.append(", ");
    push_reg(&mut s, op.rn());
    s.append(", ");
    push_reg(&mut s, op.rm());
    s.append(", ");
    push_reg(&mut s, op.rs());
    proof {
        assert(s@ =~= spec_smlal_xy(op.0));
    }
    s
}

/// The rendering of a signed halfword multiply.
pub open spec fn spec_smul_xy(w: u32) -> Seq<char> {
    "smul"@ + spec_xy_sfx(w) + spec_cond_sfx(w) + "  "@ + spec_regname(spec_rn(w)) + ", "@
        + spec_regname(spec_rm(w)) + ", "@ + spec_regname(spec_rs(w))
}

/// Format an smul with halfword operands.
pub fn smul_xy(op: &MulBf) -> (r: String)
    ensures
        r@ == spec_smul_xy(op.0),
{
    let mut s = String::new();
    s.append("smul");
    push_xy(&mut s, op);
    push_cond(&mut s, op.0);
    s.append("  ");
    push_reg(&mut s, op.rn());
    s.append(", ");
    push_reg(&mut s, op.rm());
    s.append(", ");
    push_reg(&mut s, op.rs());
    proof {
        assert(s@ =~= spec_smul_xy(op.0));
    }
    s
}

/// The rendering of a signed word-by-halfword multiply-accumulate.
pub open spec fn spec_smlaw_y(w: u32) -> Seq<char> {
    "smlaw"@ + spec_y_sfx(w) + spec_cond_sfx(w) + "  "@ + spec_regname(spec_rn(w)) + ", "@
        + spec_regname(spec_rm(w)) + ", "@ + spec_regname(spec_rs(w)) + ", "@ + spec_regname(
        spec_rd(w),
    )
}

/// Format an smlaw.
pub fn smlaw_y(op: &MulBf) -> (r: String)
    ensures
        r@ == spec_smlaw_y(op.0),
{
    let mut s = String::new();
    s.append("smlaw");
    if op.y() {
        s.append("t");
    } else {
        s.append("b");
    }
    push_cond(&mut s, op.0);
    s.append("  ");
    push_reg(&mut s, op.rn());
    s.append(", ");
    push_reg(&mut s, op.rm());
    s.append(", ");
    push_reg(&mut s, op.rs());
    s.append(", ");
    push_reg(&mut s, op.rd());
    proof {
        assert(s@ =~= spec_smlaw_y(op.0));
    }
    s
}

/// The rendering of a signed word-by-halfword multiply.
pub open spec fn spec_smulw_y(w: u32) -> Seq<char> {
    "smulw"@ + spec_y_sfx(w) + spec_cond_sfx(w) + "  "@ + spec_regname(spec_rn(w)) + ", "@
        + spec_regname(spec_rm(w)) + ", "@ + spec_regname(spec_rs(w))
}

/// Format an smulw.
pub fn smulw_y(op: &MulBf) -> (r: String)
    ensures
        r@ == spec_smulw_y(op.0),
{
    let mut s = String::new();
    s.append("smulw");
    if op.y() {
        s.append("t");
    } else {
        s.append("b");
    }
    push_cond(&mut s, op.0);
    s.append("  ");
    push_reg(&mut s, op.rn());
    s.append(", ");
    push_reg(&mut s, op.rm());
    s.append(", ");
    push_reg(&mut s, op.rs());
    proof {
        assert(s@ =~= spec_smulw_y(op.0));
    }
    s
}

/// The rendering of a 32-bit multiply; the accumulating form lists the addend
/// register last.
pub open spec fn spec_mul(w: u32) -> Seq<char> {
    "mul"@ + spec_cond_sfx(w) + "\t "@ + spec_regname(spec_rn(w)) + ", "@ + spec_regname(
        spec_rm(w),
    ) + ", "@ + spec_regname(spec_rs(w))
}

/// Format a mul.
pub fn mul(op: &MulBf) -> (r: String)
    ensures
        r@ == spec_mul(op.0),
{
    let mut s = String::new();
    s.append("mul");
    push_cond(&mut s, op.0);
    s.append("\t ");
    push_reg(&mut s, op.rn());
    s.append(", ");
    push_reg(&mut s, op.rm());
    s.append(", ");
    push_reg(&mut s, op.rs());
    proof {
        assert(s@ =~= spec_mul(op.0));
    }
    s
}

/// The rendering of a multiply-accumulate: the addend register comes last.
pub open spec fn spec_mla(w: u32) -> Seq<char> {
    "mla"@ + spec_cond_sfx(w) + "\t "@ + spec_regname(spec_rn(w)) + ", "@ + spec_regname(
        spec_rm(w),
    ) + ", "@ + spec_regname(spec_rs(w)) + ", "@ + spec_regname(spec_rd(w))
}

/// Format an mla.
pub fn mla(op: &MulBf) -> (r: String)
    ensures
        r@ == spec_mla(op.0),
{
    let mut s = String::new();
    s.append("mla");
    push_cond(&mut s, op.0);
    s.append("\t ");
    push_reg(&mut s, op.rn());
    s.append(", ");
    push_reg(&mut s, op.rm());
    s.append(", ");
    push_reg(&mut s, op.rs());
    s.append(", ");
    push_reg(&mut s, op.rd());
    proof {
        assert(s@ =~= spec_mla(op.0));
    }
    s
}

/// The rendering of a long multiply under the given mnemonic: low then high
/// destination, then the operands.
pub open spec fn spec_mul_long(w: u32, name: Seq<char>) -> Seq<char> {
    name + spec_cond_sfx(w) + "\t "@ + spec_regname(spec_rd(w)) + ", "@ + spec_regname(spec_rn(w))
        + ", "@ + spec_regname(spec_rm(w)) + ", "@ + spec_regname(spec_rs(w))
}

/// Format a long multiply under the given mnemonic.
fn mul_long(op: &MulBf, name: &str) -> (r: String)
    ensures
        r@ == spec_mul_long(op.0, name@),
{
    let mut s = String::new();
    s.append(name);
    push_cond(&mut s, op.0);
    s.append("\t ");
    push_reg(&mut s, op.rd_lo());
    s.append(", ");
    push_reg(&mut s, op.rd_hi());
    s.append(", ");
    push_reg(&mut s, op.rm());
    s.append(", ");
    push_reg(&mut s, op.rs());
    proof {
        assert(s@ =~= spec_mul_long(op.0, name@));
    }
    s
}

/// Format an umull.
pub fn umull(op: &MulBf) -> (r: String)
    ensures
        r@ == spec_mul_long(op.0, "umull"@),
{
    mul_long(op, "umull")
}

/// Format an umlal.
pub fn umlal(op: &MulBf) -> (r: String)
    ensures
        r@ == spec_mul_long(op.0, "umlal"@),
{
    mul_long(op, "umlal")
}

/// Format an smlal.
pub fn smlal(op: &MulBf) -> (r: String)
    ensures
        r@ == spec_mul_long(op.0, "smlal"@),
{
    mul_long(op, "smlal")
}

/// Format an smull.
pub fn smull(op: &MulBf) -> (r: String)
    ensures
        r@ == spec_mul_long(op.0, "smull"@),
{
    mul_long(op, "smull")
}

} // verus!
