//! Formatting for branching instructions.

use vstd::prelude::*;
use vstd::string::StringExecFns;

use crate::bits::spec_imm24;
use crate::bits::spec_rm;
use crate::disas::push_cond;
use crate::disas::push_reg;
use crate::disas::spec_cond_sfx;
use crate::fields::spec_regname;
use crate::newtype::BranchBf;
use crate::newtype::BxBf;
use crate::numfmt::push_dec_i64;
use crate::numfmt::spec_dec_int;
use crate::traits::ImmBits;
use crate::traits::RegBits;

verus! {

/// A value sign-extended from the given number of bits: when the sign bit is
/// set, the bits above it are filled with ones.
pub open spec fn spec_sign_extend(x: i32, bits: i32) -> i32 {
    if (x >> (bits - 1)) & 1 != 0 {
        x | ((-1i32) << bits)
    } else {
        x
    }
}

/// Sign extend to some number of bits.
#[verifier::when_used_as_spec(spec_sign_extend)]
pub fn sign_extend(x: i32, bits: i32) -> (r: i32)
    requires
        0 < bits < 32,
    ensures
        r == spec_sign_extend(x, bits),
{
    if (x >> (bits - 1)) & 1 != 0 {
        x | ((-1i32) << bits)
    } else {
        x
    }
}

/// The branch displacement of a word: its 24-bit immediate sign-extended and
/// scaled to bytes.
pub open spec fn spec_branch_off(w: u32) -> int {
    (spec_sign_extend(spec_imm24(w) as i32, 24) << 2) as int
}

/// The rendering of a branch under the given mnemonic: the mnemonic, the
/// condition suffix, and the displacement in decimal.
pub open spec fn spec_branch(w: u32, name: Seq<char>) -> Seq<char> {
    name + spec_cond_sfx(w) + "\t "@ + spec_dec_int(spec_branch_off(w))
}

/// Format a branch under the given mnemonic.
fn branch_generic(op: &BranchBf, name: &str) -> (r: String)
    ensures
        r@ == spec_branch(op.0, name@),
{
    let imm24: i32 = sign_extend(op.imm24() as i32, 24) << 2;
    let mut s = String::new();
    s.append(name);
    push_cond(&mut s, op.0);
    s.append("\t ");
    push_dec_i64(&mut s, imm24 as i64);
    proof {
        assert(s@ =~= spec_branch(op.0, name@));
    }
    s
}

/// Format a blx to an immediate target.
#[allow(unused_variables)]
pub fn blx_imm(op: &BranchBf, offset: u32) -> (r: String)
    ensures
        r@ == spec_branch(op.0, "blx"@),
{
    branch_generic(op, "blx")
}

/// Format a blx to a register target.
pub fn blx_reg(op: &BranchBf) -> (r: String)
    ensures
        r@ == "blx\t "@ + spec_regname(spec_rm(op.0)),
{
    let mut s = String::new();
    s.append("blx\t ");
    push_reg(&mut s, op.rm());
    proof {
        assert(s@ =~= "blx\t "@ + spec_regname(spec_rm(op.0)));
    }
    s
}

/// The rendering of a bx.
pub open spec fn spec_bx(w: u32) -> Seq<char> {
    "bx"@ + spec_cond_sfx(w) + "\t "@ + spec_regname(spec_rm(w))
}

/// Format a bx.
pub fn bx(op: &BxBf) -> (r: String)
    ensures
        r@ == spec_bx(op.0),
{
    let mut s = String::new();
    s.append("bx");
    push_cond(&mut s, op.0);
    s.append("\t ");
    push_reg(&mut s, op.rm());
    proof {
        assert(s@ =~= spec_bx(op.0));
    }
    s
}

/// Format a branch-and-link.
#[allow(unused_variables)]
pub fn bl(op: &BranchBf, offset: u32) -> (r: String)
    ensures
        r@ == spec_branch(op.0, "bl"@),
{
    branch_generic(op, "bl")
}

/// Format a branch.
#[allow(unused_variables)]
pub fn b(op: &BranchBf, offset: u32) -> (r: String)
    ensures
        r@ == spec_branch(op.0, "b"@),
{
    branch_generic(op, "b")
}


/// What the branch displacement is worth as a number: four times the 24-bit
/// immediate, reduced by 2^26 when the immediate's sign bit is set.
pub proof fn lemma_branch_off_value(w: u32)
    ensures
        spec_branch_off(w) == if spec_imm24(w) < 0x0080_0000 {
            4 * spec_imm24(w)
        } else {
            4 * spec_imm24(w) - 0x0400_0000
        },
{
    assert((spec_sign_extend(spec_imm24(w) as i32, 24) << 2) == if spec_imm24(w) < 0x0080_0000 {
        (4 * spec_imm24(w)) as i32
    } else {
        ((4 * spec_imm24(w)) as i32).wrapping_sub(0x0400_0000)
    }) by (bit_vector);
    assert(spec_imm24(w) < 0x0100_0000) by (bit_vector);
}

} // verus!
