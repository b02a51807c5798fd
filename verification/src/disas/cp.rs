//! Formatting for coprocessor register transfers.

use vstd::prelude::*;
use vstd::string::StringExecFns;

use crate::bits::spec_cp_num;
use crate::bits::spec_cp_opcd1;
use crate::bits::spec_cp_opcd2;
use crate::bits::spec_rd;
use crate::bits::spec_rm;
use crate::bits::spec_rn;
use crate::disas::push_cond;
use crate::disas::push_reg;
use crate::disas::spec_cond_sfx;
use crate::fields::spec_coproc_number_from_u32;
use crate::fields::spec_coproc_number_name;
use crate::fields::spec_coproc_register_from_u32;
use crate::fields::spec_coproc_register_name;
use crate::fields::spec_regname;
use crate::fields::CoprocNumber;
use crate::fields::CoprocRegister;
use crate::newtype::CoprocBf;
use crate::numfmt::push_dec;
use crate::numfmt::spec_dec;
use crate::traits::CoprocBits;
use crate::traits::RegBits;

verus! {

/// The printed name of the coprocessor number of a word.
pub open spec fn spec_cp_num_name(w: u32) -> Seq<char> {
    spec_coproc_number_name(spec_coproc_number_from_u32(spec_cp_num(w)))
}

/// The printed name of the coprocessor register encoded by a 4-bit value.
pub open spec fn spec_cp_reg_name(v: u32) -> Seq<char> {
    spec_coproc_register_name(spec_coproc_register_from_u32(v))
}

/// The rendering of a coprocessor register transfer: the coprocessor number,
/// its opcode, the core register, the two coprocessor registers, and the
/// second opcode in braces.
pub open spec fn spec_coproc_rt(w: u32, name: Seq<char>) -> Seq<char> {
    name + spec_cond_sfx(w) + "\t "@ + spec_cp_num_name(w) + ", "@ + spec_dec(
        spec_cp_opcd1(w) as u64,
    ) + ", "@ + spec_regname(spec_rd(w)) + ", "@ + spec_cp_reg_name(spec_rn(w)) + ", "@
        + spec_cp_reg_name(spec_rm(w)) + ", {"@ + spec_dec(spec_cp_opcd2(w) as u64) + "}"@
}

/// Format a coprocessor register transfer under the given mnemonic.
fn coproc_rt(op: &CoprocBf, name: &str) -> (r: String)
    ensures
        r@ == spec_coproc_rt(op.0, name@),
{
    let mut s = String::new();
    s.append(name);
    push_cond(&mut s, op.0);
    s.append("\t ");
    s.append(CoprocNumber::from_u32(op.cp_num()).name());
    s.append(", ");
    push_dec(&mut s, op.opcd1() as u64);
    s.append(", ");
    push_reg(&mut s, op.crd());
    s.append(", ");
    s.append(CoprocRegister::from_u32(op.crn()).name());
    s.append(", ");
    s.append(CoprocRegister::from_u32(op.crm()).name());
    s.append(", {");
    push_dec(&mut s, op.opcd2() as u64);
    s.append("}");
    proof {
        assert(s@ =~= spec_coproc_rt(op.0, name@));
    }
    s
}

/// Format an mrc.
pub fn mrc(op: &CoprocBf) -> (r: String)
    ensures
        r@ == spec_coproc_rt(op.0, "mrc"@),
{
    coproc_rt(op, "mrc")
}

/// Format an mcr.
pub fn mcr(op: &CoprocBf) -> (r: String)
    ensures
        r@ == spec_coproc_rt(op.0, "mcr"@),
{
    coproc_rt(op, "mcr")
}

} // verus!
