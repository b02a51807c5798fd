//! Formatting for load/store instructions.

use vstd::prelude::*;
use vstd::string::StringExecFns;

use crate::bits::spec_bit;
use crate::bits::spec_off_hi;
use crate::bits::spec_off_lo;
use crate::bits::spec_p;
use crate::bits::spec_rd;
use crate::bits::spec_reglist;
use crate::bits::spec_rm;
use crate::bits::spec_rn;
use crate::bits::spec_shift;
use crate::bits::spec_shift_imm;
use crate::bits::spec_u;
use crate::bits::spec_w;
use crate::disas::push_cond;
use crate::disas::push_reg;
use crate::disas::spec_cond_sfx;
use crate::fields::spec_regname;
use crate::fields::spec_shifter_from_u32;
use crate::fields::spec_shifter_name;
use crate::fields::ShifterType;
use crate::newtype::LsImmBf;
use crate::newtype::LsMiscBf;
use crate::newtype::LsMultiBf;
use crate::newtype::LsShiftBf;
use crate::newtype::SwpBf;
use crate::numfmt::push_dec;
use crate::numfmt::push_dec_i64;
use crate::numfmt::spec_dec;
use crate::numfmt::spec_dec_int;
use crate::traits::ImmBits;
use crate::traits::LsBits;
use crate::traits::LsMultiBits;
use crate::traits::RegBits;
use crate::traits::ShiftBits;

verus! {

/// The mnemonic of the shift type of a word.
pub open spec fn spec_shift_name(w: u32) -> Seq<char> {
    spec_shifter_name(spec_shifter_from_u32(spec_shift(w)))
}

/// The address part of a register-offset load/store.  Post-indexed forms with
/// writeback have no rendering: the formatters require them away.
pub open spec fn spec_ls_reg_addr(w: u32) -> Seq<char> {
    if spec_shift_imm(w) == 0 {
        if spec_p(w) && !spec_w(w) {
            "["@ + spec_regname(spec_rn(w)) + ", "@ + spec_regname(spec_rm(w)) + "]"@
        } else if spec_p(w) && spec_w(w) {
            "["@ + spec_regname(spec_rn(w)) + ", "@ + spec_regname(spec_rm(w)) + "]!"@
        } else {
            "["@ + spec_regname(spec_rn(w)) + "], "@ + spec_regname(spec_rm(w))
        }
    } else {
        if spec_p(w) && !spec_w(w) {
            "["@ + spec_regname(spec_rn(w)) + ", "@ + spec_regname(spec_rm(w)) + ", "@
                + spec_shift_name(w) + " #"@ + spec_dec(spec_shift_imm(w) as u64) + "]"@
        } else if spec_p(w) && spec_w(w) {
            "["@ + spec_regname(spec_rn(w)) + ", "@ + spec_regname(spec_rm(w)) + ", "@
                + spec_shift_name(w) + " #"@ + spec_dec(spec_shift_imm(w) as u64) + "]!"@
        } else {
            "["@ + spec_regname(spec_rn(w)) + "], "@ + spec_regname(spec_rm(w)) + ", "@
                + spec_shift_name(w) + " #"@ + spec_dec(spec_shift_imm(w) as u64)
        }
    }
}

/// The rendering of a register-offset load/store.
pub open spec fn spec_ls_reg(w: u32, name: Seq<char>) -> Seq<char> {
    name + "\t "@ + spec_regname(spec_rd(w)) + ", "@ + spec_ls_reg_addr(w)
}

/// Format the address part of a register-offset load/store.
fn ls_reg_addr(op: &LsShiftBf) -> (a: String)
    requires
        spec_p(op.0) || !spec_w(op.0),
    ensures
        a@ == spec_ls_reg_addr(op.0),
{
    let mut a = String::new();
    let si = op.shift_imm();
    if si == 0 {
        if op.p() && !op.w() {
            a.append("[");
            push_reg(&mut a, op.rn());
            a.append(", ");
            push_reg(&mut a, op.rm());
            a.append("]");
            proof {
                assert(a@ =~= spec_ls_reg_addr(op.0));
            }
        } else if op.p() && op.w() {
            a.append("[");
            push_reg(&mut a, op.rn());
            a.append(", ");
            push_reg(&mut a, op.rm());
            a.append("]!");
            proof {
                assert(a@ =~= spec_ls_reg_addr(op.0));
            }
        } else {
            a.append("[");
            push_reg(&mut a, op.rn());
            a.append("], ");
            push_reg(&mut a, op.rm());
            proof {
                assert(a@ =~= spec_ls_reg_addr(op.0));
            }
        }
    } else {
        a.append("[");
        push_reg(&mut a, op.rn());
        if op.p() {
            a.append(", ");
        } else {
            a.append("], ");
        }
        push_reg(&mut a, op.rm());
        a.append(", ");
        a.append(ShifterType::from_u32(op.shift()).name());
        a.append(" #");
        push_dec(&mut a, si as u64);
        if op.p() && op.w() {
            a.append("]!");
            proof {
                assert(a@ =~= spec_ls_reg_addr(op.0));
            }
        } else if op.p() {
            a.append("]");
            proof {
                assert(a@ =~= spec_ls_reg_addr(op.0));
            }
        } else {
            proof {
                assert(a@ =~= spec_ls_reg_addr(op.0));
            }
        }
    }
    a
}

/// Format a register-offset load/store under the given mnemonic.
pub fn ls_reg(op: &LsShiftBf, name: &str) -> (r: String)
    requires
        spec_p(op.0) || !spec_w(op.0),
    ensures
        r@ == spec_ls_reg(op.0, name@),
{
    let fmt = ls_reg_addr(op);
    let mut s = String::new();
    s.append(name);
    s.append("\t ");
    push_reg(&mut s, op.rd());
    s.append(", ");
    s.append(fmt.as_str());
    proof {
        assert(s@ =~= spec_ls_reg(op.0, name@));
    }
    s
}

/// Format an ldrb with a register offset.
pub fn ldrb_reg(op: &LsShiftBf) -> (r: String)
    requires
        spec_p(op.0) || !spec_w(op.0),
    ensures
        r@ == spec_ls_reg(op.0, "ldrb"@),
{
    ls_reg(op, "ldrb")
}

/// Format a strb with a register offset.
pub fn strb_reg(op: &LsShiftBf) -> (r: String)
    requires
        spec_p(op.0) || !spec_w(op.0),
    ensures
        r@ == spec_ls_reg(op.0, "strb"@),
{
    ls_reg(op, "strb")
}

/// Format an ldr with a register offset.
pub fn ldr_reg(op: &LsShiftBf) -> (r: String)
    requires
        spec_p(op.0) || !spec_w(op.0),
    ensures
        r@ == spec_ls_reg(op.0, "ldr"@),
{
    ls_reg(op, "ldr")
}

/// Format a str with a register offset.
pub fn str_reg(op: &LsShiftBf) -> (r: String)
    requires
        spec_p(op.0) || !spec_w(op.0),
    ensures
        r@ == spec_ls_reg(op.0, "str"@),
{
    ls_reg(op, "str")
}

/// The address part of an immediate-offset load/store.
pub open spec fn spec_ls_imm_addr(w: u32) -> Seq<char> {
    if spec_p(w) && !spec_w(w) {
        "["@ + spec_regname(spec_rn(w)) + ", #"@ + spec_dec(crate::bits::spec_imm12(w) as u64)
            + "]"@
    } else if spec_p(w) && spec_w(w) {
        "["@ + spec_regname(spec_rn(w)) + ", #"@ + spec_dec(crate::bits::spec_imm12(w) as u64)
            + "]!"@
    } else {
        "["@ + spec_regname(spec_rn(w)) + "], #"@ + spec_dec(crate::bits::spec_imm12(w) as u64)
    }
}

/// The rendering of an immediate-offset load/store.
pub open spec fn spec_ls_imm(w: u32, name: Seq<char>) -> Seq<char> {
    name + "\t "@ + spec_regname(spec_rd(w)) + ", "@ + spec_ls_imm_addr(w)
}

/// Format an immediate-offset load/store under the given mnemonic.
#[verifier::rlimit(100)]
pub fn ls_imm(op: &LsImmBf, name: &str) -> (r: String)
    requires
        spec_p(op.0) || !spec_w(op.0),
    ensures
        r@ == spec_ls_imm(op.0, name@),
{
    let mut s = String::new();
    s.append(name);
    s.append("\t ");
    push_reg(&mut s, op.rd());
    s.append(", ");
    s.append("[");
    push_reg(&mut s, op.rn());
    if op.p() {
        s.append(", #");
    } else {
        s.append("], #");
    }
    push_dec(&mut s, op.imm12() as u64);
    if op.p() && op.w() {
        s.append("]!");
    } else if op.p() {
        s.append("]");
    }
    proof {
        assert(s@ =~= spec_ls_imm(op.0, name@));
    }
    s
}

/// Format an ldrb with an immediate offset.
pub fn ldrb_imm(op: &LsImmBf) -> (r: String)
    requires
        spec_p(op.0) || !spec_w(op.0),
    ensures
        r@ == spec_ls_imm(op.0, "ldrb"@),
{
    ls_imm(op, "ldrb")
}

/// Format a strb with an immediate offset.
pub fn strb_imm(op: &LsImmBf) -> (r: String)
    requires
        spec_p(op.0) || !spec_w(op.0),
    ensures
        r@ == spec_ls_imm(op.0, "strb"@),
{
    ls_imm(op, "strb")
}

/// Format an ldr with an immediate offset.
pub fn ldr_imm(op: &LsImmBf) -> (r: String)
    requires
        spec_p(op.0) || !spec_w(op.0),
    ensures
        r@ == spec_ls_imm(op.0, "ldr"@),
{
    ls_imm(op, "ldr")
}

/// Format a str with an immediate offset.
pub fn str_imm(op: &LsImmBf) -> (r: String)
    requires
        spec_p(op.0) || !spec_w(op.0),
    ensures
        r@ == spec_ls_imm(op.0, "str"@),
{
    ls_imm(op, "str")
}

/// Whether any bit below position `n` of a register list is set.
pub open spec fn spec_any_bit_below(bits: u32, n: int) -> bool
    decreases n,
{
    if n <= 0 {
        false
    } else {
        spec_any_bit_below(bits, n - 1) || spec_bit(bits, (n - 1) as u32)
    }
}

/// The register names of the low `n` bits of a register list, separated by
/// commas.
pub open spec fn spec_reglist_names(bits: u32, n: int) -> Seq<char>
    decreases n,
{
    if n <= 0 {
        Seq::<char>::empty()
    } else {
        let prev = spec_reglist_names(bits, n - 1);
        if spec_bit(bits, (n - 1) as u32) {
            if !spec_any_bit_below(bits, n - 1) {
                prev + spec_regname((n - 1) as u32)
            } else {
                prev + ", "@ + spec_regname((n - 1) as u32)
            }
        } else {
            prev
        }
    }
}

/// The rendering of a load/store multiple: an empty register list prints an
/// empty pair of braces.
pub open spec fn spec_ls_multi(w: u32, name: Seq<char>) -> Seq<char> {
    name + " "@ + spec_regname(spec_rn(w)) + (if spec_w(w) {
        "!"@
    } else {
        Seq::<char>::empty()
    }) + ", {"@ + spec_reglist_names(spec_reglist(w), 16) + "}"@
}

/// Format a load/store multiple under the given mnemonic.
#[verifier::rlimit(100)]
pub fn ls_multi(op: &LsMultiBf, name: &str) -> (r: String)
    ensures
        r@ == spec_ls_multi(op.0, name@),
{
    let bits = op.reglist();
    let mut reglist_str = String::new();
    let mut first: bool = true;
    let mut idx: u32 = 0;
    while idx < 16
        invariant
            idx <= 16,
            bits == spec_reglist(op.0),
            reglist_str@ == spec_reglist_names(bits, idx as int),
            first <==> !spec_any_bit_below(bits, idx as int),
        decreases 16 - idx,
    {
        if crate::bits::bit(bits, idx) {
            if !first {
                reglist_str.append(", ");
            }
            push_reg(&mut reglist_str, idx);
            proof {
                assert(reglist_str@ =~= spec_reglist_names(bits, idx as int + 1));
            }
            first = false;
        }
        idx += 1;
    }
    let mut s = String::new();
    s.append(name);
    s.append(" ");
    push_reg(&mut s, op.rn());
    if op.w() {
        s.append("!");
    }
    s.append(", {");
    s.append(reglist_str.as_str());
    s.append("}");
    proof {
        assert(s@ =~= spec_ls_multi(op.0, name@));
    }
    s
}

/// Format an ldmib.
pub fn ldmib(op: &LsMultiBf) -> (r: String)
    ensures
        r@ == spec_ls_multi(op.0, "ldmib"@),
{
    ls_multi(op, "ldmib")
}

/// Format an ldmia.
pub fn ldmia(op: &LsMultiBf) -> (r: String)
    ensures
        r@ == spec_ls_multi(op.0, "ldmia"@),
{
    ls_multi(op, "ldmia")
}

/// Format an ldmdb.
pub fn ldmdb(op: &LsMultiBf) -> (r: String)
    ensures
        r@ == spec_ls_multi(op.0, "ldmdb"@),
{
    ls_multi(op, "ldmdb")
}

/// Format an ldmda.
pub fn ldmda(op: &LsMultiBf) -> (r: String)
    ensures
        r@ == spec_ls_multi(op.0, "ldmda"@),
{
    ls_multi(op, "ldmda")
}

/// Format a stmib.
pub fn stmib(op: &LsMultiBf) -> (r: String)
    ensures
        r@ == spec_ls_multi(op.0, "stmib"@),
{
    ls_multi(op, "stmib")
}

/// Format a stmia.
pub fn stmia(op: &LsMultiBf) -> (r: String)
    ensures
        r@ == spec_ls_multi(op.0, "stmia"@),
{
    ls_multi(op, "stmia")
}

/// Format a stmdb.
pub fn stmdb(op: &LsMultiBf) -> (r: String)
    ensures
        r@ == spec_ls_multi(op.0, "stmdb"@),
{
    ls_multi(op, "stmdb")
}

/// Format a stmda.
pub fn stmda(op: &LsMultiBf) -> (r: String)
    ensures
        r@ == spec_ls_multi(op.0, "stmda"@),
{
    ls_multi(op, "stmda")
}

/// The signed offset of a miscellaneous load/store: the two offset nibbles
/// assembled into an 8-bit value, negative when the U bit is clear.
pub open spec fn spec_ls_misc_off(w: u32) -> int {
    if spec_u(w) {
        ((spec_off_hi(w) << 4) | spec_off_lo(w)) as int
    } else {
        -(((spec_off_hi(w) << 4) | spec_off_lo(w)) as int)
    }
}

/// The rendering of an immediate-offset miscellaneous load/store.
pub open spec fn spec_ls_misc_imm(w: u32, name: Seq<char>) -> Seq<char> {
    name + spec_cond_sfx(w) + "\t "@ + spec_regname(spec_rd(w)) + ", ["@ + spec_regname(
        spec_rn(w),
    ) + ", #"@ + spec_dec_int(spec_ls_misc_off(w)) + "]"@
}

/// Format an immediate-offset miscellaneous load/store under the given
/// mnemonic.
#[verifier::rlimit(100)]
pub fn ls_misc_imm(op: &LsMiscBf, name: &str) -> (r: String)
    ensures
        r@ == spec_ls_misc_imm(op.0, name@),
{
    let off: u32 = (op.off_hi() << 4) | op.off_lo();
    proof {
        assert(off == ((spec_off_hi(op.0) << 4) | spec_off_lo(op.0)));
    }
    let mut s = String::new();
    s.append(name);
    push_cond(&mut s, op.0);
    s.append("\t ");
    push_reg(&mut s, op.rd());
    s.append(", [");
    push_reg(&mut s, op.rn());
    s.append(", #");
    if op.u() {
        push_dec_i64(&mut s, off as i64);
    } else {
        push_dec_i64(&mut s, -(off as i64));
    }
    s.append("]");
    proof {
        assert(s@ =~= spec_ls_misc_imm(op.0, name@));
    }
    s
}

/// Format an ldrh with an immediate offset.
pub fn ldrh_imm(op: &LsMiscBf) -> (r: String)
    ensures
        r@ == spec_ls_misc_imm(op.0, "ldrh"@),
{
    ls_misc_imm(op, "ldrh")
}

/// Format a strh with an immediate offset.
pub fn strh_imm(op: &LsMiscBf) -> (r: String)
    ensures
        r@ == spec_ls_misc_imm(op.0, "strh"@),
{
    ls_misc_imm(op, "strh")
}

/// Format a strd with an immediate offset.
pub fn strd_imm(op: &LsMiscBf) -> (r: String)
    ensures
        r@ == spec_ls_misc_imm(op.0, "strd"@),
{
    ls_misc_imm(op, "strd")
}

/// Format an ldrd with an immediate offset.
pub fn ldrd_imm(op: &LsMiscBf) -> (r: String)
    ensures
        r@ == spec_ls_misc_imm(op.0, "ldrd"@),
{
    ls_misc_imm(op, "ldrd")
}

/// Format an ldrsh with an immediate offset.
pub fn ldrsh_imm(op: &LsMiscBf) -> (r: String)
    ensures
        r@ == spec_ls_misc_imm(op.0, "ldrsh"@),
{
    ls_misc_imm(op, "ldrsh")
}

/// Format an ldrsb with an immediate offset.
pub fn ldrsb_imm(op: &LsMiscBf) -> (r: String)
    ensures
        r@ == spec_ls_misc_imm(op.0, "ldrsb"@),
{
    ls_misc_imm(op, "ldrsb")
}

/// The rendering of a register-offset miscellaneous load/store.
pub open spec fn spec_ls_misc_reg(w: u32, name: Seq<char>) -> Seq<char> {
    name + spec_cond_sfx(w) + "\t "@ + spec_regname(spec_rd(w)) + ", ["@ + spec_regname(
        spec_rn(w),
    ) + ", "@ + spec_regname(spec_rm(w)) + "]"@
}

/// Format a register-offset miscellaneous load/store under the given
/// mnemonic.
pub fn ls_misc_reg(op: &LsMiscBf, name: &str) -> (r: String)
    ensures
        r@ == spec_ls_misc_reg(op.0, name@),
{
    let mut s = String::new();
    s.append(name);
    push_cond(&mut s, op.0);
    s.append("\t ");
    push_reg(&mut s, op.rd());
    s.append(", [");
    push_reg(&mut s, op.rn());
    s.append(", ");
    push_reg(&mut s, op.rm());
    s.append("]");
    proof {
        assert(s@ =~= spec_ls_misc_reg(op.0, name@));
    }
    s
}

/// Format an ldrh with a register offset.
pub fn ldrh_reg(op: &LsMiscBf) -> (r: String)
    ensures
        r@ == spec_ls_misc_reg(op.0, "ldrh"@),
{
    ls_misc_reg(op, "ldrh")
}

/// Format a strh with a register offset.
pub fn strh_reg(op: &LsMiscBf) -> (r: String)
    ensures
        r@ == spec_ls_misc_reg(op.0, "strh"@),
{
    ls_misc_reg(op, "strh")
}

/// Format a strd with a register offset.
pub fn strd_reg(op: &LsMiscBf) -> (r: String)
    ensures
        r@ == spec_ls_misc_reg(op.0, "strd"@),
{
    ls_misc_reg(op, "strd")
}

/// Format an ldrd with a register offset.
pub fn ldrd_reg(op: &LsMiscBf) -> (r: String)
    ensures
        r@ == spec_ls_misc_reg(op.0, "ldrd"@),
{
    ls_misc_reg(op, "ldrd")
}

/// Format an ldrsh with a register offset.
pub fn ldrsh_reg(op: &LsMiscBf) -> (r: String)
    ensures
        r@ == spec_ls_misc_reg(op.0, "ldrsh"@),
{
    ls_misc_reg(op, "ldrsh")
}

/// Format an ldrsb with a register offset.
pub fn ldrsb_reg(op: &LsMiscBf) -> (r: String)
    ensures
        r@ == spec_ls_misc_reg(op.0, "ldrsb"@),
{
    ls_misc_reg(op, "ldrsb")
}

/// The rendering of a swap.
pub open spec fn spec_swp(w: u32, name: Seq<char>) -> Seq<char> {
    name + "\t "@ + spec_regname(spec_rd(w)) + ", "@ + spec_regname(spec_rm(w)) + ", ["@
        + spec_regname(spec_rn(w)) + "]"@
}

/// Format a swap under the given mnemonic.
pub fn swp_generic(op: &SwpBf, name: &str) -> (r: String)
    ensures
        r@ == spec_swp(op.0, name@),
{
    let mut s = String::new();
    s.append(name);
    s.append("\t ");
    push_reg(&mut s, op.rd());
    s.append(", ");
    push_reg(&mut s, op.rm());
    s.append(", [");
    push_reg(&mut s, op.rn());
    s.append("]");
    proof {
        assert(s@ =~= spec_swp(op.0, name@));
    }
    s
}

/// Format a swp.
pub fn swp(op: &SwpBf) -> (r: String)
    ensures
        r@ == spec_swp(op.0, "swp"@),
{
    swp_generic(op, "swp")
}

/// Format a swpb.
pub fn swpb(op: &SwpBf) -> (r: String)
    ensures
        r@ == spec_swp(op.0, "swpb"@),
{
    swp_generic(op, "swpb")
}

} // verus!
