//! Functions returning strings with formatted ARM instructions.
//!
//! Every formatter's output is pinned down, character for character, by a
//! spec-mode rendering function, and the lookup-table dispatcher is proved to
//! hand each word to the formatter its kind selects.

use vstd::prelude::*;
use vstd::string::StringExecFns;

use crate::bits::get_cond;
use crate::fields::spec_cond_from_u32;
use crate::fields::spec_cond_name;
use crate::fields::spec_regname;
use crate::fields::Cond;
use crate::fields::Register;
use crate::inst::ArmInst;
use crate::lut::arm_disc;
use crate::lut::arm_lut_built;
use crate::lut::make_arm_lut;
use crate::newtype::BkptBf;
use crate::newtype::BranchBf;
use crate::newtype::BxBf;
use crate::newtype::ClzBf;
use crate::newtype::CoprocBf;
use crate::newtype::DpRotImmBf;
use crate::newtype::DpShiftBf;
use crate::newtype::LsImmBf;
use crate::newtype::LsMiscBf;
use crate::newtype::LsMultiBf;
use crate::newtype::LsShiftBf;
use crate::newtype::MulBf;
use crate::newtype::SatBf;
use crate::newtype::StatusBf;
use crate::newtype::SwiBf;
use crate::newtype::SwpBf;
use crate::numfmt::push_hex;
use crate::traits::LsBits;
use crate::numfmt::spec_hex;

pub mod branch;
pub mod cp;
pub mod ctrl;
pub mod dp;
pub mod ls;
pub mod mul;

verus! {

/// The condition suffix a word contributes to its mnemonic.
pub open spec fn spec_cond_sfx(w: u32) -> Seq<char> {
    spec_cond_name(spec_cond_from_u32(crate::bits::spec_cond(w)))
}

/// Append the printed name of the register encoded by a 4-bit value.
pub fn push_reg(s: &mut String, r: u32)
    requires
        r < 16,
    ensures
        final(s)@ == old(s)@ + spec_regname(r),
{
    s.append(Register::from_u32(r).name());
}

/// Append the condition suffix of a word.
pub fn push_cond(s: &mut String, w: u32)
    ensures
        final(s)@ == old(s)@ + spec_cond_sfx(w),
{
    s.append(Cond::from_u32(get_cond(w)).name());
}

/// The placeholder line printed for a word with no formatter.
pub open spec fn spec_undef_instr(x: u32) -> Seq<char> {
    "No instruction; LUT index = "@ + spec_hex(crate::lut::spec_arm_disc(x), 4)
}

/// Formats the placeholder line for a word with no formatter, naming the
/// word's lookup-table index.
pub fn undef_instr(x: &u32) -> (r: String)
    ensures
        r@ == spec_undef_instr(*x),
{
    let idx = arm_disc(*x);
    let mut s = String::new();
    s.append("No instruction; LUT index = ");
    push_hex(&mut s, idx, 4);
    proof {
        assert(s@ =~= spec_undef_instr(*x));
    }
    s
}


/// The rendering the dispatch table selects for a word of each kind.  Forms
/// the formatters leave undefined (post-indexed loads and stores with
/// writeback) fall back to the placeholder line, as do the kinds with no
/// formatter of their own.
pub open spec fn spec_fmt_arm(k: ArmInst, x: u32) -> Seq<char> {
    match k {
        ArmInst::MsrReg => ctrl::spec_msr_reg(x),
        ArmInst::MsrImm => ctrl::spec_msr_imm(x),
        ArmInst::Mrs => ctrl::spec_mrs(x),
        ArmInst::Swi => ctrl::spec_svc(x),
        ArmInst::Bkpt => ctrl::spec_bkpt(x),
        ArmInst::Clz => ctrl::spec_clz(x),
        ArmInst::Qadd => ctrl::spec_sat(x, "qadd"@),
        ArmInst::Qsub => ctrl::spec_sat(x, "qsub"@),
        ArmInst::QdAdd => ctrl::spec_sat(x, "qdadd"@),
        ArmInst::QdSub => ctrl::spec_sat(x, "qdsub"@),
        ArmInst::Mrc => cp::spec_coproc_rt(x, "mrc"@),
        ArmInst::Mcr => cp::spec_coproc_rt(x, "mcr"@),
        ArmInst::B => branch::spec_branch(x, "b"@),
        ArmInst::Bl => branch::spec_branch(x, "bl"@),
        ArmInst::Bx => branch::spec_bx(x),
        ArmInst::BlxReg => "blx\t "@ + spec_regname(crate::bits::spec_rm(x)),
        ArmInst::BlxImm => branch::spec_branch(x, "blx"@),
        ArmInst::LdrsbReg => ls::spec_ls_misc_reg(x, "ldrsb"@),
        ArmInst::LdrshReg => ls::spec_ls_misc_reg(x, "ldrsh"@),
        ArmInst::StrdReg => ls::spec_ls_misc_reg(x, "strd"@),
        ArmInst::LdrdReg => ls::spec_ls_misc_reg(x, "ldrd"@),
        ArmInst::StrhReg => ls::spec_ls_misc_reg(x, "strh"@),
        ArmInst::LdrhReg => ls::spec_ls_misc_reg(x, "ldrh"@),
        ArmInst::LdrsbImm => ls::spec_ls_misc_imm(x, "ldrsb"@),
        ArmInst::LdrshImm => ls::spec_ls_misc_imm(x, "ldrsh"@),
        ArmInst::StrdImm => ls::spec_ls_misc_imm(x, "strd"@),
        ArmInst::LdrdImm => ls::spec_ls_misc_imm(x, "ldrd"@),
        ArmInst::StrhImm => ls::spec_ls_misc_imm(x, "strh"@),
        ArmInst::LdrhImm => ls::spec_ls_misc_imm(x, "ldrh"@),
        ArmInst::Stmia => ls::spec_ls_multi(x, "stmia"@),
        ArmInst::Stmib => ls::spec_ls_multi(x, "stmib"@),
        ArmInst::Stmda => ls::spec_ls_multi(x, "stmda"@),
        ArmInst::Stmdb => ls::spec_ls_multi(x, "stmdb"@),
        ArmInst::Ldmia => ls::spec_ls_multi(x, "ldmia"@),
        ArmInst::Ldmib => ls::spec_ls_multi(x, "ldmib"@),
        ArmInst::Ldmda => ls::spec_ls_multi(x, "ldmda"@),
        ArmInst::Ldmdb => ls::spec_ls_multi(x, "ldmdb"@),
        ArmInst::StrImm => if crate::bits::spec_p(x) || !crate::bits::spec_w(x) {
            ls::spec_ls_imm(x, "str"@)
        } else {
            spec_undef_instr(x)
        },
        ArmInst::LdrImm => if crate::bits::spec_p(x) || !crate::bits::spec_w(x) {
            ls::spec_ls_imm(x, "ldr"@)
        } else {
            spec_undef_instr(x)
        },
        ArmInst::StrbImm => if crate::bits::spec_p(x) || !crate::bits::spec_w(x) {
            ls::spec_ls_imm(x, "strb"@)
        } else {
            spec_undef_instr(x)
        },
        ArmInst::LdrbImm => if crate::bits::spec_p(x) || !crate::bits::spec_w(x) {
            ls::spec_ls_imm(x, "ldrb"@)
        } else {
            spec_undef_instr(x)
        },
        ArmInst::StrReg => if crate::bits::spec_p(x) || !crate::bits::spec_w(x) {
            ls::spec_ls_reg(x, "str"@)
        } else {
            spec_undef_instr(x)
        },
        ArmInst::LdrReg => if crate::bits::spec_p(x) || !crate::bits::spec_w(x) {
            ls::spec_ls_reg(x, "ldr"@)
        } else {
            spec_undef_instr(x)
        },
        ArmInst::StrbReg => if crate::bits::spec_p(x) || !crate::bits::spec_w(x) {
            ls::spec_ls_reg(x, "strb"@)
        } else {
            spec_undef_instr(x)
        },
        ArmInst::LdrbReg => if crate::bits::spec_p(x) || !crate::bits::spec_w(x) {
            ls::spec_ls_reg(x, "ldrb"@)
        } else {
            spec_undef_instr(x)
        },
        ArmInst::Swp => ls::spec_swp(x, "swp"@),
        ArmInst::Swpb => ls::spec_swp(x, "swpb"@),
        ArmInst::Mul => mul::spec_mul(x),
        ArmInst::Mla => mul::spec_mla(x),
        ArmInst::Umull => mul::spec_mul_long(x, "umull"@),
        ArmInst::Umlal => mul::spec_mul_long(x, "umlal"@),
        ArmInst::Smull => mul::spec_mul_long(x, "smull"@),
        ArmInst::Smlal => mul::spec_mul_long(x, "smlal"@),
        ArmInst::SmlaXy => mul::spec_smla_xy(x),
        ArmInst::SmulwY => mul::spec_smulw_y(x),
        ArmInst::SmlawY => mul::spec_smlaw_y(x),
        ArmInst::SmlalXy => mul::spec_smlal_xy(x),
        ArmInst::SmulXy => mul::spec_smul_xy(x),
        ArmInst::AndRotImm => dp::spec_rot_imm_arith(x),
        ArmInst::EorRotImm => dp::spec_rot_imm_arith(x),
        ArmInst::SubRotImm => dp::spec_rot_imm_arith(x),
        ArmInst::RsbRotImm => dp::spec_rot_imm_arith(x),
        ArmInst::AddRotImm => dp::spec_rot_imm_arith(x),
        ArmInst::AdcRotImm => dp::spec_rot_imm_arith(x),
        ArmInst::SbcRotImm => dp::spec_rot_imm_arith(x),
        ArmInst::RscRotImm => dp::spec_rot_imm_arith(x),
        ArmInst::OrrRotImm => dp::spec_rot_imm_arith(x),
        ArmInst::BicRotImm => dp::spec_rot_imm_arith(x),
        ArmInst::TstRotImm => dp::spec_rot_imm_mov_cmp(x),
        ArmInst::TeqRotImm => dp::spec_rot_imm_mov_cmp(x),
        ArmInst::CmpRotImm => dp::spec_rot_imm_mov_cmp(x),
        ArmInst::CmnRotImm => dp::spec_rot_imm_mov_cmp(x),
        ArmInst::MovRotImm => dp::spec_rot_imm_mov_cmp(x),
        ArmInst::MvnRotImm => dp::spec_rot_imm_mov_cmp(x),
        ArmInst::AndShiftImm => dp::spec_shift_imm_arith(x),
        ArmInst::EorShiftImm => dp::spec_shift_imm_arith(x),
        ArmInst::SubShiftImm => dp::spec_shift_imm_arith(x),
        ArmInst::RsbShiftImm => dp::spec_shift_imm_arith(x),
        ArmInst::AddShiftImm => dp::spec_shift_imm_arith(x),
        ArmInst::AdcShiftImm => dp::spec_shift_imm_arith(x),
        ArmInst::SbcShiftImm => dp::spec_shift_imm_arith(x),
        ArmInst::RscShiftImm => dp::spec_shift_imm_arith(x),
        ArmInst::OrrShiftImm => dp::spec_shift_imm_arith(x),
        ArmInst::BicShiftImm => dp::spec_shift_imm_arith(x),
        ArmInst::TstShiftImm => dp::spec_shift_imm_cmp(x),
        ArmInst::TeqShiftImm => dp::spec_shift_imm_cmp(x),
        ArmInst::CmpShiftImm => dp::spec_shift_imm_cmp(x),
        ArmInst::CmnShiftImm => dp::spec_shift_imm_cmp(x),
        ArmInst::MovShiftImm => dp::spec_shift_imm_mov(x),
        ArmInst::MvnShiftImm => dp::spec_shift_imm_mov(x),
        ArmInst::AndShiftReg => dp::spec_shift_reg_arith(x),
        ArmInst::EorShiftReg => dp::spec_shift_reg_arith(x),
        ArmInst::SubShiftReg => dp::spec_shift_reg_arith(x),
        ArmInst::RsbShiftReg => dp::spec_shift_reg_arith(x),
        ArmInst::AddShiftReg => dp::spec_shift_reg_arith(x),
        ArmInst::AdcShiftReg => dp::spec_shift_reg_arith(x),
        ArmInst::SbcShiftReg => dp::spec_shift_reg_arith(x),
        ArmInst::RscShiftReg => dp::spec_shift_reg_arith(x),
        ArmInst::OrrShiftReg => dp::spec_shift_reg_arith(x),
        ArmInst::BicShiftReg => dp::spec_shift_reg_arith(x),
        ArmInst::TstShiftReg => dp::spec_shift_reg_cmp(x),
        ArmInst::TeqShiftReg => dp::spec_shift_reg_cmp(x),
        ArmInst::CmpShiftReg => dp::spec_shift_reg_cmp(x),
        ArmInst::CmnShiftReg => dp::spec_shift_reg_cmp(x),
        ArmInst::MovShiftReg => dp::spec_shift_reg_mov(x),
        ArmInst::MvnShiftReg => dp::spec_shift_reg_mov(x),
        ArmInst::Undefined => spec_undef_instr(x),
        ArmInst::CoprocLs => spec_undef_instr(x),
        ArmInst::CoprocDp => spec_undef_instr(x),
    }
}

/// Maps instructions to their formatting behaviour.
pub trait LutFunc {
    /// Format the word `x` as the instruction this entry stands for.
    fn fmt_word(&self, x: &u32) -> String;
}

impl LutFunc for ArmInst {
    /// Format the word `x` as this instruction.
    fn fmt_word(&self, x: &u32) -> (r: String)
        ensures
            r@ == spec_fmt_arm(*self, *x),
    {
        match self {
            ArmInst::MsrReg => ctrl::msr_reg(&StatusBf(*x)),
            ArmInst::MsrImm => ctrl::msr_imm(&StatusBf(*x)),
            ArmInst::Mrs => ctrl::mrs(&StatusBf(*x)),
            ArmInst::Swi => ctrl::svc(&SwiBf(*x)),
            ArmInst::Bkpt => ctrl::bkpt(&BkptBf(*x)),
            ArmInst::Clz => ctrl::clz(&ClzBf(*x)),
            ArmInst::Qadd => ctrl::qadd(&SatBf(*x)),
            ArmInst::Qsub => ctrl::qsub(&SatBf(*x)),
            ArmInst::QdAdd => ctrl::qdadd(&SatBf(*x)),
            ArmInst::QdSub => ctrl::qdsub(&SatBf(*x)),
            ArmInst::Mrc => cp::mrc(&CoprocBf(*x)),
            ArmInst::Mcr => cp::mcr(&CoprocBf(*x)),
            ArmInst::B => branch::b(&BranchBf(*x), 0),
            ArmInst::Bl => branch::bl(&BranchBf(*x), 0),
            ArmInst::Bx => branch::bx(&BxBf(*x)),
            ArmInst::BlxReg => branch::blx_reg(&BranchBf(*x)),
            ArmInst::BlxImm => branch::blx_imm(&BranchBf(*x), 0),
            ArmInst::LdrsbReg => ls::ldrsb_reg(&LsMiscBf(*x)),
            ArmInst::LdrshReg => ls::ldrsh_reg(&LsMiscBf(*x)),
            ArmInst::StrdReg => ls::strd_reg(&LsMiscBf(*x)),
            ArmInst::LdrdReg => ls::ldrd_reg(&LsMiscBf(*x)),
            ArmInst::StrhReg => ls::strh_reg(&LsMiscBf(*x)),
            ArmInst::LdrhReg => ls::ldrh_reg(&LsMiscBf(*x)),
            ArmInst::LdrsbImm => ls::ldrsb_imm(&LsMiscBf(*x)),
            ArmInst::LdrshImm => ls::ldrsh_imm(&LsMiscBf(*x)),
            ArmInst::StrdImm => ls::strd_imm(&LsMiscBf(*x)),
            ArmInst::LdrdImm => ls::ldrd_imm(&LsMiscBf(*x)),
            ArmInst::StrhImm => ls::strh_imm(&LsMiscBf(*x)),
            ArmInst::LdrhImm => ls::ldrh_imm(&LsMiscBf(*x)),
            ArmInst::Stmia => ls::stmia(&LsMultiBf(*x)),
            ArmInst::Stmib => ls::stmib(&LsMultiBf(*x)),
            ArmInst::Stmda => ls::stmda(&LsMultiBf(*x)),
            ArmInst::Stmdb => ls::stmdb(&LsMultiBf(*x)),
            ArmInst::Ldmia => ls::ldmia(&LsMultiBf(*x)),
            ArmInst::Ldmib => ls::ldmib(&LsMultiBf(*x)),
            ArmInst::Ldmda => ls::ldmda(&LsMultiBf(*x)),
            ArmInst::Ldmdb => ls::ldmdb(&LsMultiBf(*x)),
            ArmInst::StrImm => {
                let op = LsImmBf(*x);
                if op.p() || !op.w() {
                    ls::str_imm(&op)
                } else {
                    undef_instr(x)
                }
            },
            ArmInst::LdrImm => {
                let op = LsImmBf(*x);
                if op.p() || !op.w() {
                    ls::ldr_imm(&op)
                } else {
                    undef_instr(x)
                }
            },
            ArmInst::StrbImm => {
                let op = LsImmBf(*x);
                if op.p() || !op.w() {
                    ls::strb_imm(&op)
                } else {
                    undef_instr(x)
                }
            },
            ArmInst::LdrbImm => {
                let op = LsImmBf(*x);
                if op.p() || !op.w() {
                    ls::ldrb_imm(&op)
                } else {
                    undef_instr(x)
                }
            },
            ArmInst::StrReg => {
                let op = LsShiftBf(*x);
                if op.p() || !op.w() {
                    ls::str_reg(&op)
                } else {
                    undef_instr(x)
                }
            },
            ArmInst::LdrReg => {
                let op = LsShiftBf(*x);
                if op.p() || !op.w() {
                    ls::ldr_reg(&op)
                } else {
                    undef_instr(x)
                }
            },
            ArmInst::StrbReg => {
                let op = LsShiftBf(*x);
                if op.p() || !op.w() {
                    ls::strb_reg(&op)
                } else {
                    undef_instr(x)
                }
            },
            ArmInst::LdrbReg => {
                let op = LsShiftBf(*x);
                if op.p() || !op.w() {
                    ls::ldrb_reg(&op)
                } else {
                    undef_instr(x)
                }
            },
            ArmInst::Swp => ls::swp(&SwpBf(*x)),
            ArmInst::Swpb => ls::swpb(&SwpBf(*x)),
            ArmInst::Mul => mul::mul(&MulBf(*x)),
            ArmInst::Mla => mul::mla(&MulBf(*x)),
            ArmInst::Umull => mul::umull(&MulBf(*x)),
            ArmInst::Umlal => mul::umlal(&MulBf(*x)),
            ArmInst::Smull => mul::smull(&MulBf(*x)),
            ArmInst::Smlal => mul::smlal(&MulBf(*x)),
            ArmInst::SmlaXy => mul::smla_xy(&MulBf(*x)),
            ArmInst::SmulwY => mul::smulw_y(&MulBf(*x)),
            ArmInst::SmlawY => mul::smlaw_y(&MulBf(*x)),
            ArmInst::SmlalXy => mul::smlal_xy(&MulBf(*x)),
            ArmInst::SmulXy => mul::smul_xy(&MulBf(*x)),
            ArmInst::AndRotImm => dp::rot_imm_arith(&DpRotImmBf(*x)),
            ArmInst::EorRotImm => dp::rot_imm_arith(&DpRotImmBf(*x)),
            ArmInst::SubRotImm => dp::rot_imm_arith(&DpRotImmBf(*x)),
            ArmInst::RsbRotImm => dp::rot_imm_arith(&DpRotImmBf(*x)),
            ArmInst::AddRotImm => dp::rot_imm_arith(&DpRotImmBf(*x)),
            ArmInst::AdcRotImm => dp::rot_imm_arith(&DpRotImmBf(*x)),
            ArmInst::SbcRotImm => dp::rot_imm_arith(&DpRotImmBf(*x)),
            ArmInst::RscRotImm => dp::rot_imm_arith(&DpRotImmBf(*x)),
            ArmInst::OrrRotImm => dp::rot_imm_arith(&DpRotImmBf(*x)),
            ArmInst::BicRotImm => dp::rot_imm_arith(&DpRotImmBf(*x)),
            ArmInst::TstRotImm => dp::rot_imm_mov_cmp(&DpRotImmBf(*x)),
            ArmInst::TeqRotImm => dp::rot_imm_mov_cmp(&DpRotImmBf(*x)),
            ArmInst::CmpRotImm => dp::rot_imm_mov_cmp(&DpRotImmBf(*x)),
            ArmInst::CmnRotImm => dp::rot_imm_mov_cmp(&DpRotImmBf(*x)),
            ArmInst::MovRotImm => dp::rot_imm_mov_cmp(&DpRotImmBf(*x)),
            ArmInst::MvnRotImm => dp::rot_imm_mov_cmp(&DpRotImmBf(*x)),
            ArmInst::AndShiftImm => dp::shift_imm_arith(&DpShiftBf(*x)),
            ArmInst::EorShiftImm => dp::shift_imm_arith(&DpShiftBf(*x)),
            ArmInst::SubShiftImm => dp::shift_imm_arith(&DpShiftBf(*x)),
            ArmInst::RsbShiftImm => dp::shift_imm_arith(&DpShiftBf(*x)),
            ArmInst::AddShiftImm => dp::shift_imm_arith(&DpShiftBf(*x)),
            ArmInst::AdcShiftImm => dp::shift_imm_arith(&DpShiftBf(*x)),
            ArmInst::SbcShiftImm => dp::shift_imm_arith(&DpShiftBf(*x)),
            ArmInst::RscShiftImm => dp::shift_imm_arith(&DpShiftBf(*x)),
            ArmInst::OrrShiftImm => dp::shift_imm_arith(&DpShiftBf(*x)),
            ArmInst::BicShiftImm => dp::shift_imm_arith(&DpShiftBf(*x)),
            ArmInst::TstShiftImm => dp::shift_imm_cmp(&DpShiftBf(*x)),
            ArmInst::TeqShiftImm => dp::shift_imm_cmp(&DpShiftBf(*x)),
            ArmInst::CmpShiftImm => dp::shift_imm_cmp(&DpShiftBf(*x)),
            ArmInst::CmnShiftImm => dp::shift_imm_cmp(&DpShiftBf(*x)),
            ArmInst::MovShiftImm => dp::shift_imm_mov(&DpShiftBf(*x)),
            ArmInst::MvnShiftImm => dp::shift_imm_mov(&DpShiftBf(*x)),
            ArmInst::AndShiftReg => dp::shift_reg_arith(&DpShiftBf(*x)),
            ArmInst::EorShiftReg => dp::shift_reg_arith(&DpShiftBf(*x)),
            ArmInst::SubShiftReg => dp::shift_reg_arith(&DpShiftBf(*x)),
            ArmInst::RsbShiftReg => dp::shift_reg_arith(&DpShiftBf(*x)),
            ArmInst::AddShiftReg => dp::shift_reg_arith(&DpShiftBf(*x)),
            ArmInst::AdcShiftReg => dp::shift_reg_arith(&DpShiftBf(*x)),
            ArmInst::SbcShiftReg => dp::shift_reg_arith(&DpShiftBf(*x)),
            ArmInst::RscShiftReg => dp::shift_reg_arith(&DpShiftBf(*x)),
            ArmInst::OrrShiftReg => dp::shift_reg_arith(&DpShiftBf(*x)),
            ArmInst::BicShiftReg => dp::shift_reg_arith(&DpShiftBf(*x)),
            ArmInst::TstShiftReg => dp::shift_reg_cmp(&DpShiftBf(*x)),
            ArmInst::TeqShiftReg => dp::shift_reg_cmp(&DpShiftBf(*x)),
            ArmInst::CmpShiftReg => dp::shift_reg_cmp(&DpShiftBf(*x)),
            ArmInst::CmnShiftReg => dp::shift_reg_cmp(&DpShiftBf(*x)),
            ArmInst::MovShiftReg => dp::shift_reg_mov(&DpShiftBf(*x)),
            ArmInst::MvnShiftReg => dp::shift_reg_mov(&DpShiftBf(*x)),
            ArmInst::Undefined => undef_instr(x),
            ArmInst::CoprocLs => undef_instr(x),
            ArmInst::CoprocDp => undef_instr(x),
        }
    }
}

/// A 12-bit lookup table for formatting ARM instructions: each entry holds
/// the kind that the decode tree gives the canonical word of its index.
pub struct ARMLookupTable {
    pub data: Vec<ArmInst>,
}

impl ARMLookupTable {
    /// Build a new lookup table from the decode tree.
    pub fn new() -> (r: Self)
        ensures
            arm_lut_built::<ArmInst>(r.data@),
    {
        let lut = make_arm_lut(ArmInst::Undefined);
        ARMLookupTable { data: lut.data }
    }

    /// Format a live word through the table: look its kind up by its
    /// discriminant bits, then format the live word itself under that kind.
    /// Outside the condition-dependent encodings, the kind is the one the
    /// decode tree gives the live word directly.
    pub fn disassemble(&self, x: &u32) -> (r: String)
        requires
            arm_lut_built::<ArmInst>(self.data@),
        ensures
            r@ == spec_fmt_arm(
                crate::inst::spec_decode_arm(crate::lut::spec_arm_synth(crate::lut::spec_arm_disc(*x))),
                *x,
            ),
            !(crate::bits::spec_cond(*x) == 0b1111 && (crate::bits::spec_group(*x) == 0b101
                || (crate::bits::spec_group(*x) == 0b111 && crate::bits::spec_bit(*x, 24))))
                ==> r@ == spec_fmt_arm(crate::inst::spec_decode_arm(*x), *x),
    {
        proof {
            if !(crate::bits::spec_cond(*x) == 0b1111 && (crate::bits::spec_group(*x) == 0b101
                || (crate::bits::spec_group(*x) == 0b111 && crate::bits::spec_bit(*x, 24)))) {
                crate::lut::lemma_arm_table_tree_agreement(*x);
            }
        }
        let i = arm_disc(*x);
        let kind = self.data[i as usize];
        kind.fmt_word(x)
    }
}

} // verus!

