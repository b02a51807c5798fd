//! Wrapper types (over primitives) for representing instructions.
//!
//! The following structures are newtypes which represent different types of
//! instructions.  Each type implements the set of capability traits that
//! allows access to the bitfields relevant to its shape, and nothing more; a
//! view is a pure function of the word it wraps, so it can always be rebuilt
//! from the raw word alone.

use vstd::prelude::*;

use crate::bits::get_a;
use crate::bits::get_b;
use crate::bits::get_cond;
use crate::bits::get_cp_num;
use crate::bits::get_cp_opcd1;
use crate::bits::get_cp_opcd1_rt;
use crate::bits::get_cp_opcd2;
use crate::bits::get_crd;
use crate::bits::get_crm;
use crate::bits::get_crn;
use crate::bits::get_field_mask;
use crate::bits::get_group;
use crate::bits::get_imm12;
use crate::bits::get_imm12_hi;
use crate::bits::get_imm24;
use crate::bits::get_imm4;
use crate::bits::get_imm8;
use crate::bits::get_l;
use crate::bits::get_link;
use crate::bits::get_off_hi;
use crate::bits::get_off_lo;
use crate::bits::get_opcd;
use crate::bits::get_p;
use crate::bits::get_rd;
use crate::bits::get_rd_hi;
use crate::bits::get_rd_lo;
use crate::bits::get_reglist;
use crate::bits::get_rm;
use crate::bits::get_rn;
use crate::bits::get_rot_imm;
use crate::bits::get_rs;
use crate::bits::get_s;
use crate::bits::get_s_multi;
use crate::bits::get_shift;
use crate::bits::get_shift_imm;
use crate::bits::get_u;
use crate::bits::get_un;
use crate::bits::get_w;
use crate::bits::get_x;
use crate::bits::get_y;
use crate::bits::lemma_thumb_field_bounds;
use crate::traits::ArmWord;
use crate::traits::BranchBits;
use crate::traits::CoprocBits;
use crate::traits::DpBits;
use crate::traits::DpFmt1Bits;
use crate::traits::DpFmt2Bits;
use crate::traits::DpFmt3Bits;
use crate::traits::DpFmt4Bits;
use crate::traits::DpFmt5Bits;
use crate::traits::DpFmt6Bits;
use crate::traits::DpFmt7Bits;
use crate::traits::DpFmt8Bits;
use crate::traits::ImmBits;
use crate::traits::InstBits;
use crate::traits::LsBits;
use crate::traits::LsMultiBits;
use crate::traits::LsMultiFmt1Bits;
use crate::traits::LsMultiFmt2Bits;
use crate::traits::LsRegFmt1Bits;
use crate::traits::LsRegFmt2Bits;
use crate::traits::LsRegFmt3Bits;
use crate::traits::LsRegFmt4Bits;
use crate::traits::MultiplyBits;
use crate::traits::RegBits;
use crate::traits::RotBits;
use crate::traits::ShiftBits;
use crate::traits::SrBits;
use crate::traits::ThumbBranchExchangeBits;
use crate::traits::ThumbCondBranchBits;
use crate::traits::ThumbExcepBits;
use crate::traits::ThumbUncondBranchBits;
use crate::traits::ThumbWord;

verus! {

/// A data-processing instruction with a rotated 8-bit immediate.
#[derive(Debug, Clone, Copy)]
pub struct DpRotImmBf(pub u32);

impl ArmWord for DpRotImmBf {
    open spec fn raw(&self) -> u32 {
        self.0
    }
}

impl InstBits for DpRotImmBf {
    fn cond(&self) -> u32 {
        get_cond(self.0)
    }

    fn group(&self) -> u32 {
        get_group(self.0)
    }
}

impl DpBits for DpRotImmBf {
    fn opcd(&self) -> u32 {
        get_opcd(self.0)
    }

    fn s(&self) -> bool {
        get_s(self.0)
    }
}

impl RegBits for DpRotImmBf {
    fn rn(&self) -> u32 {
        get_rn(self.0)
    }

    fn rd(&self) -> u32 {
        get_rd(self.0)
    }

    fn rm(&self) -> u32 {
        get_rm(self.0)
    }

    fn rs(&self) -> u32 {
        get_rs(self.0)
    }
}

impl RotBits for DpRotImmBf {
    fn rot_imm(&self) -> u32 {
        get_rot_imm(self.0)
    }
}

impl ImmBits for DpRotImmBf {
    fn imm4(&self) -> u32 {
        get_imm4(self.0)
    }

    fn imm8(&self) -> u32 {
        get_imm8(self.0)
    }

    fn imm12(&self) -> u32 {
        get_imm12(self.0)
    }

    fn imm12_hi(&self) -> u32 {
        get_imm12_hi(self.0)
    }

    fn imm24(&self) -> u32 {
        get_imm24(self.0)
    }

    fn off_hi(&self) -> u32 {
        get_off_hi(self.0)
    }

    fn off_lo(&self) -> u32 {
        get_off_lo(self.0)
    }
}

/// A data-processing instruction with a shifted register operand.
#[derive(Debug, Clone, Copy)]
pub struct DpShiftBf(pub u32);

impl ArmWord for DpShiftBf {
    open spec fn raw(&self) -> u32 {
        self.0
    }
}

impl InstBits for DpShiftBf {
    fn cond(&self) -> u32 {
        get_cond(self.0)
    }

    fn group(&self) -> u32 {
        get_group(self.0)
    }
}

impl DpBits for DpShiftBf {
    fn opcd(&self) -> u32 {
        get_opcd(self.0)
    }

    fn s(&self) -> bool {
        get_s(self.0)
    }
}

impl RegBits for DpShiftBf {
    fn rn(&self) -> u32 {
        get_rn(self.0)
    }

    fn rd(&self) -> u32 {
        get_rd(self.0)
    }

    fn rm(&self) -> u32 {
        get_rm(self.0)
    }

    fn rs(&self) -> u32 {
        get_rs(self.0)
    }
}

impl ShiftBits for DpShiftBf {
    fn shift_imm(&self) -> u32 {
        get_shift_imm(self.0)
    }

    fn shift(&self) -> u32 {
        get_shift(self.0)
    }
}

/// A data-processing instruction whose operand is shifted by an immediate.
#[derive(Debug, Clone, Copy)]
pub struct DpShiftImmBf(pub u32);

/// A data-processing instruction whose operand is shifted by a register.
#[derive(Debug, Clone, Copy)]
pub struct DpShiftRegBf(pub u32);

impl ArmWord for DpShiftImmBf {
    open spec fn raw(&self) -> u32 {
        self.0
    }
}

impl InstBits for DpShiftImmBf {
    fn cond(&self) -> u32 {
        get_cond(self.0)
    }

    fn group(&self) -> u32 {
        get_group(self.0)
    }
}

impl DpBits for DpShiftImmBf {
    fn opcd(&self) -> u32 {
        get_opcd(self.0)
    }

    fn s(&self) -> bool {
        get_s(self.0)
    }
}

impl RegBits for DpShiftImmBf {
    fn rn(&self) -> u32 {
        get_rn(self.0)
    }

    fn rd(&self) -> u32 {
        get_rd(self.0)
    }

    fn rm(&self) -> u32 {
        get_rm(self.0)
    }

    fn rs(&self) -> u32 {
        get_rs(self.0)
    }
}

impl ShiftBits for DpShiftImmBf {
    fn shift_imm(&self) -> u32 {
        get_shift_imm(self.0)
    }

    fn shift(&self) -> u32 {
        get_shift(self.0)
    }
}

impl ArmWord for DpShiftRegBf {
    open spec fn raw(&self) -> u32 {
        self.0
    }
}

impl InstBits for DpShiftRegBf {
    fn cond(&self) -> u32 {
        get_cond(self.0)
    }

    fn group(&self) -> u32 {
        get_group(self.0)
    }
}

impl DpBits for DpShiftRegBf {
    fn opcd(&self) -> u32 {
        get_opcd(self.0)
    }

    fn s(&self) -> bool {
        get_s(self.0)
    }
}

impl RegBits for DpShiftRegBf {
    fn rn(&self) -> u32 {
        get_rn(self.0)
    }

    fn rd(&self) -> u32 {
        get_rd(self.0)
    }

    fn rm(&self) -> u32 {
        get_rm(self.0)
    }

    fn rs(&self) -> u32 {
        get_rs(self.0)
    }
}

impl ShiftBits for DpShiftRegBf {
    fn shift_imm(&self) -> u32 {
        get_shift_imm(self.0)
    }

    fn shift(&self) -> u32 {
        get_shift(self.0)
    }
}


/// A multiply instruction.
#[derive(Debug, Clone, Copy)]
pub struct MulBf(pub u32);

impl ArmWord for MulBf {
    open spec fn raw(&self) -> u32 {
        self.0
    }
}

impl InstBits for MulBf {
    fn cond(&self) -> u32 {
        get_cond(self.0)
    }

    fn group(&self) -> u32 {
        get_group(self.0)
    }
}

impl MultiplyBits for MulBf {
    fn rd_hi(&self) -> u32 {
        get_rd_hi(self.0)
    }

    fn rd_lo(&self) -> u32 {
        get_rd_lo(self.0)
    }

    fn a(&self) -> bool {
        get_a(self.0)
    }

    fn un(&self) -> bool {
        get_un(self.0)
    }

    fn x(&self) -> bool {
        get_x(self.0)
    }

    fn y(&self) -> bool {
        get_y(self.0)
    }
}

impl RegBits for MulBf {
    fn rn(&self) -> u32 {
        get_rn(self.0)
    }

    fn rd(&self) -> u32 {
        get_rd(self.0)
    }

    fn rm(&self) -> u32 {
        get_rm(self.0)
    }

    fn rs(&self) -> u32 {
        get_rs(self.0)
    }
}

/// A saturating add/subtract instruction.
#[derive(Debug, Clone, Copy)]
pub struct SatBf(pub u32);

impl ArmWord for SatBf {
    open spec fn raw(&self) -> u32 {
        self.0
    }
}

impl InstBits for SatBf {
    fn cond(&self) -> u32 {
        get_cond(self.0)
    }

    fn group(&self) -> u32 {
        get_group(self.0)
    }
}

impl RegBits for SatBf {
    fn rn(&self) -> u32 {
        get_rn(self.0)
    }

    fn rd(&self) -> u32 {
        get_rd(self.0)
    }

    fn rm(&self) -> u32 {
        get_rm(self.0)
    }

    fn rs(&self) -> u32 {
        get_rs(self.0)
    }
}

/// A count-leading-zeros instruction.
#[derive(Debug, Clone, Copy)]
pub struct ClzBf(pub u32);

impl ArmWord for ClzBf {
    open spec fn raw(&self) -> u32 {
        self.0
    }
}

impl InstBits for ClzBf {
    fn cond(&self) -> u32 {
        get_cond(self.0)
    }

    fn group(&self) -> u32 {
        get_group(self.0)
    }
}

impl RegBits for ClzBf {
    fn rn(&self) -> u32 {
        get_rn(self.0)
    }

    fn rd(&self) -> u32 {
        get_rd(self.0)
    }

    fn rm(&self) -> u32 {
        get_rm(self.0)
    }

    fn rs(&self) -> u32 {
        get_rs(self.0)
    }
}

/// A load/store with an immediate offset.
#[derive(Debug, Clone, Copy)]
pub struct LsImmBf(pub u32);

impl ArmWord for LsImmBf {
    open spec fn raw(&self) -> u32 {
        self.0
    }
}

impl InstBits for LsImmBf {
    fn cond(&self) -> u32 {
        get_cond(self.0)
    }

    fn group(&self) -> u32 {
        get_group(self.0)
    }
}

impl LsBits for LsImmBf {
    fn p(&self) -> bool {
        get_p(self.0)
    }

    fn u(&self) -> bool {
        get_u(self.0)
    }

    fn b(&self) -> bool {
        get_b(self.0)
    }

    fn w(&self) -> bool {
        get_w(self.0)
    }

    fn l(&self) -> bool {
        get_l(self.0)
    }
}

impl RegBits for LsImmBf {
    fn rn(&self) -> u32 {
        get_rn(self.0)
    }

    fn rd(&self) -> u32 {
        get_rd(self.0)
    }

    fn rm(&self) -> u32 {
        get_rm(self.0)
    }

    fn rs(&self) -> u32 {
        get_rs(self.0)
    }
}

impl ImmBits for LsImmBf {
    fn imm4(&self) -> u32 {
        get_imm4(self.0)
    }

    fn imm8(&self) -> u32 {
        get_imm8(self.0)
    }

    fn imm12(&self) -> u32 {
        get_imm12(self.0)
    }

    fn imm12_hi(&self) -> u32 {
        get_imm12_hi(self.0)
    }

    fn imm24(&self) -> u32 {
        get_imm24(self.0)
    }

    fn off_hi(&self) -> u32 {
        get_off_hi(self.0)
    }

    fn off_lo(&self) -> u32 {
        get_off_lo(self.0)
    }
}

/// A load/store with a shifted register offset.
#[derive(Debug, Clone, Copy)]
pub struct LsShiftBf(pub u32);

impl ArmWord for LsShiftBf {
    open spec fn raw(&self) -> u32 {
        self.0
    }
}

impl InstBits for LsShiftBf {
    fn cond(&self) -> u32 {
        get_cond(self.0)
    }

    fn group(&self) -> u32 {
        get_group(self.0)
    }
}

impl LsBits for LsShiftBf {
    fn p(&self) -> bool {
        get_p(self.0)
    }

    fn u(&self) -> bool {
        get_u(self.0)
    }

    fn b(&self) -> bool {
        get_b(self.0)
    }

    fn w(&self) -> bool {
        get_w(self.0)
    }

    fn l(&self) -> bool {
        get_l(self.0)
    }
}

impl RegBits for LsShiftBf {
    fn rn(&self) -> u32 {
        get_rn(self.0)
    }

    fn rd(&self) -> u32 {
        get_rd(self.0)
    }

    fn rm(&self) -> u32 {
        get_rm(self.0)
    }

    fn rs(&self) -> u32 {
        get_rs(self.0)
    }
}

impl ShiftBits for LsShiftBf {
    fn shift_imm(&self) -> u32 {
        get_shift_imm(self.0)
    }

    fn shift(&self) -> u32 {
        get_shift(self.0)
    }
}

/// A load/store multiple instruction.
#[derive(Debug, Clone, Copy)]
pub struct LsMultiBf(pub u32);

impl ArmWord for LsMultiBf {
    open spec fn raw(&self) -> u32 {
        self.0
    }
}

impl InstBits for LsMultiBf {
    fn cond(&self) -> u32 {
        get_cond(self.0)
    }

    fn group(&self) -> u32 {
        get_group(self.0)
    }
}

impl LsBits for LsMultiBf {
    fn p(&self) -> bool {
        get_p(self.0)
    }

    fn u(&self) -> bool {
        get_u(self.0)
    }

    fn b(&self) -> bool {
        get_b(self.0)
    }

    fn w(&self) -> bool {
        get_w(self.0)
    }

    fn l(&self) -> bool {
        get_l(self.0)
    }
}

impl RegBits for LsMultiBf {
    fn rn(&self) -> u32 {
        get_rn(self.0)
    }

    fn rd(&self) -> u32 {
        get_rd(self.0)
    }

    fn rm(&self) -> u32 {
        get_rm(self.0)
    }

    fn rs(&self) -> u32 {
        get_rs(self.0)
    }
}

impl LsMultiBits for LsMultiBf {
    fn s(&self) -> bool {
        get_s_multi(self.0)
    }

    fn reglist(&self) -> u32 {
        get_reglist(self.0)
    }
}

/// A miscellaneous load/store (halfword, signed, doubleword).
#[derive(Debug, Clone, Copy)]
pub struct LsMiscBf(pub u32);

impl ArmWord for LsMiscBf {
    open spec fn raw(&self) -> u32 {
        self.0
    }
}

impl InstBits for LsMiscBf {
    fn cond(&self) -> u32 {
        get_cond(self.0)
    }

    fn group(&self) -> u32 {
        get_group(self.0)
    }
}

impl LsBits for LsMiscBf {
    fn p(&self) -> bool {
        get_p(self.0)
    }

    fn u(&self) -> bool {
        get_u(self.0)
    }

    fn b(&self) -> bool {
        get_b(self.0)
    }

    fn w(&self) -> bool {
        get_w(self.0)
    }

    fn l(&self) -> bool {
        get_l(self.0)
    }
}

impl RegBits for LsMiscBf {
    fn rn(&self) -> u32 {
        get_rn(self.0)
    }

    fn rd(&self) -> u32 {
        get_rd(self.0)
    }

    fn rm(&self) -> u32 {
        get_rm(self.0)
    }

    fn rs(&self) -> u32 {
        get_rs(self.0)
    }
}

impl ImmBits for LsMiscBf {
    fn imm4(&self) -> u32 {
        get_imm4(self.0)
    }

    fn imm8(&self) -> u32 {
        get_imm8(self.0)
    }

    fn imm12(&self) -> u32 {
        get_imm12(self.0)
    }

    fn imm12_hi(&self) -> u32 {
        get_imm12_hi(self.0)
    }

    fn imm24(&self) -> u32 {
        get_imm24(self.0)
    }

    fn off_hi(&self) -> u32 {
        get_off_hi(self.0)
    }

    fn off_lo(&self) -> u32 {
        get_off_lo(self.0)
    }
}

/// A swap instruction.
#[derive(Debug, Clone, Copy)]
pub struct SwpBf(pub u32);

impl ArmWord for SwpBf {
    open spec fn raw(&self) -> u32 {
        self.0
    }
}

impl InstBits for SwpBf {
    fn cond(&self) -> u32 {
        get_cond(self.0)
    }

    fn group(&self) -> u32 {
        get_group(self.0)
    }
}

impl LsBits for SwpBf {
    fn p(&self) -> bool {
        get_p(self.0)
    }

    fn u(&self) -> bool {
        get_u(self.0)
    }

    fn b(&self) -> bool {
        get_b(self.0)
    }

    fn w(&self) -> bool {
        get_w(self.0)
    }

    fn l(&self) -> bool {
        get_l(self.0)
    }
}

impl RegBits for SwpBf {
    fn rn(&self) -> u32 {
        get_rn(self.0)
    }

    fn rd(&self) -> u32 {
        get_rd(self.0)
    }

    fn rm(&self) -> u32 {
        get_rm(self.0)
    }

    fn rs(&self) -> u32 {
        get_rs(self.0)
    }
}

/// A branch or branch-and-link instruction.
#[derive(Debug, Clone, Copy)]
pub struct BranchBf(pub u32);

impl ArmWord for BranchBf {
    open spec fn raw(&self) -> u32 {
        self.0
    }
}

impl InstBits for BranchBf {
    fn cond(&self) -> u32 {
        get_cond(self.0)
    }

    fn group(&self) -> u32 {
        get_group(self.0)
    }
}

impl BranchBits for BranchBf {
    fn link(&self) -> bool {
        get_link(self.0)
    }
}

impl ImmBits for BranchBf {
    fn imm4(&self) -> u32 {
        get_imm4(self.0)
    }

    fn imm8(&self) -> u32 {
        get_imm8(self.0)
    }

    fn imm12(&self) -> u32 {
        get_imm12(self.0)
    }

    fn imm12_hi(&self) -> u32 {
        get_imm12_hi(self.0)
    }

    fn imm24(&self) -> u32 {
        get_imm24(self.0)
    }

    fn off_hi(&self) -> u32 {
        get_off_hi(self.0)
    }

    fn off_lo(&self) -> u32 {
        get_off_lo(self.0)
    }
}

impl RegBits for BranchBf {
    fn rn(&self) -> u32 {
        get_rn(self.0)
    }

    fn rd(&self) -> u32 {
        get_rd(self.0)
    }

    fn rm(&self) -> u32 {
        get_rm(self.0)
    }

    fn rs(&self) -> u32 {
        get_rs(self.0)
    }
}

/// A branch-exchange instruction.
#[derive(Debug, Clone, Copy)]
pub struct BxBf(pub u32);

impl ArmWord for BxBf {
    open spec fn raw(&self) -> u32 {
        self.0
    }
}

impl InstBits for BxBf {
    fn cond(&self) -> u32 {
        get_cond(self.0)
    }

    fn group(&self) -> u32 {
        get_group(self.0)
    }
}

impl RegBits for BxBf {
    fn rn(&self) -> u32 {
        get_rn(self.0)
    }

    fn rd(&self) -> u32 {
        get_rd(self.0)
    }

    fn rm(&self) -> u32 {
        get_rm(self.0)
    }

    fn rs(&self) -> u32 {
        get_rs(self.0)
    }
}

/// A coprocessor instruction.
#[derive(Debug, Clone, Copy)]
pub struct CoprocBf(pub u32);

impl ArmWord for CoprocBf {
    open spec fn raw(&self) -> u32 {
        self.0
    }
}

impl InstBits for CoprocBf {
    fn cond(&self) -> u32 {
        get_cond(self.0)
    }

    fn group(&self) -> u32 {
        get_group(self.0)
    }
}

impl CoprocBits for CoprocBf {
    fn opcd1(&self) -> u32 {
        get_cp_opcd1(self.0)
    }

    fn opcd1_rt(&self) -> u32 {
        get_cp_opcd1_rt(self.0)
    }

    fn cp_num(&self) -> u32 {
        get_cp_num(self.0)
    }

    fn opcd2(&self) -> u32 {
        get_cp_opcd2(self.0)
    }

    fn crn(&self) -> u32 {
        get_crn(self.0)
    }

    fn crd(&self) -> u32 {
        get_crd(self.0)
    }

    fn crm(&self) -> u32 {
        get_crm(self.0)
    }
}

impl LsBits for CoprocBf {
    fn p(&self) -> bool {
        get_p(self.0)
    }

    fn u(&self) -> bool {
        get_u(self.0)
    }

    fn b(&self) -> bool {
        get_b(self.0)
    }

    fn w(&self) -> bool {
        get_w(self.0)
    }

    fn l(&self) -> bool {
        get_l(self.0)
    }
}

impl ImmBits for CoprocBf {
    fn imm4(&self) -> u32 {
        get_imm4(self.0)
    }

    fn imm8(&self) -> u32 {
        get_imm8(self.0)
    }

    fn imm12(&self) -> u32 {
        get_imm12(self.0)
    }

    fn imm12_hi(&self) -> u32 {
        get_imm12_hi(self.0)
    }

    fn imm24(&self) -> u32 {
        get_imm24(self.0)
    }

    fn off_hi(&self) -> u32 {
        get_off_hi(self.0)
    }

    fn off_lo(&self) -> u32 {
        get_off_lo(self.0)
    }
}

impl RegBits for CoprocBf {
    fn rn(&self) -> u32 {
        get_rn(self.0)
    }

    fn rd(&self) -> u32 {
        get_rd(self.0)
    }

    fn rm(&self) -> u32 {
        get_rm(self.0)
    }

    fn rs(&self) -> u32 {
        get_rs(self.0)
    }
}

/// A status-register transfer instruction.
#[derive(Debug, Clone, Copy)]
pub struct StatusBf(pub u32);

impl ArmWord for StatusBf {
    open spec fn raw(&self) -> u32 {
        self.0
    }
}

impl InstBits for StatusBf {
    fn cond(&self) -> u32 {
        get_cond(self.0)
    }

    fn group(&self) -> u32 {
        get_group(self.0)
    }
}

impl SrBits for StatusBf {
    fn field_mask(&self) -> u32 {
        get_field_mask(self.0)
    }

    fn r(&self) -> bool {
        self.0 & 0x0040_0000 != 0
    }
}

impl RegBits for StatusBf {
    fn rn(&self) -> u32 {
        get_rn(self.0)
    }

    fn rd(&self) -> u32 {
        get_rd(self.0)
    }

    fn rm(&self) -> u32 {
        get_rm(self.0)
    }

    fn rs(&self) -> u32 {
        get_rs(self.0)
    }
}

impl ImmBits for StatusBf {
    fn imm4(&self) -> u32 {
        get_imm4(self.0)
    }

    fn imm8(&self) -> u32 {
        get_imm8(self.0)
    }

    fn imm12(&self) -> u32 {
        get_imm12(self.0)
    }

    fn imm12_hi(&self) -> u32 {
        get_imm12_hi(self.0)
    }

    fn imm24(&self) -> u32 {
        get_imm24(self.0)
    }

    fn off_hi(&self) -> u32 {
        get_off_hi(self.0)
    }

    fn off_lo(&self) -> u32 {
        get_off_lo(self.0)
    }
}

impl RotBits for StatusBf {
    fn rot_imm(&self) -> u32 {
        get_rot_imm(self.0)
    }
}

/// A software interrupt instruction.
#[derive(Debug, Clone, Copy)]
pub struct SwiBf(pub u32);

impl ArmWord for SwiBf {
    open spec fn raw(&self) -> u32 {
        self.0
    }
}

impl InstBits for SwiBf {
    fn cond(&self) -> u32 {
        get_cond(self.0)
    }

    fn group(&self) -> u32 {
        get_group(self.0)
    }
}

impl ImmBits for SwiBf {
    fn imm4(&self) -> u32 {
        get_imm4(self.0)
    }

    fn imm8(&self) -> u32 {
        get_imm8(self.0)
    }

    fn imm12(&self) -> u32 {
        get_imm12(self.0)
    }

    fn imm12_hi(&self) -> u32 {
        get_imm12_hi(self.0)
    }

    fn imm24(&self) -> u32 {
        get_imm24(self.0)
    }

    fn off_hi(&self) -> u32 {
        get_off_hi(self.0)
    }

    fn off_lo(&self) -> u32 {
        get_off_lo(self.0)
    }
}

/// A breakpoint instruction.
#[derive(Debug, Clone, Copy)]
pub struct BkptBf(pub u32);

impl ArmWord for BkptBf {
    open spec fn raw(&self) -> u32 {
        self.0
    }
}

impl InstBits for BkptBf {
    fn cond(&self) -> u32 {
        get_cond(self.0)
    }

    fn group(&self) -> u32 {
        get_group(self.0)
    }
}

impl ImmBits for BkptBf {
    fn imm4(&self) -> u32 {
        get_imm4(self.0)
    }

    fn imm8(&self) -> u32 {
        get_imm8(self.0)
    }

    fn imm12(&self) -> u32 {
        get_imm12(self.0)
    }

    fn imm12_hi(&self) -> u32 {
        get_imm12_hi(self.0)
    }

    fn imm24(&self) -> u32 {
        get_imm24(self.0)
    }

    fn off_hi(&self) -> u32 {
        get_off_hi(self.0)
    }

    fn off_lo(&self) -> u32 {
        get_off_lo(self.0)
    }
}

/// A Thumb three-register add/subtract.
#[derive(Debug, Clone, Copy)]
pub struct ThumbDpFmt1Bf(pub u16);

impl ThumbWord for ThumbDpFmt1Bf {
    open spec fn raw(&self) -> u16 {
        self.0
    }
}

impl DpFmt1Bits for ThumbDpFmt1Bf {
    fn rd(&self) -> u16 {
        self.0 & 0x0007
    }

    fn rn(&self) -> u16 {
        (self.0 & 0x0038) >> 3
    }

    fn rm(&self) -> u16 {
        (self.0 & 0x01C8) >> 6
    }

    fn op1(&self) -> bool {
        self.0 & 0x0208 != 0
    }
}

/// A Thumb add/subtract with a 3-bit immediate.
#[derive(Debug, Clone, Copy)]
pub struct ThumbDpFmt2Bf(pub u16);

impl ThumbWord for ThumbDpFmt2Bf {
    open spec fn raw(&self) -> u16 {
        self.0
    }
}

impl DpFmt2Bits for ThumbDpFmt2Bf {
    fn rd(&self) -> u16 {
        self.0 & 0x0007
    }

    fn rn(&self) -> u16 {
        (self.0 & 0x0038) >> 3
    }

    fn imm3(&self) -> u16 {
        (self.0 & 0x01C8) >> 6
    }

    fn op2(&self) -> bool {
        self.0 & 0x0208 != 0
    }
}

/// A Thumb mov/cmp/add/sub with an 8-bit immediate.
#[derive(Debug, Clone, Copy)]
pub struct ThumbDpFmt3Bf(pub u16);

impl ThumbWord for ThumbDpFmt3Bf {
    open spec fn raw(&self) -> u16 {
        self.0
    }
}

impl DpFmt3Bits for ThumbDpFmt3Bf {
    fn imm8(&self) -> u16 {
        proof {
            lemma_thumb_field_bounds(self.0);
        }
        self.0 & 0x00FF
    }

    fn rd(&self) -> u16 {
        (self.0 & 0x0700) >> 8
    }

    fn rn(&self) -> u16 {
        (self.0 & 0x0700) >> 8
    }

    fn op3(&self) -> u16 {
        (self.0 & 0x1800) >> 11
    }
}

/// A Thumb shift by immediate.
#[derive(Debug, Clone, Copy)]
pub struct ThumbDpFmt4Bf(pub u16);

impl ThumbWord for ThumbDpFmt4Bf {
    open spec fn raw(&self) -> u16 {
        self.0
    }
}

impl DpFmt4Bits for ThumbDpFmt4Bf {
    fn rd(&self) -> u16 {
        self.0 & 0x0007
    }

    fn rm(&self) -> u16 {
        (self.0 & 0x0038) >> 3
    }

    fn shift_imm(&self) -> u16 {
        (self.0 & 0x07C0) >> 6
    }

    fn op4(&self) -> u16 {
        (self.0 & 0x1800) >> 11
    }
}

/// A Thumb ALU operation on low registers.
#[derive(Debug, Clone, Copy)]
pub struct ThumbDpFmt5Bf(pub u16);

impl ThumbWord for ThumbDpFmt5Bf {
    open spec fn raw(&self) -> u16 {
        self.0
    }
}

impl DpFmt5Bits for ThumbDpFmt5Bf {
    fn rd(&self) -> u16 {
        self.0 & 0x0007
    }

    fn rn(&self) -> u16 {
        self.0 & 0x0007
    }

    fn rm(&self) -> u16 {
        (self.0 & 0x0038) >> 3
    }

    fn rs(&self) -> u16 {
        (self.0 & 0x0038) >> 3
    }

    fn op5(&self) -> u16 {
        (self.0 & 0x03C0) >> 6
    }
}

/// A Thumb SP- or PC-relative address formation.
#[derive(Debug, Clone, Copy)]
pub struct ThumbDpFmt6Bf(pub u16);

impl ThumbWord for ThumbDpFmt6Bf {
    open spec fn raw(&self) -> u16 {
        self.0
    }
}

impl DpFmt6Bits for ThumbDpFmt6Bf {
    fn imm8(&self) -> u16 {
        proof {
            lemma_thumb_field_bounds(self.0);
        }
        self.0 & 0x00FF
    }

    fn rd(&self) -> u16 {
        (self.0 & 0x0700) >> 8
    }

    fn reg(&self) -> bool {
        self.0 & 0x0800 != 0
    }
}

/// A Thumb SP adjustment.
#[derive(Debug, Clone, Copy)]
pub struct ThumbDpFmt7Bf(pub u16);

impl ThumbWord for ThumbDpFmt7Bf {
    open spec fn raw(&self) -> u16 {
        self.0
    }
}

impl DpFmt7Bits for ThumbDpFmt7Bf {
    fn imm7(&self) -> u16 {
        self.0 & 0x007F
    }

    fn op6(&self) -> u16 {
        (self.0 & 0x0080) >> 7
    }
}

/// A Thumb high-register operation.
#[derive(Debug, Clone, Copy)]
pub struct ThumbDpFmt8Bf(pub u16);

impl ThumbWord for ThumbDpFmt8Bf {
    open spec fn raw(&self) -> u16 {
        self.0
    }
}

impl DpFmt8Bits for ThumbDpFmt8Bf {
    fn rd(&self) -> u16 {
        self.0 & 0x0007
    }

    fn rn(&self) -> u16 {
        self.0 & 0x0007
    }

    fn rm(&self) -> u16 {
        (self.0 & 0x0038) >> 3
    }

    fn h2(&self) -> bool {
        self.0 & 0x0040 != 0
    }

    fn h1(&self) -> bool {
        self.0 & 0x0080 != 0
    }

    fn opcd(&self) -> u16 {
        (self.0 & 0x0300) >> 8
    }
}

/// A Thumb load/store with a 5-bit immediate offset.
#[derive(Debug, Clone, Copy)]
pub struct ThumbLsRegFmt1Bf(pub u16);

impl ThumbWord for ThumbLsRegFmt1Bf {
    open spec fn raw(&self) -> u16 {
        self.0
    }
}

impl LsRegFmt1Bits for ThumbLsRegFmt1Bf {
    fn rd(&self) -> u16 {
        self.0 & 0x0007
    }

    fn rn(&self) -> u16 {
        (self.0 & 0x0038) >> 3
    }

    fn imm5(&self) -> u16 {
        (self.0 & 0x07C0) >> 6
    }

    fn opcd1(&self) -> u16 {
        (self.0 & 0xF880) >> 11
    }
}

/// A Thumb load/store with a register offset.
#[derive(Debug, Clone, Copy)]
pub struct ThumbLsRegFmt2Bf(pub u16);

impl ThumbWord for ThumbLsRegFmt2Bf {
    open spec fn raw(&self) -> u16 {
        self.0
    }
}

impl LsRegFmt2Bits for ThumbLsRegFmt2Bf {
    fn rd(&self) -> u16 {
        self.0 & 0x0007
    }

    fn rn(&self) -> u16 {
        (self.0 & 0x0038) >> 3
    }

    fn rm(&self) -> u16 {
        (self.0 & 0x01C0) >> 6
    }

    fn opcd2(&self) -> u16 {
        (self.0 & 0xFE00) >> 9
    }
}

/// A Thumb literal-pool load.
#[derive(Debug, Clone, Copy)]
pub struct ThumbLsRegFmt3Bf(pub u16);

impl ThumbWord for ThumbLsRegFmt3Bf {
    open spec fn raw(&self) -> u16 {
        self.0
    }
}

impl LsRegFmt3Bits for ThumbLsRegFmt3Bf {
    fn imm8(&self) -> u16 {
        proof {
            lemma_thumb_field_bounds(self.0);
        }
        self.0 & 0x00FF
    }

    fn rd(&self) -> u16 {
        (self.0 & 0x0700) >> 8
    }
}

/// A Thumb stack-relative load/store.
#[derive(Debug, Clone, Copy)]
pub struct ThumbLsRegFmt4Bf(pub u16);

impl ThumbWord for ThumbLsRegFmt4Bf {
    open spec fn raw(&self) -> u16 {
        self.0
    }
}

impl LsRegFmt4Bits for ThumbLsRegFmt4Bf {
    fn imm8(&self) -> u16 {
        proof {
            lemma_thumb_field_bounds(self.0);
        }
        self.0 & 0x00FF
    }

    fn rd(&self) -> u16 {
        (self.0 & 0x0700) >> 8
    }

    fn l(&self) -> bool {
        self.0 & 0x0800 != 0
    }
}

/// A Thumb load/store multiple.
#[derive(Debug, Clone, Copy)]
pub struct ThumbLsMultiBf(pub u16);

impl ThumbWord for ThumbLsMultiBf {
    open spec fn raw(&self) -> u16 {
        self.0
    }
}

impl LsMultiFmt1Bits for ThumbLsMultiBf {
    fn reglist(&self) -> u16 {
        proof {
            lemma_thumb_field_bounds(self.0);
        }
        self.0 & 0x00FF
    }

    fn rn(&self) -> u16 {
        (self.0 & 0x0700) >> 8
    }

    fn l(&self) -> bool {
        self.0 & 0x0800 != 0
    }
}

/// A Thumb push or pop.
#[derive(Debug, Clone, Copy)]
pub struct PushPopBf(pub u16);

impl ThumbWord for PushPopBf {
    open spec fn raw(&self) -> u16 {
        self.0
    }
}

impl LsMultiFmt2Bits for PushPopBf {
    fn reglist(&self) -> u16 {
        proof {
            lemma_thumb_field_bounds(self.0);
        }
        self.0 & 0x00FF
    }

    fn r(&self) -> bool {
        self.0 & 0x0100 != 0
    }

    fn l(&self) -> bool {
        self.0 & 0x0800 != 0
    }
}

/// A Thumb exception-generating instruction.
#[derive(Debug, Clone, Copy)]
pub struct ThumbExcepBf(pub u16);

impl ThumbWord for ThumbExcepBf {
    open spec fn raw(&self) -> u16 {
        self.0
    }
}

impl ThumbExcepBits for ThumbExcepBf {
    fn imm8(&self) -> u16 {
        proof {
            lemma_thumb_field_bounds(self.0);
        }
        self.0 & 0x00FF
    }
}

/// A Thumb conditional branch.
#[derive(Debug, Clone, Copy)]
pub struct ThumbCondBranchBf(pub u16);

impl ThumbWord for ThumbCondBranchBf {
    open spec fn raw(&self) -> u16 {
        self.0
    }
}

impl ThumbCondBranchBits for ThumbCondBranchBf {
    fn simm8(&self) -> u16 {
        proof {
            lemma_thumb_field_bounds(self.0);
        }
        self.0 & 0x00FF
    }

    fn cond(&self) -> u16 {
        proof {
            lemma_thumb_field_bounds(self.0);
        }
        (self.0 & 0x0F00) >> 8
    }
}

/// A Thumb unconditional branch.
#[derive(Debug, Clone, Copy)]
pub struct ThumbUncondBranchBf(pub u16);

impl ThumbWord for ThumbUncondBranchBf {
    open spec fn raw(&self) -> u16 {
        self.0
    }
}

impl ThumbUncondBranchBits for ThumbUncondBranchBf {
    fn imm11(&self) -> u16 {
        self.0 & 0x07FF
    }

    fn h(&self) -> u16 {
        (self.0 & 0x1800) >> 11
    }
}

/// A Thumb branch-exchange.
#[derive(Debug, Clone, Copy)]
pub struct ThumbBxBf(pub u16);

impl ThumbWord for ThumbBxBf {
    open spec fn raw(&self) -> u16 {
        self.0
    }
}

impl ThumbBranchExchangeBits for ThumbBxBf {
    fn rm(&self) -> u16 {
        proof {
            lemma_thumb_field_bounds(self.0);
        }
        (self.0 & 0x0078) >> 3
    }

    fn h2(&self) -> bool {
        self.0 & 0x0040 != 0
    }
}

} // verus!
