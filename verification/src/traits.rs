//! Traits implemented on newtypes for representing bitfields.
//!
//! These traits describe some set of bitfields that may or may not belong to
//! a particular group/class/type of ARM instructions.  Each accessor's
//! contract ties it to the corresponding extractor in `crate::bits`, applied
//! to the raw word of the view, so downstream code can discover fields
//! through these capability sets instead of raw bit math.

use vstd::prelude::*;

use crate::bits::spec_b;
use crate::bits::spec_bit;
use crate::bits::spec_cond;
use crate::bits::spec_cp_num;
use crate::bits::spec_cp_opcd1;
use crate::bits::spec_cp_opcd1_rt;
use crate::bits::spec_cp_opcd2;
use crate::bits::spec_group;
use crate::bits::spec_imm12;
use crate::bits::spec_imm12_hi;
use crate::bits::spec_imm24;
use crate::bits::spec_imm4;
use crate::bits::spec_imm8;
use crate::bits::spec_l;
use crate::bits::spec_off_hi;
use crate::bits::spec_off_lo;
use crate::bits::spec_opcd;
use crate::bits::spec_p;
use crate::bits::spec_reglist;
use crate::bits::spec_rd;
use crate::bits::spec_rm;
use crate::bits::spec_rn;
use crate::bits::spec_rot_imm;
use crate::bits::spec_rs;
use crate::bits::spec_s;
use crate::bits::spec_shift;
use crate::bits::spec_shift_imm;
use crate::bits::spec_u;
use crate::bits::spec_w;
use crate::bits::spec_x;
use crate::bits::spec_y;

verus! {

/// The raw 32-bit word behind an ARM bitfield view.  Every capability trait
/// states its accessors' results over this word, so a view is determined by
/// the word alone.
pub trait ArmWord {
    /// The wrapped raw word.
    spec fn raw(&self) -> u32;
}

/// The raw 16-bit halfword behind a Thumb bitfield view.
pub trait ThumbWord {
    /// The wrapped raw halfword.
    spec fn raw(&self) -> u16;
}

/// Accessors common to all instructions.
pub trait InstBits: ArmWord {
    /// The condition field (bits 31-28).
    fn cond(&self) -> (r: u32)
        ensures
            r == spec_cond(self.raw()),
            r < 16,
    ;

    /// The group field (bits 27-25).
    fn group(&self) -> (r: u32)
        ensures
            r == spec_group(self.raw()),
            r < 8,
    ;
}

/// Accessors common to data processing instructions.
pub trait DpBits: ArmWord {
    /// The opcode field (bits 24-21).
    fn opcd(&self) -> (r: u32)
        ensures
            r == spec_opcd(self.raw()),
            r < 16,
    ;

    /// The S bit (bit 20).
    fn s(&self) -> (r: bool)
        ensures
            r == spec_s(self.raw()),
    ;
}

/// Accessors common to load/store multiple instructions.
pub trait LsMultiBits: ArmWord {
    /// The S bit of a load/store multiple (bit 22).
    fn s(&self) -> (r: bool)
        ensures
            r == spec_b(self.raw()),
    ;

    /// The register list (bits 15-0).
    fn reglist(&self) -> (r: u32)
        ensures
            r == spec_reglist(self.raw()),
            r < 0x1_0000,
    ;
}

/// Accessors common to multiply instructions.
pub trait MultiplyBits: ArmWord {
    /// The high destination register of a long multiply (bits 19-16).
    fn rd_hi(&self) -> (r: u32)
        ensures
            r == spec_rn(self.raw()),
            r < 16,
    ;

    /// The low destination register of a long multiply (bits 15-12).
    fn rd_lo(&self) -> (r: u32)
        ensures
            r == spec_rd(self.raw()),
            r < 16,
    ;

    /// The accumulate bit (bit 21).
    fn a(&self) -> (r: bool)
        ensures
            r == spec_w(self.raw()),
    ;

    /// The signedness bit (bit 22).
    fn un(&self) -> (r: bool)
        ensures
            r == spec_b(self.raw()),
    ;

    /// The x bit of a halfword multiply (bit 5).
    fn x(&self) -> (r: bool)
        ensures
            r == spec_x(self.raw()),
    ;

    /// The y bit of a halfword multiply (bit 6).
    fn y(&self) -> (r: bool)
        ensures
            r == spec_y(self.raw()),
    ;
}

/// Accessors common to load/store instructions.
pub trait LsBits: ArmWord {
    /// The P bit (bit 24).
    fn p(&self) -> (r: bool)
        ensures
            r == spec_p(self.raw()),
    ;

    /// The U bit (bit 23).
    fn u(&self) -> (r: bool)
        ensures
            r == spec_u(self.raw()),
    ;

    /// The B bit (bit 22).
    fn b(&self) -> (r: bool)
        ensures
            r == spec_b(self.raw()),
    ;

    /// The W bit (bit 21).
    fn w(&self) -> (r: bool)
        ensures
            r == spec_w(self.raw()),
    ;

    /// The L bit (bit 20).
    fn l(&self) -> (r: bool)
        ensures
            r == spec_l(self.raw()),
    ;
}

/// Accessors for immediates.
pub trait ImmBits: ArmWord {
    /// The imm4 field (bits 3-0).
    fn imm4(&self) -> (r: u32)
        ensures
            r == spec_imm4(self.raw()),
            r < 16,
    ;

    /// The imm8 field (bits 7-0).
    fn imm8(&self) -> (r: u32)
        ensures
            r == spec_imm8(self.raw()),
            r < 256,
    ;

    /// The imm12 field (bits 11-0).
    fn imm12(&self) -> (r: u32)
        ensures
            r == spec_imm12(self.raw()),
            r < 4096,
    ;

    /// The imm12_hi field (bits 19-8).
    fn imm12_hi(&self) -> (r: u32)
        ensures
            r == spec_imm12_hi(self.raw()),
            r < 4096,
    ;

    /// The imm24 field (bits 23-0).
    fn imm24(&self) -> (r: u32)
        ensures
            r == spec_imm24(self.raw()),
            r < 0x0100_0000,
    ;

    /// The high offset nibble (bits 11-8).
    fn off_hi(&self) -> (r: u32)
        ensures
            r == spec_off_hi(self.raw()),
            r < 16,
    ;

    /// The low offset nibble (bits 3-0).
    fn off_lo(&self) -> (r: u32)
        ensures
            r == spec_off_lo(self.raw()),
            r < 16,
    ;
}

/// Accessors for instructions that modify the status registers.
pub trait SrBits: ArmWord {
    /// The field mask of an msr (bits 19-16).
    fn field_mask(&self) -> (r: u32)
        ensures
            r == spec_rn(self.raw()),
            r < 16,
    ;

    /// The R bit selecting SPSR over CPSR (bit 22).
    fn r(&self) -> (r: bool)
        ensures
            r == spec_b(self.raw()),
    ;
}

/// Accessors in branching instructions.
pub trait BranchBits: ArmWord {
    /// The link bit (bit 24).
    fn link(&self) -> (r: bool)
        ensures
            r == spec_p(self.raw()),
    ;
}

/// Accessors for rotate instructions.
pub trait RotBits: ArmWord {
    /// The rotate immediate (bits 11-8).
    fn rot_imm(&self) -> (r: u32)
        ensures
            r == spec_rot_imm(self.raw()),
            r < 16,
    ;
}

/// Accessors for shifter instructions.
pub trait ShiftBits: ArmWord {
    /// The shift immediate (bits 11-7).
    fn shift_imm(&self) -> (r: u32)
        ensures
            r == spec_shift_imm(self.raw()),
            r < 32,
    ;

    /// The shift type (bits 6-5).
    fn shift(&self) -> (r: u32)
        ensures
            r == spec_shift(self.raw()),
            r < 4,
    ;
}

/// Accessors common to coprocessor instructions.
pub trait CoprocBits: ArmWord {
    /// Coprocessor opcode 1 (bits 23-20).
    fn opcd1(&self) -> (r: u32)
        ensures
            r == spec_cp_opcd1(self.raw()),
            r < 16,
    ;

    /// Coprocessor opcode 1 of a register transfer (bits 23-21).
    fn opcd1_rt(&self) -> (r: u32)
        ensures
            r == spec_cp_opcd1_rt(self.raw()),
            r < 8,
    ;

    /// The coprocessor number (bits 11-8).
    fn cp_num(&self) -> (r: u32)
        ensures
            r == spec_cp_num(self.raw()),
            r < 16,
    ;

    /// Coprocessor opcode 2 (bits 7-5).
    fn opcd2(&self) -> (r: u32)
        ensures
            r == spec_cp_opcd2(self.raw()),
            r < 8,
    ;

    /// The crN field (bits 19-16).
    fn crn(&self) -> (r: u32)
        ensures
            r == spec_rn(self.raw()),
            r < 16,
    ;

    /// The crD field (bits 15-12).
    fn crd(&self) -> (r: u32)
        ensures
            r == spec_rd(self.raw()),
            r < 16,
    ;

    /// The crM field (bits 3-0).
    fn crm(&self) -> (r: u32)
        ensures
            r == spec_rm(self.raw()),
            r < 16,
    ;
}

/// Accessors for common register fields.
pub trait RegBits: ArmWord {
    /// The rN field (bits 19-16).
    fn rn(&self) -> (r: u32)
        ensures
            r == spec_rn(self.raw()),
            r < 16,
    ;

    /// The rD field (bits 15-12).
    fn rd(&self) -> (r: u32)
        ensures
            r == spec_rd(self.raw()),
            r < 16,
    ;

    /// The rM field (bits 3-0).
    fn rm(&self) -> (r: u32)
        ensures
            r == spec_rm(self.raw()),
            r < 16,
    ;

    /// The rS field (bits 11-8).
    fn rs(&self) -> (r: u32)
        ensures
            r == spec_rs(self.raw()),
            r < 16,
    ;
}

/// Thumb data-processing, format 1.
pub trait DpFmt1Bits: ThumbWord {
    /// The destination register (bits 2-0).
    fn rd(&self) -> (r: u16)
        ensures
            r == self.raw() & 0x0007,
    ;

    /// The first operand register (bits 5-3).
    fn rn(&self) -> (r: u16)
        ensures
            r == (self.raw() & 0x0038) >> 3,
    ;

    /// The second operand register.
    fn rm(&self) -> (r: u16)
        ensures
            r == (self.raw() & 0x01C8) >> 6,
    ;

    /// The operation select bit.
    fn op1(&self) -> (r: bool)
        ensures
            r == (self.raw() & 0x0208 != 0),
    ;
}

/// Thumb data-processing, format 2.
pub trait DpFmt2Bits: ThumbWord {
    /// The destination register (bits 2-0).
    fn rd(&self) -> (r: u16)
        ensures
            r == self.raw() & 0x0007,
    ;

    /// The first operand register (bits 5-3).
    fn rn(&self) -> (r: u16)
        ensures
            r == (self.raw() & 0x0038) >> 3,
    ;

    /// The 3-bit immediate.
    fn imm3(&self) -> (r: u16)
        ensures
            r == (self.raw() & 0x01C8) >> 6,
    ;

    /// The operation select bit.
    fn op2(&self) -> (r: bool)
        ensures
            r == (self.raw() & 0x0208 != 0),
    ;
}

/// Thumb data-processing, format 3.
pub trait DpFmt3Bits: ThumbWord {
    /// The 8-bit immediate (bits 7-0).
    fn imm8(&self) -> (r: u16)
        ensures
            r == self.raw() & 0x00FF,
            r < 256,
    ;

    /// The destination register (bits 10-8).
    fn rd(&self) -> (r: u16)
        ensures
            r == (self.raw() & 0x0700) >> 8,
    ;

    /// The operand register (bits 10-8, aliased with rd).
    fn rn(&self) -> (r: u16)
        ensures
            r == (self.raw() & 0x0700) >> 8,
    ;

    /// The operation field (bits 12-11).
    fn op3(&self) -> (r: u16)
        ensures
            r == (self.raw() & 0x1800) >> 11,
    ;
}

/// Thumb data-processing, format 4.
pub trait DpFmt4Bits: ThumbWord {
    /// The destination register (bits 2-0).
    fn rd(&self) -> (r: u16)
        ensures
            r == self.raw() & 0x0007,
    ;

    /// The source register (bits 5-3).
    fn rm(&self) -> (r: u16)
        ensures
            r == (self.raw() & 0x0038) >> 3,
    ;

    /// The shift immediate (bits 10-6).
    fn shift_imm(&self) -> (r: u16)
        ensures
            r == (self.raw() & 0x07C0) >> 6,
    ;

    /// The operation field (bits 12-11).
    fn op4(&self) -> (r: u16)
        ensures
            r == (self.raw() & 0x1800) >> 11,
    ;
}

/// Thumb data-processing, format 5.
pub trait DpFmt5Bits: ThumbWord {
    /// The destination register (bits 2-0).
    fn rd(&self) -> (r: u16)
        ensures
            r == self.raw() & 0x0007,
    ;

    /// The first operand register (bits 2-0, aliased with rd).
    fn rn(&self) -> (r: u16)
        ensures
            r == self.raw() & 0x0007,
    ;

    /// The second operand register (bits 5-3).
    fn rm(&self) -> (r: u16)
        ensures
            r == (self.raw() & 0x0038) >> 3,
    ;

    /// The shift register (bits 5-3, aliased with rm).
    fn rs(&self) -> (r: u16)
        ensures
            r == (self.raw() & 0x0038) >> 3,
    ;

    /// The operation field (bits 9-6).
    fn op5(&self) -> (r: u16)
        ensures
            r == (self.raw() & 0x03C0) >> 6,
    ;
}

/// Thumb data-processing, format 6.
pub trait DpFmt6Bits: ThumbWord {
    /// The 8-bit immediate (bits 7-0).
    fn imm8(&self) -> (r: u16)
        ensures
            r == self.raw() & 0x00FF,
            r < 256,
    ;

    /// The destination register (bits 10-8).
    fn rd(&self) -> (r: u16)
        ensures
            r == (self.raw() & 0x0700) >> 8,
    ;

    /// The base-register select bit (bit 11).
    fn reg(&self) -> (r: bool)
        ensures
            r == (self.raw() & 0x0800 != 0),
    ;
}

/// Thumb data-processing, format 7.
pub trait DpFmt7Bits: ThumbWord {
    /// The 7-bit immediate (bits 6-0).
    fn imm7(&self) -> (r: u16)
        ensures
            r == self.raw() & 0x007F,
    ;

    /// The operation select bit (bit 7).
    fn op6(&self) -> (r: u16)
        ensures
            r == (self.raw() & 0x0080) >> 7,
    ;
}

/// Thumb data-processing, format 8.
pub trait DpFmt8Bits: ThumbWord {
    /// The destination register (bits 2-0).
    fn rd(&self) -> (r: u16)
        ensures
            r == self.raw() & 0x0007,
    ;

    /// The first operand register (bits 2-0, aliased with rd).
    fn rn(&self) -> (r: u16)
        ensures
            r == self.raw() & 0x0007,
    ;

    /// The second operand register (bits 5-3).
    fn rm(&self) -> (r: u16)
        ensures
            r == (self.raw() & 0x0038) >> 3,
    ;

    /// The H2 bit (bit 6).
    fn h2(&self) -> (r: bool)
        ensures
            r == (self.raw() & 0x0040 != 0),
    ;

    /// The H1 bit (bit 7).
    fn h1(&self) -> (r: bool)
        ensures
            r == (self.raw() & 0x0080 != 0),
    ;

    /// The operation field (bits 9-8).
    fn opcd(&self) -> (r: u16)
        ensures
            r == (self.raw() & 0x0300) >> 8,
    ;
}

/// Thumb load/store register, format 1.
pub trait LsRegFmt1Bits: ThumbWord {
    /// The transfer register (bits 2-0).
    fn rd(&self) -> (r: u16)
        ensures
            r == self.raw() & 0x0007,
    ;

    /// The base register (bits 5-3).
    fn rn(&self) -> (r: u16)
        ensures
            r == (self.raw() & 0x0038) >> 3,
    ;

    /// The 5-bit offset (bits 10-6).
    fn imm5(&self) -> (r: u16)
        ensures
            r == (self.raw() & 0x07C0) >> 6,
    ;

    /// The opcode field (bits 15-11).
    fn opcd1(&self) -> (r: u16)
        ensures
            r == (self.raw() & 0xF880) >> 11,
    ;
}

/// Thumb load/store register, format 2.
pub trait LsRegFmt2Bits: ThumbWord {
    /// The transfer register (bits 2-0).
    fn rd(&self) -> (r: u16)
        ensures
            r == self.raw() & 0x0007,
    ;

    /// The base register (bits 5-3).
    fn rn(&self) -> (r: u16)
        ensures
            r == (self.raw() & 0x0038) >> 3,
    ;

    /// The offset register (bits 8-6).
    fn rm(&self) -> (r: u16)
        ensures
            r == (self.raw() & 0x01C0) >> 6,
    ;

    /// The opcode field (bits 15-9).
    fn opcd2(&self) -> (r: u16)
        ensures
            r == (self.raw() & 0xFE00) >> 9,
    ;
}

/// Thumb load/store register, format 3.
pub trait LsRegFmt3Bits: ThumbWord {
    /// The 8-bit offset (bits 7-0).
    fn imm8(&self) -> (r: u16)
        ensures
            r == self.raw() & 0x00FF,
            r < 256,
    ;

    /// The transfer register (bits 10-8).
    fn rd(&self) -> (r: u16)
        ensures
            r == (self.raw() & 0x0700) >> 8,
    ;
}

/// Thumb load/store register, format 4.
pub trait LsRegFmt4Bits: ThumbWord {
    /// The 8-bit offset (bits 7-0).
    fn imm8(&self) -> (r: u16)
        ensures
            r == self.raw() & 0x00FF,
            r < 256,
    ;

    /// The transfer register (bits 10-8).
    fn rd(&self) -> (r: u16)
        ensures
            r == (self.raw() & 0x0700) >> 8,
    ;

    /// The load bit (bit 11).
    fn l(&self) -> (r: bool)
        ensures
            r == (self.raw() & 0x0800 != 0),
    ;
}

/// Thumb load/store multiple, format 1.
pub trait LsMultiFmt1Bits: ThumbWord {
    /// The register list (bits 7-0).
    fn reglist(&self) -> (r: u16)
        ensures
            r == self.raw() & 0x00FF,
            r < 256,
    ;

    /// The base register (bits 10-8).
    fn rn(&self) -> (r: u16)
        ensures
            r == (self.raw() & 0x0700) >> 8,
    ;

    /// The load bit (bit 11).
    fn l(&self) -> (r: bool)
        ensures
            r == (self.raw() & 0x0800 != 0),
    ;
}

/// Thumb load/store multiple, format 2 (push/pop).
pub trait LsMultiFmt2Bits: ThumbWord {
    /// The register list (bits 7-0).
    fn reglist(&self) -> (r: u16)
        ensures
            r == self.raw() & 0x00FF,
            r < 256,
    ;

    /// The R bit including lr/pc in the list (bit 8).
    fn r(&self) -> (r: bool)
        ensures
            r == (self.raw() & 0x0100 != 0),
    ;

    /// The load bit (bit 11).
    fn l(&self) -> (r: bool)
        ensures
            r == (self.raw() & 0x0800 != 0),
    ;
}

/// Thumb exception-generating instructions.
pub trait ThumbExcepBits: ThumbWord {
    /// The 8-bit immediate (bits 7-0).
    fn imm8(&self) -> (r: u16)
        ensures
            r == self.raw() & 0x00FF,
            r < 256,
    ;
}

/// Thumb conditional branches.
pub trait ThumbCondBranchBits: ThumbWord {
    /// The signed 8-bit offset (bits 7-0).
    fn simm8(&self) -> (r: u16)
        ensures
            r == self.raw() & 0x00FF,
            r < 256,
    ;

    /// The condition field (bits 11-8).
    fn cond(&self) -> (r: u16)
        ensures
            r == (self.raw() & 0x0F00) >> 8,
            r < 16,
    ;
}

/// Thumb unconditional branches.
pub trait ThumbUncondBranchBits: ThumbWord {
    /// The 11-bit offset (bits 10-0).
    fn imm11(&self) -> (r: u16)
        ensures
            r == self.raw() & 0x07FF,
    ;

    /// The H field (bits 12-11).
    fn h(&self) -> (r: u16)
        ensures
            r == (self.raw() & 0x1800) >> 11,
    ;
}

/// Thumb branch-exchange instructions.
pub trait ThumbBranchExchangeBits: ThumbWord {
    /// The target register (bits 6-3).
    fn rm(&self) -> (r: u16)
        ensures
            r == (self.raw() & 0x0078) >> 3,
            r < 16,
    ;

    /// The H2 bit (bit 6).
    fn h2(&self) -> (r: bool)
        ensures
            r == (self.raw() & 0x0040 != 0),
    ;
}

} // verus!
