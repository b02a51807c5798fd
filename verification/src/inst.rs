//! The set of decode-able/supported ARM and Thumb instructions.
//!
//! Decoding is total: every 32-bit ARM word and every 16-bit Thumb halfword
//! maps to exactly one instruction kind, with `Undefined` as the sentinel for
//! encodings that have no architectural meaning here.  The executable decoders
//! are proved equal to the spec-mode decision trees `spec_decode_arm` and
//! `spec_decode_thumb`, which state the classification rules directly.

use vstd::prelude::*;

use crate::bits::bit;
use crate::bits::bit16;
use crate::bits::get_b;
use crate::bits::get_cond;
use crate::bits::get_control_opcd;
use crate::bits::get_decode_bits_lo;
use crate::bits::get_group;
use crate::bits::get_l;
use crate::bits::get_link;
use crate::bits::get_opcd;
use crate::bits::get_p;
use crate::bits::get_sat_addsub_op;
use crate::bits::get_signed_mul_op;
use crate::bits::get_u;
use crate::bits::is_valid_control_instr;
use crate::bits::is_valid_lsmisc_instr;
use crate::bits::is_valid_multiply_instr;
use crate::fields::spec_opcode_from_u32;
use crate::fields::Opcode;

verus! {

/// The set of supported Thumb instructions.
#[derive(Debug, Clone, Copy, PartialEq, Eq, Structural)]
pub enum ThumbInst {
    Undefined,
    RsbImm,
    LdrshReg,
    LdrbReg,
    LdrhReg,
    LdrReg,
    LdrsbReg,
    StrbReg,
    StrhReg,
    StrReg,
    LdrImm2,
    StrImm2,
    LdrhImm,
    StrhImm,
    LdrbImm,
    StrbImm,
    LdrImm1,
    StrImm1,
    SubImm1,
    AddImm1,
    SubReg,
    AddReg1,
    Bx,
    BlxReg,
    MovReg,
    CmpReg2,
    AddReg2,
    AsrImm,
    LsrImm,
    LslImm,
    SubImm2,
    AddImm2,
    CmpImm,
    MovImm,
    AndReg,
    EorReg,
    LslReg,
    LsrReg,
    AsrReg,
    AdcReg,
    SbcReg,
    RorReg,
    TstReg,
    CmnReg,
    OrrReg,
    MulReg,
    BicReg,
    MvnReg,
    CmpReg1,
    AddImmSp7,
    AddImmPc7,
    SubImmSp7,
    Push,
    Pop,
    Swi,
    Bkpt,
    BranchCond,
    BranchUncond,
    LdrLit,
    AddImmPc,
    AddImmSp,
    Stmia,
    Ldmia,
}

/// Thumb data-processing format 5: the 16-way ALU-register group.
pub open spec fn spec_thumb_dp_fmt5(x: u16) -> ThumbInst {
    let op = (x & 0x03C0) >> 6;
    if op == 0b0000 {
        ThumbInst::AndReg
    } else if op == 0b0001 {
        ThumbInst::EorReg
    } else if op == 0b0010 {
        ThumbInst::LslReg
    } else if op == 0b0011 {
        ThumbInst::LsrReg
    } else if op == 0b0100 {
        ThumbInst::AsrReg
    } else if op == 0b0101 {
        ThumbInst::AdcReg
    } else if op == 0b0110 {
        ThumbInst::SbcReg
    } else if op == 0b0111 {
        ThumbInst::RorReg
    } else if op == 0b1000 {
        ThumbInst::TstReg
    } else if op == 0b1001 {
        ThumbInst::RsbImm
    } else if op == 0b1010 {
        ThumbInst::CmpReg1
    } else if op == 0b1011 {
        ThumbInst::CmnReg
    } else if op == 0b1100 {
        ThumbInst::OrrReg
    } else if op == 0b1101 {
        ThumbInst::MulReg
    } else if op == 0b1110 {
        ThumbInst::BicReg
    } else {
        ThumbInst::MvnReg
    }
}

/// Thumb data-processing format 3: 8-bit immediate mov/cmp/add/sub.
pub open spec fn spec_thumb_dp_fmt3(x: u16) -> ThumbInst {
    let op = (x & 0x1800) >> 11;
    if op == 0b00 {
        ThumbInst::MovImm
    } else if op == 0b01 {
        ThumbInst::CmpImm
    } else if op == 0b10 {
        ThumbInst::AddImm2
    } else {
        ThumbInst::SubImm2
    }
}

/// Thumb register-offset load/store group.
pub open spec fn spec_thumb_lsreg(x: u16) -> ThumbInst {
    let op = (x & 0x0E00) >> 9;
    if op == 0b000 {
        ThumbInst::StrReg
    } else if op == 0b001 {
        ThumbInst::StrhReg
    } else if op == 0b010 {
        ThumbInst::StrbReg
    } else if op == 0b011 {
        ThumbInst::LdrsbReg
    } else if op == 0b100 {
        ThumbInst::LdrReg
    } else if op == 0b101 {
        ThumbInst::LdrhReg
    } else if op == 0b110 {
        ThumbInst::LdrbReg
    } else {
        ThumbInst::LdrshReg
    }
}

/// Thumb high-register operations and branch-exchange group.
pub open spec fn spec_thumb_dp_special(x: u16) -> ThumbInst {
    let op = (x & 0x0300) >> 8;
    if op == 0b00 {
        ThumbInst::AddReg2
    } else if op == 0b01 {
        ThumbInst::CmpReg2
    } else if op == 0b10 {
        ThumbInst::MovReg
    } else if bit16(x, 7) {
        ThumbInst::BlxReg
    } else {
        ThumbInst::Bx
    }
}

/// Thumb data-processing formats 1 and 2: three-register and 3-bit-immediate
/// add/sub.
pub open spec fn spec_thumb_dp_fmt1_fmt2(x: u16) -> ThumbInst {
    let op = (x & 0x0600) >> 9;
    if op == 0b00 {
        ThumbInst::AddReg1
    } else if op == 0b01 {
        ThumbInst::SubReg
    } else if op == 0b10 {
        ThumbInst::AddImm1
    } else {
        ThumbInst::SubImm1
    }
}

/// Thumb word/byte immediate-offset load/store group.
pub open spec fn spec_thumb_ls_wb_imm(x: u16) -> ThumbInst {
    let op = (x & 0x1800) >> 11;
    if op == 0b00 {
        ThumbInst::StrImm1
    } else if op == 0b01 {
        ThumbInst::LdrImm1
    } else if op == 0b10 {
        ThumbInst::StrbImm
    } else {
        ThumbInst::LdrbImm
    }
}

/// Thumb halfword and stack-relative load/store group.
pub open spec fn spec_thumb_ls_half_stack(x: u16) -> ThumbInst {
    let op = (x & 0x1800) >> 11;
    if op == 0b00 {
        ThumbInst::StrhImm
    } else if op == 0b01 {
        ThumbInst::LdrhImm
    } else if op == 0b10 {
        ThumbInst::StrImm2
    } else {
        ThumbInst::LdrImm2
    }
}

/// Thumb miscellaneous group: SP adjustment, push/pop, breakpoint.
pub open spec fn spec_thumb_misc(x: u16) -> ThumbInst {
    let op = (x & 0x0F00) >> 8;
    if op == 0b0000 {
        if bit16(x, 7) {
            ThumbInst::SubImmSp7
        } else {
            ThumbInst::AddImmSp7
        }
    } else if op == 0b0100 || op == 0b0101 {
        ThumbInst::Push
    } else if op == 0b1100 || op == 0b1101 {
        ThumbInst::Pop
    } else if op == 0b1110 {
        ThumbInst::Bkpt
    } else {
        ThumbInst::Undefined
    }
}

/// Thumb conditional-branch group, with swi nested inside it.
pub open spec fn spec_thumb_cond_branch(x: u16) -> ThumbInst {
    let op = (x & 0x0F00) >> 8;
    if op == 0b1110 {
        ThumbInst::Undefined
    } else if op == 0b1111 {
        ThumbInst::Swi
    } else {
        ThumbInst::BranchCond
    }
}

/// The Thumb decision tree: the kind encoded by a 16-bit halfword.
pub open spec fn spec_decode_thumb(x: u16) -> ThumbInst {
    let top = (x & 0xE000) >> 13;
    if top == 0b000 {
        let op = (x & 0x1800) >> 11;
        if op == 0b00 {
            ThumbInst::LslImm
        } else if op == 0b01 {
            ThumbInst::LsrImm
        } else if op == 0b10 {
            ThumbInst::AsrImm
        } else {
            spec_thumb_dp_fmt1_fmt2(x)
        }
    } else if top == 0b001 {
        spec_thumb_dp_fmt3(x)
    } else if top == 0b010 {
        let op = (x & 0x1C00) >> 10;
        if op == 0b000 {
            spec_thumb_dp_fmt5(x)
        } else if op == 0b001 {
            spec_thumb_dp_special(x)
        } else if op == 0b010 || op == 0b011 {
            ThumbInst::LdrLit
        } else {
            spec_thumb_lsreg(x)
        }
    } else if top == 0b011 {
        spec_thumb_ls_wb_imm(x)
    } else if top == 0b100 {
        spec_thumb_ls_half_stack(x)
    } else if top == 0b101 {
        let op = (x & 0x1800) >> 11;
        if op == 0b00 {
            ThumbInst::AddImmPc
        } else if op == 0b01 {
            ThumbInst::AddImmSp
        } else {
            spec_thumb_misc(x)
        }
    } else if top == 0b110 {
        let op = (x & 0x1800) >> 11;
        if op == 0b00 {
            ThumbInst::Stmia
        } else if op == 0b01 {
            ThumbInst::Ldmia
        } else {
            spec_thumb_cond_branch(x)
        }
    } else {
        ThumbInst::Undefined
    }
}

impl ThumbInst {
    fn decode_dp_fmt5(x: u16) -> (r: ThumbInst)
        ensures
            r == spec_thumb_dp_fmt5(x),
    {
        match (x & 0x03C0) >> 6 {
            0b0000 => ThumbInst::AndReg,
            0b0001 => ThumbInst::EorReg,
            0b0010 => ThumbInst::LslReg,
            0b0011 => ThumbInst::LsrReg,
            0b0100 => ThumbInst::AsrReg,
            0b0101 => ThumbInst::AdcReg,
            0b0110 => ThumbInst::SbcReg,
            0b0111 => ThumbInst::RorReg,
            0b1000 => ThumbInst::TstReg,
            0b1001 => ThumbInst::RsbImm,
            0b1010 => ThumbInst::CmpReg1,
            0b1011 => ThumbInst::CmnReg,
            0b1100 => ThumbInst::OrrReg,
            0b1101 => ThumbInst::MulReg,
            0b1110 => ThumbInst::BicReg,
            _ => ThumbInst::MvnReg,
        }
    }

    fn decode_dp_fmt3(x: u16) -> (r: ThumbInst)
        ensures
            r == spec_thumb_dp_fmt3(x),
    {
        match (x & 0x1800) >> 11 {
            0b00 => ThumbInst::MovImm,
            0b01 => ThumbInst::CmpImm,
            0b10 => ThumbInst::AddImm2,
            _ => ThumbInst::SubImm2,
        }
    }

    fn decode_lsreg(x: u16) -> (r: ThumbInst)
        ensures
            r == spec_thumb_lsreg(x),
    {
        match (x & 0x0E00) >> 9 {
            0b000 => ThumbInst::StrReg,
            0b001 => ThumbInst::StrhReg,
            0b010 => ThumbInst::StrbReg,
            0b011 => ThumbInst::LdrsbReg,
            0b100 => ThumbInst::LdrReg,
            0b101 => ThumbInst::LdrhReg,
            0b110 => ThumbInst::LdrbReg,
            _ => ThumbInst::LdrshReg,
        }
    }

    fn decode_dp_special(x: u16) -> (r: ThumbInst)
        ensures
            r == spec_thumb_dp_special(x),
    {
        match (x & 0x0300) >> 8 {
            0b00 => ThumbInst::AddReg2,
            0b01 => ThumbInst::CmpReg2,
            0b10 => ThumbInst::MovReg,
            _ => {
                if bit16(x, 7) {
                    ThumbInst::BlxReg
                } else {
                    ThumbInst::Bx
                }
            },
        }
    }

    fn decode_dp_fmt1_fmt2(x: u16) -> (r: ThumbInst)
        ensures
            r == spec_thumb_dp_fmt1_fmt2(x),
    {
        match (x & 0x0600) >> 9 {
            0b00 => ThumbInst::AddReg1,
            0b01 => ThumbInst::SubReg,
            0b10 => ThumbInst::AddImm1,
            _ => ThumbInst::SubImm1,
        }
    }

    fn decode_ls_wb_imm(x: u16) -> (r: ThumbInst)
        ensures
            r == spec_thumb_ls_wb_imm(x),
    {
        match (x & 0x1800) >> 11 {
            0b00 => ThumbInst::StrImm1,
            0b01 => ThumbInst::LdrImm1,
            0b10 => ThumbInst::StrbImm,
            _ => ThumbInst::LdrbImm,
        }
    }

    fn decode_ls_half_stack(x: u16) -> (r: ThumbInst)
        ensures
            r == spec_thumb_ls_half_stack(x),
    {
        match (x & 0x1800) >> 11 {
            0b00 => ThumbInst::StrhImm,
            0b01 => ThumbInst::LdrhImm,
            0b10 => ThumbInst::StrImm2,
            _ => ThumbInst::LdrImm2,
        }
    }

    fn decode_misc(x: u16) -> (r: ThumbInst)
        ensures
            r == spec_thumb_misc(x),
    {
        match (x & 0x0F00) >> 8 {
            0b0000 => {
                if bit16(x, 7) {
                    ThumbInst::SubImmSp7
                } else {
                    ThumbInst::AddImmSp7
                }
            },
            0b0100 | 0b0101 => ThumbInst::Push,
            0b1100 | 0b1101 => ThumbInst::Pop,
            0b1110 => ThumbInst::Bkpt,
            _ => ThumbInst::Undefined,
        }
    }

    fn decode_cond_branch(x: u16) -> (r: ThumbInst)
        ensures
            r == spec_thumb_cond_branch(x),
    {
        match (x & 0x0F00) >> 8 {
            0b1110 => ThumbInst::Undefined,
            0b1111 => ThumbInst::Swi,
            _ => ThumbInst::BranchCond,
        }
    }

    /// Decode a Thumb instruction.
    pub fn decode(x: u16) -> (r: ThumbInst)
        ensures
            r == spec_decode_thumb(x),
    {
        match (x & 0xE000) >> 13 {
            0b000 => {
                match (x & 0x1800) >> 11 {
                    0b00 => ThumbInst::LslImm,
                    0b01 => ThumbInst::LsrImm,
                    0b10 => ThumbInst::AsrImm,
                    _ => ThumbInst::decode_dp_fmt1_fmt2(x),
                }
            },
            0b001 => ThumbInst::decode_dp_fmt3(x),
            0b010 => {
                match (x & 0x1C00) >> 10 {
                    0b000 => ThumbInst::decode_dp_fmt5(x),
                    0b001 => ThumbInst::decode_dp_special(x),
                    0b010 | 0b011 => ThumbInst::LdrLit,
                    _ => ThumbInst::decode_lsreg(x),
                }
            },
            0b011 => ThumbInst::decode_ls_wb_imm(x),
            0b100 => ThumbInst::decode_ls_half_stack(x),
            0b101 => {
                match (x & 0x1800) >> 11 {
                    0b00 => ThumbInst::AddImmPc,
                    0b01 => ThumbInst::AddImmSp,
                    _ => ThumbInst::decode_misc(x),
                }
            },
            0b110 => {
                match (x & 0x1800) >> 11 {
                    0b00 => ThumbInst::Stmia,
                    0b01 => ThumbInst::Ldmia,
                    _ => ThumbInst::decode_cond_branch(x),
                }
            },
            _ => ThumbInst::Undefined,
        }
    }
}

/// The set of supported ARMv5 instructions.
#[derive(Debug, Clone, Copy, PartialEq, Eq, Structural)]
pub enum ArmInst {
    Undefined,
    // Control (status register)
    MsrReg,
    MsrImm,
    Mrs,
    // Control (misc.)
    Clz,
    Bx,
    BlxReg,
    // Control (saturated add/sub)
    Qadd,
    Qsub,
    QdAdd,
    QdSub,
    // Control (extended multiplies)
    SmlaXy,
    SmulwY,
    SmlawY,
    SmlalXy,
    SmulXy,
    // Load/store halfword
    StrhImm,
    LdrhImm,
    StrhReg,
    LdrhReg,
    // Load/store misc.
    LdrsbReg,
    LdrshReg,
    LdrsbImm,
    LdrshImm,
    StrdReg,
    LdrdReg,
    StrdImm,
    LdrdImm,
    // Multiplies
    Mul,
    Mla,
    Umull,
    Umlal,
    Smull,
    Smlal,
    // Load/store multiple
    Stmia,
    Stmib,
    Stmda,
    Stmdb,
    Ldmia,
    Ldmib,
    Ldmda,
    Ldmdb,
    // Load/store
    StrReg,
    LdrReg,
    StrbReg,
    LdrbReg,
    StrImm,
    LdrImm,
    StrbImm,
    LdrbImm,
    // Branching
    B,
    Bl,
    BlxImm,
    // Misc.
    Bkpt,
    Swi,
    Swp,
    Swpb,
    // Coprocessor (register transfer)
    Mrc,
    Mcr,
    // Coprocessor
    CoprocLs,
    CoprocDp,
    // Data processing (rotate immediate)
    AndRotImm,
    EorRotImm,
    SubRotImm,
    RsbRotImm,
    AddRotImm,
    AdcRotImm,
    SbcRotImm,
    RscRotImm,
    TstRotImm,
    TeqRotImm,
    CmpRotImm,
    CmnRotImm,
    OrrRotImm,
    MovRotImm,
    BicRotImm,
    MvnRotImm,
    // Data processing (shift immediate)
    AndShiftImm,
    EorShiftImm,
    SubShiftImm,
    RsbShiftImm,
    AddShiftImm,
    AdcShiftImm,
    SbcShiftImm,
    RscShiftImm,
    TstShiftImm,
    TeqShiftImm,
    CmpShiftImm,
    CmnShiftImm,
    OrrShiftImm,
    MovShiftImm,
    BicShiftImm,
    MvnShiftImm,
    // Data processing (shift register)
    AndShiftReg,
    EorShiftReg,
    SubShiftReg,
    RsbShiftReg,
    AddShiftReg,
    AdcShiftReg,
    SbcShiftReg,
    RscShiftReg,
    TstShiftReg,
    TeqShiftReg,
    CmpShiftReg,
    CmnShiftReg,
    OrrShiftReg,
    MovShiftReg,
    BicShiftReg,
    MvnShiftReg,
}

/// The control group: status-register moves, branch-exchange, clz,
/// saturating arithmetic, breakpoint, and the extended signed multiplies.
pub open spec fn spec_decode_ctrl(x: u32) -> ArmInst {
    let op = get_control_opcd(x);
    if op == 0b0000 {
        if bit(x, 21) {
            ArmInst::MsrReg
        } else {
            ArmInst::Mrs
        }
    } else if op == 0b0001 {
        if bit(x, 22) {
            ArmInst::Clz
        } else {
            ArmInst::Bx
        }
    } else if op == 0b0011 {
        ArmInst::BlxReg
    } else if op == 0b0101 {
        let sat = get_sat_addsub_op(x);
        if sat == 0b00 {
            ArmInst::Qadd
        } else if sat == 0b01 {
            ArmInst::Qsub
        } else if sat == 0b10 {
            ArmInst::QdAdd
        } else {
            ArmInst::QdSub
        }
    } else if op == 0b0111 {
        ArmInst::Bkpt
    } else if op == 0b1000 || op == 0b1010 || op == 0b1100 || op == 0b1110 {
        let sm = get_signed_mul_op(x);
        if sm == 0b00 {
            ArmInst::SmlaXy
        } else if sm == 0b01 {
            if bit(x, 5) {
                ArmInst::SmulwY
            } else {
                ArmInst::SmlawY
            }
        } else if sm == 0b10 {
            ArmInst::SmlalXy
        } else {
            ArmInst::SmulXy
        }
    } else {
        ArmInst::Undefined
    }
}

/// The load/store miscellaneous group: swap, halfword, signed and doubleword
/// transfers.
pub open spec fn spec_decode_lsmisc(x: u32) -> ArmInst {
    let lo = get_decode_bits_lo(x);
    if lo == 0b1001 {
        if get_b(x) {
            ArmInst::Swpb
        } else {
            ArmInst::Swp
        }
    } else if lo == 0b1011 {
        if bit(x, 22) {
            if get_l(x) {
                ArmInst::LdrhImm
            } else {
                ArmInst::StrhImm
            }
        } else {
            if get_l(x) {
                ArmInst::LdrhReg
            } else {
                ArmInst::StrhReg
            }
        }
    } else if lo == 0b1101 || lo == 0b1110 || lo == 0b1111 {
        if bit(x, 20) {
            if bit(x, 22) {
                if bit(x, 5) {
                    ArmInst::LdrshImm
                } else {
                    ArmInst::LdrsbImm
                }
            } else {
                if bit(x, 5) {
                    ArmInst::LdrshReg
                } else {
                    ArmInst::LdrsbReg
                }
            }
        } else {
            if bit(x, 22) {
                if bit(x, 5) {
                    ArmInst::StrdImm
                } else {
                    ArmInst::LdrdImm
                }
            } else {
                if bit(x, 5) {
                    ArmInst::StrdReg
                } else {
                    ArmInst::LdrdReg
                }
            }
        }
    } else {
        ArmInst::Undefined
    }
}

/// The multiply group: mul, mla and the long multiplies.
pub open spec fn spec_decode_mul(x: u32) -> ArmInst {
    if !bit(x, 23) && !bit(x, 22) && !bit(x, 21) {
        ArmInst::Mul
    } else if !bit(x, 23) && !bit(x, 22) && bit(x, 21) {
        ArmInst::Mla
    } else if bit(x, 23) && !bit(x, 22) && !bit(x, 21) {
        ArmInst::Umull
    } else if bit(x, 23) && !bit(x, 22) && bit(x, 21) {
        ArmInst::Umlal
    } else if bit(x, 23) && bit(x, 22) && !bit(x, 21) {
        ArmInst::Smull
    } else if bit(x, 23) && bit(x, 22) && bit(x, 21) {
        ArmInst::Smlal
    } else {
        ArmInst::Undefined
    }
}

/// The shift-by-register data-processing kind selected by the opcode field.
pub open spec fn spec_decode_dp_shift_reg(x: u32) -> ArmInst {
    match spec_opcode_from_u32(get_opcd(x)) {
        Opcode::And => ArmInst::AndShiftReg,
        Opcode::Eor => ArmInst::EorShiftReg,
        Opcode::Sub => ArmInst::SubShiftReg,
        Opcode::Rsb => ArmInst::RsbShiftReg,
        Opcode::Add => ArmInst::AddShiftReg,
        Opcode::Adc => ArmInst::AdcShiftReg,
        Opcode::Sbc => ArmInst::SbcShiftReg,
        Opcode::Rsc => ArmInst::RscShiftReg,
        Opcode::Tst => ArmInst::TstShiftReg,
        Opcode::Teq => ArmInst::TeqShiftReg,
        Opcode::Cmp => ArmInst::CmpShiftReg,
        Opcode::Cmn => ArmInst::CmnShiftReg,
        Opcode::Orr => ArmInst::OrrShiftReg,
        Opcode::Mov => ArmInst::MovShiftReg,
        Opcode::Bic => ArmInst::BicShiftReg,
        Opcode::Mvn => ArmInst::MvnShiftReg,
        Opcode::Undefined => ArmInst::Undefined,
    }
}

/// The shift-by-immediate data-processing kind selected by the opcode field.
pub open spec fn spec_decode_dp_shift_imm(x: u32) -> ArmInst {
    match spec_opcode_from_u32(get_opcd(x)) {
        Opcode::And => ArmInst::AndShiftImm,
        Opcode::Eor => ArmInst::EorShiftImm,
        Opcode::Sub => ArmInst::SubShiftImm,
        Opcode::Rsb => ArmInst::RsbShiftImm,
        Opcode::Add => ArmInst::AddShiftImm,
        Opcode::Adc => ArmInst::AdcShiftImm,
        Opcode::Sbc => ArmInst::SbcShiftImm,
        Opcode::Rsc => ArmInst::RscShiftImm,
        Opcode::Tst => ArmInst::TstShiftImm,
        Opcode::Teq => ArmInst::TeqShiftImm,
        Opcode::Cmp => ArmInst::CmpShiftImm,
        Opcode::Cmn => ArmInst::CmnShiftImm,
        Opcode::Orr => ArmInst::OrrShiftImm,
        Opcode::Mov => ArmInst::MovShiftImm,
        Opcode::Bic => ArmInst::BicShiftImm,
        Opcode::Mvn => ArmInst::MvnShiftImm,
        Opcode::Undefined => ArmInst::Undefined,
    }
}

/// The rotate-immediate data-processing kind selected by the opcode field.
pub open spec fn spec_decode_dp_rot_imm(x: u32) -> ArmInst {
    match spec_opcode_from_u32(get_opcd(x)) {
        Opcode::And => ArmInst::AndRotImm,
        Opcode::Eor => ArmInst::EorRotImm,
        Opcode::Sub => ArmInst::SubRotImm,
        Opcode::Rsb => ArmInst::RsbRotImm,
        Opcode::Add => ArmInst::AddRotImm,
        Opcode::Adc => ArmInst::AdcRotImm,
        Opcode::Sbc => ArmInst::SbcRotImm,
        Opcode::Rsc => ArmInst::RscRotImm,
        Opcode::Tst => ArmInst::TstRotImm,
        Opcode::Teq => ArmInst::TeqRotImm,
        Opcode::Cmp => ArmInst::CmpRotImm,
        Opcode::Cmn => ArmInst::CmnRotImm,
        Opcode::Orr => ArmInst::OrrRotImm,
        Opcode::Mov => ArmInst::MovRotImm,
        Opcode::Bic => ArmInst::BicRotImm,
        Opcode::Mvn => ArmInst::MvnRotImm,
        Opcode::Undefined => ArmInst::Undefined,
    }
}

/// The ARM decision tree: the kind encoded by a 32-bit word.
///
/// Group 000 is overloaded by four families; the tests are made in priority
/// order (multiply, then load/store misc., then control, then
/// data-processing), and that order must not change: the masks are not
/// mutually exclusive.
pub open spec fn spec_decode_arm(x: u32) -> ArmInst {
    let g = get_group(x);
    if g == 0b000 {
        if is_valid_multiply_instr(x) {
            spec_decode_mul(x)
        } else if is_valid_lsmisc_instr(x) {
            spec_decode_lsmisc(x)
        } else if is_valid_control_instr(x) {
            spec_decode_ctrl(x)
        } else if bit(x, 4) {
            spec_decode_dp_shift_reg(x)
        } else {
            spec_decode_dp_shift_imm(x)
        }
    } else if g == 0b001 {
        if is_valid_control_instr(x) {
            ArmInst::MsrImm
        } else {
            spec_decode_dp_rot_imm(x)
        }
    } else if g == 0b010 {
        if get_l(x) {
            if get_b(x) {
                ArmInst::LdrbImm
            } else {
                ArmInst::LdrImm
            }
        } else {
            if get_b(x) {
                ArmInst::StrbImm
            } else {
                ArmInst::StrImm
            }
        }
    } else if g == 0b011 {
        if bit(x, 4) {
            ArmInst::Undefined
        } else {
            if get_l(x) {
                if get_b(x) {
                    ArmInst::LdrbReg
                } else {
                    ArmInst::LdrReg
                }
            } else {
                if get_b(x) {
                    ArmInst::StrbReg
                } else {
                    ArmInst::StrReg
                }
            }
        }
    } else if g == 0b100 {
        if get_l(x) {
            if get_p(x) {
                if get_u(x) {
                    ArmInst::Ldmib
                } else {
                    ArmInst::Ldmdb
                }
            } else {
                if get_u(x) {
                    ArmInst::Ldmia
                } else {
                    ArmInst::Ldmda
                }
            }
        } else {
            if get_p(x) {
                if get_u(x) {
                    ArmInst::Stmib
                } else {
                    ArmInst::Stmdb
                }
            } else {
                if get_u(x) {
                    ArmInst::Stmia
                } else {
                    ArmInst::Stmda
                }
            }
        }
    } else if g == 0b101 {
        if get_cond(x) == 0b1111 {
            ArmInst::BlxImm
        } else if get_link(x) {
            ArmInst::Bl
        } else {
            ArmInst::B
        }
    } else if g == 0b110 {
        ArmInst::CoprocLs
    } else {
        if bit(x, 24) {
            if get_cond(x) != 0b1111 {
                ArmInst::Swi
            } else {
                ArmInst::Undefined
            }
        } else if bit(x, 4) {
            if bit(x, 20) {
                ArmInst::Mrc
            } else {
                ArmInst::Mcr
            }
        } else {
            ArmInst::CoprocDp
        }
    }
}

/// Decoding for various sub-groups of instructions.
impl ArmInst {
    /// Decode a control instruction.
    fn decode_ctrl(x: u32) -> (r: ArmInst)
        ensures
            r == spec_decode_ctrl(x),
    {
        match get_control_opcd(x) {
            0b0000 => {
                if bit(x, 21) {
                    ArmInst::MsrReg
                } else {
                    ArmInst::Mrs
                }
            },
            0b0001 => {
                if bit(x, 22) {
                    ArmInst::Clz
                } else {
                    ArmInst::Bx
                }
            },
            0b0011 => ArmInst::BlxReg,
            0b0101 => {
                match get_sat_addsub_op(x) {
                    0b00 => ArmInst::Qadd,
                    0b01 => ArmInst::Qsub,
                    0b10 => ArmInst::QdAdd,
                    _ => ArmInst::QdSub,
                }
            },
            0b0111 => ArmInst::Bkpt,
            0b1000 | 0b1010 | 0b1100 | 0b1110 => {
                match get_signed_mul_op(x) {
                    0b00 => ArmInst::SmlaXy,
                    0b01 => {
                        if bit(x, 5) {
                            ArmInst::SmulwY
                        } else {
                            ArmInst::SmlawY
                        }
                    },
                    0b10 => ArmInst::SmlalXy,
                    _ => ArmInst::SmulXy,
                }
            },
            _ => ArmInst::Undefined,
        }
    }

    /// Decode a load/store misc. instruction.
    fn decode_lsmisc(x: u32) -> (r: ArmInst)
        ensures
            r == spec_decode_lsmisc(x),
    {
        match get_decode_bits_lo(x) {
            0b1001 => {
                match get_b(x) {
                    false => ArmInst::Swp,
                    true => ArmInst::Swpb,
                }
            },
            0b1011 => {
                match (bit(x, 22), get_l(x)) {
                    (true, false) => ArmInst::StrhImm,
                    (true, true) => ArmInst::LdrhImm,
                    (false, false) => ArmInst::StrhReg,
                    (false, true) => ArmInst::LdrhReg,
                }
            },
            0b1101 | 0b1110 | 0b1111 => {
                match (bit(x, 20), bit(x, 22), bit(x, 5)) {
                    (true, false, false) => ArmInst::LdrsbReg,
                    (true, false, true) => ArmInst::LdrshReg,
                    (true, true, false) => ArmInst::LdrsbImm,
                    (true, true, true) => ArmInst::LdrshImm,
                    (false, false, false) => ArmInst::LdrdReg,
                    (false, false, true) => ArmInst::StrdReg,
                    (false, true, false) => ArmInst::LdrdImm,
                    (false, true, true) => ArmInst::StrdImm,
                }
            },
            _ => ArmInst::Undefined,
        }
    }

    /// Decode a multiply instruction.
    fn decode_mul(x: u32) -> (r: ArmInst)
        ensures
            r == spec_decode_mul(x),
    {
        match (bit(x, 23), bit(x, 22), bit(x, 21)) {
            (false, false, false) => ArmInst::Mul,
            (false, false, true) => ArmInst::Mla,
            (true, false, false) => ArmInst::Umull,
            (true, false, true) => ArmInst::Umlal,
            (true, true, false) => ArmInst::Smull,
            (true, true, true) => ArmInst::Smlal,
            _ => ArmInst::Undefined,
        }
    }

    /// Top-level decoder for ARM instructions.
    ///
    /// Given some 32-bit number, return the corresponding ARM instruction.
    pub fn decode(x: u32) -> (r: Self)
        ensures
            r == spec_decode_arm(x),
    {
        match get_group(x) {
            0b000 => {
                if is_valid_multiply_instr(x) {
                    return ArmInst::decode_mul(x);
                }
                if is_valid_lsmisc_instr(x) {
                    return ArmInst::decode_lsmisc(x);
                }
                if is_valid_control_instr(x) {
                    return ArmInst::decode_ctrl(x);
                }
                if bit(x, 4) {
                    return match Opcode::from_u32(get_opcd(x)) {
                        Opcode::And => ArmInst::AndShiftReg,
                        Opcode::Eor => ArmInst::EorShiftReg,
                        Opcode::Sub => ArmInst::SubShiftReg,
                        Opcode::Rsb => ArmInst::RsbShiftReg,
                        Opcode::Add => ArmInst::AddShiftReg,
                        Opcode::Adc => ArmInst::AdcShiftReg,
                        Opcode::Sbc => ArmInst::SbcShiftReg,
                        Opcode::Rsc => ArmInst::RscShiftReg,
                        Opcode::Tst => ArmInst::TstShiftReg,
                        Opcode::Teq => ArmInst::TeqShiftReg,
                        Opcode::Cmp => ArmInst::CmpShiftReg,
                        Opcode::Cmn => ArmInst::CmnShiftReg,
                        Opcode::Orr => ArmInst::OrrShiftReg,
                        Opcode::Mov => ArmInst::MovShiftReg,
                        Opcode::Bic => ArmInst::BicShiftReg,
                        Opcode::Mvn => ArmInst::MvnShiftReg,
                        Opcode::Undefined => ArmInst::Undefined,
                    };
                }
                match Opcode::from_u32(get_opcd(x)) {
                    Opcode::And => ArmInst::AndShiftImm,
                    Opcode::Eor => ArmInst::EorShiftImm,
                    Opcode::Sub => ArmInst::SubShiftImm,
                    Opcode::Rsb => ArmInst::RsbShiftImm,
                    Opcode::Add => ArmInst::AddShiftImm,
                    Opcode::Adc => ArmInst::AdcShiftImm,
                    Opcode::Sbc => ArmInst::SbcShiftImm,
                    Opcode::Rsc => ArmInst::RscShiftImm,
                    Opcode::Tst => ArmInst::TstShiftImm,
                    Opcode::Teq => ArmInst::TeqShiftImm,
                    Opcode::Cmp => ArmInst::CmpShiftImm,
                    Opcode::Cmn => ArmInst::CmnShiftImm,
                    Opcode::Orr => ArmInst::OrrShiftImm,
                    Opcode::Mov => ArmInst::MovShiftImm,
                    Opcode::Bic => ArmInst::BicShiftImm,
                    Opcode::Mvn => ArmInst::MvnShiftImm,
                    Opcode::Undefined => ArmInst::Undefined,
                }
            },
            0b001 => {
                if is_valid_control_instr(x) {
                    return ArmInst::MsrImm;
                }
                match Opcode::from_u32(get_opcd(x)) {
                    Opcode::And => ArmInst::AndRotImm,
                    Opcode::Eor => ArmInst::EorRotImm,
                    Opcode::Sub => ArmInst::SubRotImm,
                    Opcode::Rsb => ArmInst::RsbRotImm,
                    Opcode::Add => ArmInst::AddRotImm,
                    Opcode::Adc => ArmInst::AdcRotImm,
                    Opcode::Sbc => ArmInst::SbcRotImm,
                    Opcode::Rsc => ArmInst::RscRotImm,
                    Opcode::Tst => ArmInst::TstRotImm,
                    Opcode::Teq => ArmInst::TeqRotImm,
                    Opcode::Cmp => ArmInst::CmpRotImm,
                    Opcode::Cmn => ArmInst::CmnRotImm,
                    Opcode::Orr => ArmInst::OrrRotImm,
                    Opcode::Mov => ArmInst::MovRotImm,
                    Opcode::Bic => ArmInst::BicRotImm,
                    Opcode::Mvn => ArmInst::MvnRotImm,
                    Opcode::Undefined => ArmInst::Undefined,
                }
            },
            0b010 => {
                match (get_l(x), get_b(x)) {
                    (false, false) => ArmInst::StrImm,
                    (false, true) => ArmInst::StrbImm,
                    (true, false) => ArmInst::LdrImm,
                    (true, true) => ArmInst::LdrbImm,
                }
            },
            0b011 => {
                if bit(x, 4) {
                    return ArmInst::Undefined;
                }
                match (get_l(x), get_b(x)) {
                    (false, false) => ArmInst::StrReg,
                    (false, true) => ArmInst::StrbReg,
                    (true, false) => ArmInst::LdrReg,
                    (true, true) => ArmInst::LdrbReg,
                }
            },
            0b100 => {
                match (get_l(x), get_p(x), get_u(x)) {
                    (false, false, false) => ArmInst::Stmda,
                    (false, false, true) => ArmInst::Stmia,
                    (false, true, false) => ArmInst::Stmdb,
                    (false, true, true) => ArmInst::Stmib,
                    (true, false, false) => ArmInst::Ldmda,
                    (true, false, true) => ArmInst::Ldmia,
                    (true, true, false) => ArmInst::Ldmdb,
                    (true, true, true) => ArmInst::Ldmib,
                }
            },
            0b101 => {
                if get_cond(x) == 0b1111 {
                    return ArmInst::BlxImm;
                }
                match get_link(x) {
                    true => ArmInst::Bl,
                    false => ArmInst::B,
                }
            },
            0b110 => ArmInst::CoprocLs,
            _ => {
                if bit(x, 24) {
                    if get_cond(x) != 0b1111 {
                        return ArmInst::Swi;
                    }
                    return ArmInst::Undefined;
                }
                if bit(x, 4) {
                    if bit(x, 20) {
                        return ArmInst::Mrc;
                    } else {
                        return ArmInst::Mcr;
                    }
                }
                ArmInst::CoprocDp
            },
        }
    }
}


/// Disambiguation order of the overloaded group 000: every word that matches
/// the multiply mask also matches the load/store misc. mask, and the tree
/// tests multiply first, so such a word classifies through the multiply
/// sub-decoder, never through the load/store misc. one.  (A word matching the
/// multiply mask can match neither the control mask nor the data-processing
/// arm: the control mask pins bit 24 set, while the multiply mask pins it
/// clear.)
pub proof fn lemma_multiply_priority(x: u32)
    requires
        crate::bits::spec_is_multiply(x),
    ensures
        crate::bits::spec_is_lsmisc(x),
        !crate::bits::spec_is_control(x),
        spec_decode_arm(x) == spec_decode_mul(x),
{
    assert(crate::bits::spec_is_lsmisc(x) && !crate::bits::spec_is_control(x)
        && crate::bits::spec_group(x) == 0) by (bit_vector)
        requires
            crate::bits::spec_is_multiply(x),
    ;
}

/// Decoding an ARM word is deterministic: two results of decoding the same
/// word are structurally equal.
pub proof fn lemma_arm_decode_deterministic(x: u32, r1: ArmInst, r2: ArmInst)
    requires
        r1 == spec_decode_arm(x),
        r2 == spec_decode_arm(x),
    ensures
        r1 == r2,
{
}

/// Decoding a Thumb halfword is deterministic.
pub proof fn lemma_thumb_decode_deterministic(x: u16, r1: ThumbInst, r2: ThumbInst)
    requires
        r1 == spec_decode_thumb(x),
        r2 == spec_decode_thumb(x),
    ensures
        r1 == r2,
{
}

} // verus!
