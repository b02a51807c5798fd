//! Concrete (not wrapper) types representing bitfield values.

#![allow(non_camel_case_types)]

use vstd::prelude::*;

verus! {

/// Condition codes.
#[derive(Debug, Clone, Copy, PartialEq, Eq, Structural)]
pub enum Cond {
    Eq,
    Ne,
    Cs,
    Cc,
    Mi,
    Pl,
    Vs,
    Vc,
    Hi,
    Ls,
    Ge,
    Lt,
    Gt,
    Le,
    Al,
    Un,
}

/// The condition code encoded by a 4-bit field.
pub open spec fn spec_cond_from_u32(x: u32) -> Cond {
    if x == 0b0000 {
        Cond::Eq
    } else if x == 0b0001 {
        Cond::Ne
    } else if x == 0b0010 {
        Cond::Cs
    } else if x == 0b0011 {
        Cond::Cc
    } else if x == 0b0100 {
        Cond::Mi
    } else if x == 0b0101 {
        Cond::Pl
    } else if x == 0b0110 {
        Cond::Vs
    } else if x == 0b0111 {
        Cond::Vc
    } else if x == 0b1000 {
        Cond::Hi
    } else if x == 0b1001 {
        Cond::Ls
    } else if x == 0b1010 {
        Cond::Ge
    } else if x == 0b1011 {
        Cond::Lt
    } else if x == 0b1100 {
        Cond::Gt
    } else if x == 0b1101 {
        Cond::Le
    } else if x == 0b1110 {
        Cond::Al
    } else {
        Cond::Un
    }
}

/// The suffix a condition code contributes to a mnemonic; `al` and the
/// unconditional encoding print nothing.
pub open spec fn spec_cond_name(c: Cond) -> Seq<char> {
    match c {
        Cond::Eq => "eq"@,
        Cond::Ne => "ne"@,
        Cond::Cs => "cs"@,
        Cond::Cc => "cc"@,
        Cond::Mi => "mi"@,
        Cond::Pl => "pl"@,
        Cond::Vs => "vs"@,
        Cond::Vc => "vc"@,
        Cond::Hi => "hi"@,
        Cond::Ls => "ls"@,
        Cond::Ge => "ge"@,
        Cond::Lt => "lt"@,
        Cond::Gt => "gt"@,
        Cond::Le => "le"@,
        Cond::Al => ""@,
        Cond::Un => ""@,
    }
}

impl Cond {
    /// Decode a 4-bit condition field.
    pub fn from_u32(x: u32) -> (r: Self)
        requires
            x < 16,
        ensures
            r == spec_cond_from_u32(x),
    {
        match x {
            0b0000 => Cond::Eq,
            0b0001 => Cond::Ne,
            0b0010 => Cond::Cs,
            0b0011 => Cond::Cc,
            0b0100 => Cond::Mi,
            0b0101 => Cond::Pl,
            0b0110 => Cond::Vs,
            0b0111 => Cond::Vc,
            0b1000 => Cond::Hi,
            0b1001 => Cond::Ls,
            0b1010 => Cond::Ge,
            0b1011 => Cond::Lt,
            0b1100 => Cond::Gt,
            0b1101 => Cond::Le,
            0b1110 => Cond::Al,
            _ => Cond::Un,
        }
    }

    /// The suffix this condition contributes to a mnemonic.
    pub fn name(&self) -> (r: &'static str)
        ensures
            r@ == spec_cond_name(*self),
    {
        match self {
            Cond::Eq => "eq",
            Cond::Ne => "ne",
            Cond::Cs => "cs",
            Cond::Cc => "cc",
            Cond::Mi => "mi",
            Cond::Pl => "pl",
            Cond::Vs => "vs",
            Cond::Vc => "vc",
            Cond::Hi => "hi",
            Cond::Ls => "ls",
            Cond::Ge => "ge",
            Cond::Lt => "lt",
            Cond::Gt => "gt",
            Cond::Le => "le",
            Cond::Al => "",
            Cond::Un => "",
        }
    }
}

/// Data-processing opcodes.
#[derive(Debug, Clone, Copy, PartialEq, Eq, Structural)]
pub enum Opcode {
    Undefined,
    And,
    Eor,
    Sub,
    Rsb,
    Add,
    Adc,
    Sbc,
    Rsc,
    Tst,
    Teq,
    Cmp,
    Cmn,
    Orr,
    Mov,
    Bic,
    Mvn,
}

/// The data-processing opcode encoded by a 4-bit field.
pub open spec fn spec_opcode_from_u32(x: u32) -> Opcode {
    if x == 0b0000 {
        Opcode::And
    } else if x == 0b0001 {
        Opcode::Eor
    } else if x == 0b0010 {
        Opcode::Sub
    } else if x == 0b0011 {
        Opcode::Rsb
    } else if x == 0b0100 {
        Opcode::Add
    } else if x == 0b0101 {
        Opcode::Adc
    } else if x == 0b0110 {
        Opcode::Sbc
    } else if x == 0b0111 {
        Opcode::Rsc
    } else if x == 0b1000 {
        Opcode::Tst
    } else if x == 0b1001 {
        Opcode::Teq
    } else if x == 0b1010 {
        Opcode::Cmp
    } else if x == 0b1011 {
        Opcode::Cmn
    } else if x == 0b1100 {
        Opcode::Orr
    } else if x == 0b1101 {
        Opcode::Mov
    } else if x == 0b1110 {
        Opcode::Bic
    } else {
        Opcode::Mvn
    }
}

/// The mnemonic of a data-processing opcode; the undefined opcode prints nothing.
pub open spec fn spec_opcode_name(o: Opcode) -> Seq<char> {
    match o {
        Opcode::And => "and"@,
        Opcode::Eor => "eor"@,
        Opcode::Sub => "sub"@,
        Opcode::Rsb => "rsb"@,
        Opcode::Add => "add"@,
        Opcode::Adc => "adc"@,
        Opcode::Sbc => "sbc"@,
        Opcode::Rsc => "rsc"@,
        Opcode::Tst => "tst"@,
        Opcode::Teq => "teq"@,
        Opcode::Cmp => "cmp"@,
        Opcode::Cmn => "cmn"@,
        Opcode::Orr => "orr"@,
        Opcode::Mov => "mov"@,
        Opcode::Bic => "bic"@,
        Opcode::Mvn => "mvn"@,
        Opcode::Undefined => ""@,
    }
}

impl Opcode {
    /// Decode a 4-bit data-processing opcode field.
    pub fn from_u32(x: u32) -> (r: Self)
        requires
            x < 16,
        ensures
            r == spec_opcode_from_u32(x),
    {
        match x {
            0b0000 => Opcode::And,
            0b0001 => Opcode::Eor,
            0b0010 => Opcode::Sub,
            0b0011 => Opcode::Rsb,
            0b0100 => Opcode::Add,
            0b0101 => Opcode::Adc,
            0b0110 => Opcode::Sbc,
            0b0111 => Opcode::Rsc,
            0b1000 => Opcode::Tst,
            0b1001 => Opcode::Teq,
            0b1010 => Opcode::Cmp,
            0b1011 => Opcode::Cmn,
            0b1100 => Opcode::Orr,
            0b1101 => Opcode::Mov,
            0b1110 => Opcode::Bic,
            _ => Opcode::Mvn,
        }
    }

    /// The mnemonic of this opcode.
    pub fn name(&self) -> (r: &'static str)
        ensures
            r@ == spec_opcode_name(*self),
    {
        match self {
            Opcode::And => "and",
            Opcode::Eor => "eor",
            Opcode::Sub => "sub",
            Opcode::Rsb => "rsb",
            Opcode::Add => "add",
            Opcode::Adc => "adc",
            Opcode::Sbc => "sbc",
            Opcode::Rsc => "rsc",
            Opcode::Tst => "tst",
            Opcode::Teq => "teq",
            Opcode::Cmp => "cmp",
            Opcode::Cmn => "cmn",
            Opcode::Orr => "orr",
            Opcode::Mov => "mov",
            Opcode::Bic => "bic",
            Opcode::Mvn => "mvn",
            Opcode::Undefined => "",
        }
    }
}

/// General-purpose registers.
#[derive(Debug, Clone, Copy, PartialEq, Eq, Structural)]
pub enum Register {
    r0,
    r1,
    r2,
    r3,
    r4,
    r5,
    r6,
    r7,
    r8,
    r9,
    r10,
    r11,
    ip,
    sp,
    lr,
    pc,
}

/// The register encoded by a 4-bit field.
pub open spec fn spec_register_from_u32(x: u32) -> Register {
    if x == 0 {
        Register::r0
    } else if x == 1 {
        Register::r1
    } else if x == 2 {
        Register::r2
    } else if x == 3 {
        Register::r3
    } else if x == 4 {
        Register::r4
    } else if x == 5 {
        Register::r5
    } else if x == 6 {
        Register::r6
    } else if x == 7 {
        Register::r7
    } else if x == 8 {
        Register::r8
    } else if x == 9 {
        Register::r9
    } else if x == 10 {
        Register::r10
    } else if x == 11 {
        Register::r11
    } else if x == 12 {
        Register::ip
    } else if x == 13 {
        Register::sp
    } else if x == 14 {
        Register::lr
    } else {
        Register::pc
    }
}

/// The printed name of a register.
pub open spec fn spec_register_name(r: Register) -> Seq<char> {
    match r {
        Register::r0 => "r0"@,
        Register::r1 => "r1"@,
        Register::r2 => "r2"@,
        Register::r3 => "r3"@,
        Register::r4 => "r4"@,
        Register::r5 => "r5"@,
        Register::r6 => "r6"@,
        Register::r7 => "r7"@,
        Register::r8 => "r8"@,
        Register::r9 => "r9"@,
        Register::r10 => "r10"@,
        Register::r11 => "r11"@,
        Register::ip => "ip"@,
        Register::sp => "sp"@,
        Register::lr => "lr"@,
        Register::pc => "pc"@,
    }
}

/// The printed name of the register encoded by a 4-bit field.
pub open spec fn spec_regname(x: u32) -> Seq<char> {
    spec_register_name(spec_register_from_u32(x))
}

impl Register {
    /// Decode a 4-bit register field.
    pub fn from_u32(x: u32) -> (r: Self)
        requires
            x < 16,
        ensures
            r == spec_register_from_u32(x),
    {
        match x {
            0 => Register::r0,
            1 => Register::r1,
            2 => Register::r2,
            3 => Register::r3,
            4 => Register::r4,
            5 => Register::r5,
            6 => Register::r6,
            7 => Register::r7,
            8 => Register::r8,
            9 => Register::r9,
            10 => Register::r10,
            11 => Register::r11,
            12 => Register::ip,
            13 => Register::sp,
            14 => Register::lr,
            _ => Register::pc,
        }
    }

    /// The printed name of this register.
    pub fn name(&self) -> (r: &'static str)
        ensures
            r@ == spec_register_name(*self),
    {
        match self {
            Register::r0 => "r0",
            Register::r1 => "r1",
            Register::r2 => "r2",
            Register::r3 => "r3",
            Register::r4 => "r4",
            Register::r5 => "r5",
            Register::r6 => "r6",
            Register::r7 => "r7",
            Register::r8 => "r8",
            Register::r9 => "r9",
            Register::r10 => "r10",
            Register::r11 => "r11",
            Register::ip => "ip",
            Register::sp => "sp",
            Register::lr => "lr",
            Register::pc => "pc",
        }
    }
}

/// The printed name of the register encoded by a 4-bit field.
pub fn regname(x: u32) -> (r: &'static str)
    requires
        x < 16,
    ensures
        r@ == spec_regname(x),
{
    Register::from_u32(x).name()
}

/// Shifter operations.
#[derive(Debug, Clone, Copy, PartialEq, Eq, Structural)]
pub enum ShifterType {
    Lsl,
    Lsr,
    Asr,
    Ror,
}

/// The shifter operation encoded by a 2-bit field.
pub open spec fn spec_shifter_from_u32(x: u32) -> ShifterType {
    if x == 0b00 {
        ShifterType::Lsl
    } else if x == 0b01 {
        ShifterType::Lsr
    } else if x == 0b10 {
        ShifterType::Asr
    } else {
        ShifterType::Ror
    }
}

/// The mnemonic of a shifter operation.
pub open spec fn spec_shifter_name(s: ShifterType) -> Seq<char> {
    match s {
        ShifterType::Lsl => "lsl"@,
        ShifterType::Lsr => "lsr"@,
        ShifterType::Asr => "asr"@,
        ShifterType::Ror => "ror"@,
    }
}

/// What a shifter operation computes: the shifted value together with the
/// carry-out, where a rotate amount of zero passes the value through.
pub open spec fn spec_shifter_compute(s: ShifterType, val: u32, rot: u32) -> (u32, Option<bool>) {
    if rot == 0 {
        (val, None)
    } else {
        match s {
            ShifterType::Lsl => ((val << rot), Some((1u32 << ((31 - rot) as u32)) & val != 0)),
            ShifterType::Lsr => ((val >> rot), Some((1u32 << ((rot - 1) as u32)) & val != 0)),
            ShifterType::Asr => ((((val as i32) >> rot) as u32), Some(
                (1u32 << ((rot - 1) as u32)) & val != 0,
            )),
            ShifterType::Ror => (((val >> rot) | (val << ((32 - rot) as u32))), Some(
                val & 0x8000_0000 != 0,
            )),
        }
    }
}

impl ShifterType {
    /// Decode a 2-bit shift-type field.
    pub fn from_u32(x: u32) -> (r: Self)
        requires
            x < 4,
        ensures
            r == spec_shifter_from_u32(x),
    {
        match x {
            0b00 => ShifterType::Lsl,
            0b01 => ShifterType::Lsr,
            0b10 => ShifterType::Asr,
            _ => ShifterType::Ror,
        }
    }

    /// The mnemonic of this shifter operation.
    pub fn name(&self) -> (r: &'static str)
        ensures
            r@ == spec_shifter_name(*self),
    {
        match self {
            ShifterType::Lsl => "lsl",
            ShifterType::Lsr => "lsr",
            ShifterType::Asr => "asr",
            ShifterType::Ror => "ror",
        }
    }

    /// Apply this shifter operation to a value.
    pub fn compute(&self, val: u32, rot: u32) -> (res: (u32, Option<bool>))
        requires
            rot < 32,
        ensures
            res == spec_shifter_compute(*self, val, rot),
    {
        if rot == 0 {
            return (val, None);
        }
        match self {
            ShifterType::Lsl => ((val << rot), Some((1u32 << (31 - rot)) & val != 0)),
            ShifterType::Lsr => ((val >> rot), Some((1u32 << (rot - 1)) & val != 0)),
            ShifterType::Asr => ((((val as i32) >> rot) as u32), Some(
                (1u32 << (rot - 1)) & val != 0,
            )),
            ShifterType::Ror => (((val >> rot) | (val << (32 - rot))), Some(
                val & 0x8000_0000 != 0,
            )),
        }
    }
}

/// Coprocessor numbers.
#[derive(Debug, Clone, Copy, PartialEq, Eq, Structural)]
pub enum CoprocNumber {
    p0,
    p1,
    p2,
    p3,
    p4,
    p5,
    p6,
    p7,
    p8,
    p9,
    p10,
    p11,
    p12,
    p13,
    p14,
    p15,
}

/// The coprocessor number encoded by a 4-bit field.
pub open spec fn spec_coproc_number_from_u32(x: u32) -> CoprocNumber {
    if x == 0 {
        CoprocNumber::p0
    } else if x == 1 {
        CoprocNumber::p1
    } else if x == 2 {
        CoprocNumber::p2
    } else if x == 3 {
        CoprocNumber::p3
    } else if x == 4 {
        CoprocNumber::p4
    } else if x == 5 {
        CoprocNumber::p5
    } else if x == 6 {
        CoprocNumber::p6
    } else if x == 7 {
        CoprocNumber::p7
    } else if x == 8 {
        CoprocNumber::p8
    } else if x == 9 {
        CoprocNumber::p9
    } else if x == 10 {
        CoprocNumber::p10
    } else if x == 11 {
        CoprocNumber::p11
    } else if x == 12 {
        CoprocNumber::p12
    } else if x == 13 {
        CoprocNumber::p13
    } else if x == 14 {
        CoprocNumber::p14
    } else {
        CoprocNumber::p15
    }
}

/// The printed name of a coprocessor number.
pub open spec fn spec_coproc_number_name(c: CoprocNumber) -> Seq<char> {
    match c {
        CoprocNumber::p0 => "p0"@,
        CoprocNumber::p1 => "p1"@,
        CoprocNumber::p2 => "p2"@,
        CoprocNumber::p3 => "p3"@,
        CoprocNumber::p4 => "p4"@,
        CoprocNumber::p5 => "p5"@,
        CoprocNumber::p6 => "p6"@,
        CoprocNumber::p7 => "p7"@,
        CoprocNumber::p8 => "p8"@,
        CoprocNumber::p9 => "p9"@,
        CoprocNumber::p10 => "p10"@,
        CoprocNumber::p11 => "p11"@,
        CoprocNumber::p12 => "p12"@,
        CoprocNumber::p13 => "p13"@,
        CoprocNumber::p14 => "p14"@,
        CoprocNumber::p15 => "p15"@,
    }
}

impl CoprocNumber {
    /// Decode a 4-bit coprocessor-number field.
    pub fn from_u32(x: u32) -> (r: Self)
        requires
            x < 16,
        ensures
            r == spec_coproc_number_from_u32(x),
    {
        match x {
            0 => CoprocNumber::p0,
            1 => CoprocNumber::p1,
            2 => CoprocNumber::p2,
            3 => CoprocNumber::p3,
            4 => CoprocNumber::p4,
            5 => CoprocNumber::p5,
            6 => CoprocNumber::p6,
            7 => CoprocNumber::p7,
            8 => CoprocNumber::p8,
            9 => CoprocNumber::p9,
            10 => CoprocNumber::p10,
            11 => CoprocNumber::p11,
            12 => CoprocNumber::p12,
            13 => CoprocNumber::p13,
            14 => CoprocNumber::p14,
            _ => CoprocNumber::p15,
        }
    }

    /// The printed name of this coprocessor number.
    pub fn name(&self) -> (r: &'static str)
        ensures
            r@ == spec_coproc_number_name(*self),
    {
        match self {
            CoprocNumber::p0 => "p0",
            CoprocNumber::p1 => "p1",
            CoprocNumber::p2 => "p2",
            CoprocNumber::p3 => "p3",
            CoprocNumber::p4 => "p4",
            CoprocNumber::p5 => "p5",
            CoprocNumber::p6 => "p6",
            CoprocNumber::p7 => "p7",
            CoprocNumber::p8 => "p8",
            CoprocNumber::p9 => "p9",
            CoprocNumber::p10 => "p10",
            CoprocNumber::p11 => "p11",
            CoprocNumber::p12 => "p12",
            CoprocNumber::p13 => "p13",
            CoprocNumber::p14 => "p14",
            CoprocNumber::p15 => "p15",
        }
    }
}

/// Coprocessor registers.
#[derive(Debug, Clone, Copy, PartialEq, Eq, Structural)]
pub enum CoprocRegister {
    cr0,
    cr1,
    cr2,
    cr3,
    cr4,
    cr5,
    cr6,
    cr7,
    cr8,
    cr9,
    cr10,
    cr11,
    cr12,
    cr13,
    cr14,
    cr15,
}

/// The coprocessor register encoded by a 4-bit field.
pub open spec fn spec_coproc_register_from_u32(x: u32) -> CoprocRegister {
    if x == 0 {
        CoprocRegister::cr0
    } else if x == 1 {
        CoprocRegister::cr1
    } else if x == 2 {
        CoprocRegister::cr2
    } else if x == 3 {
        CoprocRegister::cr3
    } else if x == 4 {
        CoprocRegister::cr4
    } else if x == 5 {
        CoprocRegister::cr5
    } else if x == 6 {
        CoprocRegister::cr6
    } else if x == 7 {
        CoprocRegister::cr7
    } else if x == 8 {
        CoprocRegister::cr8
    } else if x == 9 {
        CoprocRegister::cr9
    } else if x == 10 {
        CoprocRegister::cr10
    } else if x == 11 {
        CoprocRegister::cr11
    } else if x == 12 {
        CoprocRegister::cr12
    } else if x == 13 {
        CoprocRegister::cr13
    } else if x == 14 {
        CoprocRegister::cr14
    } else {
        CoprocRegister::cr15
    }
}

/// The printed name of a coprocessor register.
pub open spec fn spec_coproc_register_name(c: CoprocRegister) -> Seq<char> {
    match c {
        CoprocRegister::cr0 => "cr0"@,
        CoprocRegister::cr1 => "cr1"@,
        CoprocRegister::cr2 => "cr2"@,
        CoprocRegister::cr3 => "cr3"@,
        CoprocRegister::cr4 => "cr4"@,
        CoprocRegister::cr5 => "cr5"@,
        CoprocRegister::cr6 => "cr6"@,
        CoprocRegister::cr7 => "cr7"@,
        CoprocRegister::cr8 => "cr8"@,
        CoprocRegister::cr9 => "cr9"@,
        CoprocRegister::cr10 => "cr10"@,
        CoprocRegister::cr11 => "cr11"@,
        CoprocRegister::cr12 => "cr12"@,
        CoprocRegister::cr13 => "cr13"@,
        CoprocRegister::cr14 => "cr14"@,
        CoprocRegister::cr15 => "cr15"@,
    }
}

impl CoprocRegister {
    /// Decode a 4-bit coprocessor-register field.
    pub fn from_u32(x: u32) -> (r: Self)
        requires
            x < 16,
        ensures
            r == spec_coproc_register_from_u32(x),
    {
        match x {
            0 => CoprocRegister::cr0,
            1 => CoprocRegister::cr1,
            2 => CoprocRegister::cr2,
            3 => CoprocRegister::cr3,
            4 => CoprocRegister::cr4,
            5 => CoprocRegister::cr5,
            6 => CoprocRegister::cr6,
            7 => CoprocRegister::cr7,
            8 => CoprocRegister::cr8,
            9 => CoprocRegister::cr9,
            10 => CoprocRegister::cr10,
            11 => CoprocRegister::cr11,
            12 => CoprocRegister::cr12,
            13 => CoprocRegister::cr13,
            14 => CoprocRegister::cr14,
            _ => CoprocRegister::cr15,
        }
    }

    /// The printed name of this coprocessor register.
    pub fn name(&self) -> (r: &'static str)
        ensures
            r@ == spec_coproc_register_name(*self),
    {
        match self {
            CoprocRegister::cr0 => "cr0",
            CoprocRegister::cr1 => "cr1",
            CoprocRegister::cr2 => "cr2",
            CoprocRegister::cr3 => "cr3",
            CoprocRegister::cr4 => "cr4",
            CoprocRegister::cr5 => "cr5",
            CoprocRegister::cr6 => "cr6",
            CoprocRegister::cr7 => "cr7",
            CoprocRegister::cr8 => "cr8",
            CoprocRegister::cr9 => "cr9",
            CoprocRegister::cr10 => "cr10",
            CoprocRegister::cr11 => "cr11",
            CoprocRegister::cr12 => "cr12",
            CoprocRegister::cr13 => "cr13",
            CoprocRegister::cr14 => "cr14",
            CoprocRegister::cr15 => "cr15",
        }
    }
}

} // verus!
