//! Bit-level primitives for pulling fields out of ARM and Thumb words.
//!
//! Every extractor is a pure function of the word it is given.  Each one has a
//! spec-mode twin, so that contracts elsewhere in the crate can speak of the
//! same bit arithmetic that the executable code performs.

use vstd::prelude::*;

verus! {

/// Bits that determine the kind of an ARM instruction.
pub const DECODE_BITS_MASK: u32 = 0x0FF0_00F0;

/// Mask for multiply instructions.
pub const MULTIPLY_MASK: u32 = 0x0F00_00F0;

/// Match for multiply instructions.
pub const MULTIPLY_MATCH: u32 = 0x0000_0090;

/// Mask for control instructions.
pub const CONTROL_MASK: u32 = 0x0D90_0000;

/// Match for control instructions.
pub const CONTROL_MATCH: u32 = 0x0100_0000;

/// Mask for load/store miscellaneous instructions.
pub const LSMISC_MASK: u32 = 0x0E00_0090;

/// Match for load/store miscellaneous instructions.
pub const LSMISC_MATCH: u32 = 0x0000_0090;

/// Whether bit `b` of `x` is set.
pub open spec fn spec_bit(x: u32, b: u32) -> bool {
    x & (1u32 << b) != 0
}

/// Whether bit `b` of `x` is set.
#[verifier::when_used_as_spec(spec_bit)]
pub fn bit(x: u32, b: u32) -> (r: bool)
    requires
        b < 32,
    ensures
        r == spec_bit(x, b),
{
    x & (1u32 << b) != 0
}

/// Whether bit `b` of the halfword `x` is set.
pub open spec fn spec_bit16(x: u16, b: u16) -> bool {
    x & (1u16 << b) != 0
}

/// Whether bit `b` of the halfword `x` is set.
#[verifier::when_used_as_spec(spec_bit16)]
pub fn bit16(x: u16, b: u16) -> (r: bool)
    requires
        b < 16,
    ensures
        r == spec_bit16(x, b),
{
    x & (1u16 << b) != 0
}

/// A 32-bit word assembled from four bytes in big-endian order.
pub open spec fn word_be(b0: u8, b1: u8, b2: u8, b3: u8) -> u32 {
    ((b0 as u32) << 24) | ((b1 as u32) << 16) | ((b2 as u32) << 8) | (b3 as u32)
}

/// Condition code (bits 31-28).
pub open spec fn spec_cond(x: u32) -> u32 {
    (x & 0xF000_0000) >> 28
}

/// Instruction group (bits 27-25).
pub open spec fn spec_group(x: u32) -> u32 {
    (x & 0x0E00_0000) >> 25
}

/// High decode bits (bits 27-20).
pub open spec fn spec_decode_bits_hi(x: u32) -> u32 {
    (x & 0x0FF0_0000) >> 20
}

/// Low decode bits (bits 7-4).
pub open spec fn spec_decode_bits_lo(x: u32) -> u32 {
    (x & 0x0000_00F0) >> 4
}

/// Data-processing opcode (bits 24-21).
pub open spec fn spec_opcd(x: u32) -> u32 {
    (x & 0x01E0_0000) >> 21
}

/// S bit (bit 20).
pub open spec fn spec_s(x: u32) -> bool {
    x & 0x0010_0000 != 0
}

/// rN field (bits 19-16).
pub open spec fn spec_rn(x: u32) -> u32 {
    (x & 0x000F_0000) >> 16
}

/// rD field (bits 15-12).
pub open spec fn spec_rd(x: u32) -> u32 {
    (x & 0x0000_F000) >> 12
}

/// rS field (bits 11-8).
pub open spec fn spec_rs(x: u32) -> u32 {
    (x & 0x0000_0F00) >> 8
}

/// rM field (bits 3-0).
pub open spec fn spec_rm(x: u32) -> u32 {
    x & 0x0000_000F
}

/// imm4 field (bits 3-0).
pub open spec fn spec_imm4(x: u32) -> u32 {
    x & 0x0000_000F
}

/// imm8 field (bits 7-0).
pub open spec fn spec_imm8(x: u32) -> u32 {
    x & 0x0000_00FF
}

/// imm12 field (bits 11-0).
pub open spec fn spec_imm12(x: u32) -> u32 {
    x & 0x0000_0FFF
}

/// imm12_hi field (bits 19-8).
pub open spec fn spec_imm12_hi(x: u32) -> u32 {
    (x & 0x000F_FF00) >> 8
}

/// imm24 field (bits 23-0).
pub open spec fn spec_imm24(x: u32) -> u32 {
    x & 0x00FF_FFFF
}

/// High offset nibble of a load/store misc. word (bits 11-8).
pub open spec fn spec_off_hi(x: u32) -> u32 {
    (x & 0x0000_0F00) >> 8
}

/// Low offset nibble of a load/store misc. word (bits 3-0).
pub open spec fn spec_off_lo(x: u32) -> u32 {
    x & 0x0000_000F
}

/// Rotate immediate (bits 11-8).
pub open spec fn spec_rot_imm(x: u32) -> u32 {
    (x & 0x0000_0F00) >> 8
}

/// Shifter immediate (bits 11-7).
pub open spec fn spec_shift_imm(x: u32) -> u32 {
    (x & 0x0000_0F80) >> 7
}

/// Shift type (bits 6-5).
pub open spec fn spec_shift(x: u32) -> u32 {
    (x & 0x0000_0060) >> 5
}

/// P bit (bit 24).
pub open spec fn spec_p(x: u32) -> bool {
    x & 0x0100_0000 != 0
}

/// U bit (bit 23).
pub open spec fn spec_u(x: u32) -> bool {
    x & 0x0080_0000 != 0
}

/// B bit (bit 22).
pub open spec fn spec_b(x: u32) -> bool {
    x & 0x0040_0000 != 0
}

/// W bit (bit 21).
pub open spec fn spec_w(x: u32) -> bool {
    x & 0x0020_0000 != 0
}

/// L bit (bit 20).
pub open spec fn spec_l(x: u32) -> bool {
    x & 0x0010_0000 != 0
}

/// Coprocessor number (bits 11-8).
pub open spec fn spec_cp_num(x: u32) -> u32 {
    (x & 0x0000_0F00) >> 8
}

/// Coprocessor opcode 1 (bits 23-20).
pub open spec fn spec_cp_opcd1(x: u32) -> u32 {
    (x & 0x00F0_0000) >> 20
}

/// Coprocessor opcode 1 for register transfers (bits 23-21).
pub open spec fn spec_cp_opcd1_rt(x: u32) -> u32 {
    (x & 0x00E0_0000) >> 21
}

/// Coprocessor opcode 2 (bits 7-5).
pub open spec fn spec_cp_opcd2(x: u32) -> u32 {
    (x & 0x0000_00E0) >> 5
}

/// Control instruction opcode (bits 7-4).
pub open spec fn spec_control_opcd(x: u32) -> u32 {
    (x & 0x0000_00F0) >> 4
}

/// Load/store misc. sub-opcode (bits 6-5).
pub open spec fn spec_lsmisc_op1(x: u32) -> u32 {
    (x & 0x0000_0060) >> 5
}

/// Saturating add/subtract opcode (bits 22-21).
pub open spec fn spec_sat_addsub_op(x: u32) -> u32 {
    (x & 0x0060_0000) >> 21
}

/// Signed multiply opcode (bits 22-21).
pub open spec fn spec_signed_mul_op(x: u32) -> u32 {
    (x & 0x0060_0000) >> 21
}

/// x bit of a signed multiply (bit 5).
pub open spec fn spec_x(x: u32) -> bool {
    x & 0x0000_0020 != 0
}

/// y bit of a signed multiply (bit 6).
pub open spec fn spec_y(x: u32) -> bool {
    x & 0x0000_0040 != 0
}

/// Unsigned bit of a long multiply (bit 22).
pub open spec fn spec_un(x: u32) -> bool {
    x & 0x0040_0000 != 0
}

/// Accumulate bit of a multiply (bit 21).
pub open spec fn spec_a(x: u32) -> bool {
    x & 0x0020_0000 != 0
}

/// Register list of a load/store multiple (bits 15-0).
pub open spec fn spec_reglist(x: u32) -> u32 {
    x & 0x0000_FFFF
}

/// Whether the word matches the multiply mask.
pub open spec fn spec_is_multiply(x: u32) -> bool {
    x & MULTIPLY_MASK == MULTIPLY_MATCH
}

/// Whether the word matches the load/store misc. mask.
pub open spec fn spec_is_lsmisc(x: u32) -> bool {
    x & LSMISC_MASK == LSMISC_MATCH
}

/// Whether the word matches the control mask and is not a load/store form.
pub open spec fn spec_is_control(x: u32) -> bool {
    (x & CONTROL_MASK == CONTROL_MATCH) && !(!spec_bit(x, 25) && spec_bit(x, 7) && spec_bit(x, 4))
}

/// Bounds of every ARM field extractor, established once by bit blasting.
pub proof fn lemma_arm_field_bounds(x: u32)
    by (bit_vector)
    ensures
        spec_cond(x) < 16,
        spec_group(x) < 8,
        spec_decode_bits_hi(x) < 256,
        spec_decode_bits_lo(x) < 16,
        spec_opcd(x) < 16,
        spec_rn(x) < 16,
        spec_rd(x) < 16,
        spec_rs(x) < 16,
        spec_rm(x) < 16,
        spec_imm4(x) < 16,
        spec_imm8(x) < 256,
        spec_imm12(x) < 4096,
        spec_imm12_hi(x) < 4096,
        spec_imm24(x) < 0x0100_0000,
        spec_off_hi(x) < 16,
        spec_off_lo(x) < 16,
        spec_rot_imm(x) < 16,
        spec_shift_imm(x) < 32,
        spec_shift(x) < 4,
        spec_cp_num(x) < 16,
        spec_cp_opcd1(x) < 16,
        spec_cp_opcd1_rt(x) < 8,
        spec_cp_opcd2(x) < 8,
        spec_control_opcd(x) < 16,
        spec_lsmisc_op1(x) < 4,
        spec_sat_addsub_op(x) < 4,
        spec_signed_mul_op(x) < 4,
        spec_reglist(x) < 0x1_0000,
{
}

/// Condition code (bits 31-28).
#[verifier::when_used_as_spec(spec_cond)]
pub fn get_cond(x: u32) -> (r: u32)
    ensures
        r == spec_cond(x),
        r < 16,
{
    proof {
        lemma_arm_field_bounds(x);
    }
    (x & 0xF000_0000) >> 28
}

/// Instruction group (bits 27-25).
#[verifier::when_used_as_spec(spec_group)]
pub fn get_group(x: u32) -> (r: u32)
    ensures
        r == spec_group(x),
        r < 8,
{
    proof {
        lemma_arm_field_bounds(x);
    }
    (x & 0x0E00_0000) >> 25
}

/// High decode bits (bits 27-20).
#[verifier::when_used_as_spec(spec_decode_bits_hi)]
pub fn get_decode_bits_hi(x: u32) -> (r: u32)
    ensures
        r == spec_decode_bits_hi(x),
        r < 256,
{
    proof {
        lemma_arm_field_bounds(x);
    }
    (x & 0x0FF0_0000) >> 20
}

/// Low decode bits (bits 7-4).
#[verifier::when_used_as_spec(spec_decode_bits_lo)]
pub fn get_decode_bits_lo(x: u32) -> (r: u32)
    ensures
        r == spec_decode_bits_lo(x),
        r < 16,
{
    proof {
        lemma_arm_field_bounds(x);
    }
    (x & 0x0000_00F0) >> 4
}

/// Data-processing opcode (bits 24-21).
#[verifier::when_used_as_spec(spec_opcd)]
pub fn get_opcd(x: u32) -> (r: u32)
    ensures
        r == spec_opcd(x),
        r < 16,
{
    proof {
        lemma_arm_field_bounds(x);
    }
    (x & 0x01E0_0000) >> 21
}

/// S bit (bit 20).
#[verifier::when_used_as_spec(spec_s)]
pub fn get_s(x: u32) -> (r: bool)
    ensures
        r == spec_s(x),
{
    x & 0x0010_0000 != 0
}

/// rN field (bits 19-16).
#[verifier::when_used_as_spec(spec_rn)]
pub fn get_rn(x: u32) -> (r: u32)
    ensures
        r == spec_rn(x),
        r < 16,
{
    proof {
        lemma_arm_field_bounds(x);
    }
    (x & 0x000F_0000) >> 16
}

/// rD field (bits 15-12).
#[verifier::when_used_as_spec(spec_rd)]
pub fn get_rd(x: u32) -> (r: u32)
    ensures
        r == spec_rd(x),
        r < 16,
{
    proof {
        lemma_arm_field_bounds(x);
    }
    (x & 0x0000_F000) >> 12
}

/// rS field (bits 11-8).
#[verifier::when_used_as_spec(spec_rs)]
pub fn get_rs(x: u32) -> (r: u32)
    ensures
        r == spec_rs(x),
        r < 16,
{
    proof {
        lemma_arm_field_bounds(x);
    }
    (x & 0x0000_0F00) >> 8
}

/// rM field (bits 3-0).
#[verifier::when_used_as_spec(spec_rm)]
pub fn get_rm(x: u32) -> (r: u32)
    ensures
        r == spec_rm(x),
        r < 16,
{
    proof {
        lemma_arm_field_bounds(x);
    }
    x & 0x0000_000F
}

/// imm4 field (bits 3-0).
#[verifier::when_used_as_spec(spec_imm4)]
pub fn get_imm4(x: u32) -> (r: u32)
    ensures
        r == spec_imm4(x),
        r < 16,
{
    proof {
        lemma_arm_field_bounds(x);
    }
    x & 0x0000_000F
}

/// imm8 field (bits 7-0).
#[verifier::when_used_as_spec(spec_imm8)]
pub fn get_imm8(x: u32) -> (r: u32)
    ensures
        r == spec_imm8(x),
        r < 256,
{
    proof {
        lemma_arm_field_bounds(x);
    }
    x & 0x0000_00FF
}

/// imm12 field (bits 11-0).
#[verifier::when_used_as_spec(spec_imm12)]
pub fn get_imm12(x: u32) -> (r: u32)
    ensures
        r == spec_imm12(x),
        r < 4096,
{
    proof {
        lemma_arm_field_bounds(x);
    }
    x & 0x0000_0FFF
}

/// imm12_hi field (bits 19-8).
#[verifier::when_used_as_spec(spec_imm12_hi)]
pub fn get_imm12_hi(x: u32) -> (r: u32)
    ensures
        r == spec_imm12_hi(x),
        r < 4096,
{
    proof {
        lemma_arm_field_bounds(x);
    }
    (x & 0x000F_FF00) >> 8
}

/// imm24 field (bits 23-0).
#[verifier::when_used_as_spec(spec_imm24)]
pub fn get_imm24(x: u32) -> (r: u32)
    ensures
        r == spec_imm24(x),
        r < 0x0100_0000,
{
    proof {
        lemma_arm_field_bounds(x);
    }
    x & 0x00FF_FFFF
}

/// High offset nibble of a load/store misc. word (bits 11-8).
#[verifier::when_used_as_spec(spec_off_hi)]
pub fn get_off_hi(x: u32) -> (r: u32)
    ensures
        r == spec_off_hi(x),
        r < 16,
{
    proof {
        lemma_arm_field_bounds(x);
    }
    (x & 0x0000_0F00) >> 8
}

/// Low offset nibble of a load/store misc. word (bits 3-0).
#[verifier::when_used_as_spec(spec_off_lo)]
pub fn get_off_lo(x: u32) -> (r: u32)
    ensures
        r == spec_off_lo(x),
        r < 16,
{
    proof {
        lemma_arm_field_bounds(x);
    }
    x & 0x0000_000F
}

/// Rotate immediate (bits 11-8).
#[verifier::when_used_as_spec(spec_rot_imm)]
pub fn get_rot_imm(x: u32) -> (r: u32)
    ensures
        r == spec_rot_imm(x),
        r < 16,
{
    proof {
        lemma_arm_field_bounds(x);
    }
    (x & 0x0000_0F00) >> 8
}

/// Shifter immediate (bits 11-7).
#[verifier::when_used_as_spec(spec_shift_imm)]
pub fn get_shift_imm(x: u32) -> (r: u32)
    ensures
        r == spec_shift_imm(x),
        r < 32,
{
    proof {
        lemma_arm_field_bounds(x);
    }
    (x & 0x0000_0F80) >> 7
}

/// Shift type (bits 6-5).
#[verifier::when_used_as_spec(spec_shift)]
pub fn get_shift(x: u32) -> (r: u32)
    ensures
        r == spec_shift(x),
        r < 4,
{
    proof {
        lemma_arm_field_bounds(x);
    }
    (x & 0x0000_0060) >> 5
}

/// P bit (bit 24).
#[verifier::when_used_as_spec(spec_p)]
pub fn get_p(x: u32) -> (r: bool)
    ensures
        r == spec_p(x),
{
    x & 0x0100_0000 != 0
}

/// U bit (bit 23).
#[verifier::when_used_as_spec(spec_u)]
pub fn get_u(x: u32) -> (r: bool)
    ensures
        r == spec_u(x),
{
    x & 0x0080_0000 != 0
}

/// B bit (bit 22).
#[verifier::when_used_as_spec(spec_b)]
pub fn get_b(x: u32) -> (r: bool)
    ensures
        r == spec_b(x),
{
    x & 0x0040_0000 != 0
}

/// W bit (bit 21).
#[verifier::when_used_as_spec(spec_w)]
pub fn get_w(x: u32) -> (r: bool)
    ensures
        r == spec_w(x),
{
    x & 0x0020_0000 != 0
}

/// L bit (bit 20).
#[verifier::when_used_as_spec(spec_l)]
pub fn get_l(x: u32) -> (r: bool)
    ensures
        r == spec_l(x),
{
    x & 0x0010_0000 != 0
}

/// Coprocessor number (bits 11-8).
#[verifier::when_used_as_spec(spec_cp_num)]
pub fn get_cp_num(x: u32) -> (r: u32)
    ensures
        r == spec_cp_num(x),
        r < 16,
{
    proof {
        lemma_arm_field_bounds(x);
    }
    (x & 0x0000_0F00) >> 8
}

/// Coprocessor opcode 1 (bits 23-20).
#[verifier::when_used_as_spec(spec_cp_opcd1)]
pub fn get_cp_opcd1(x: u32) -> (r: u32)
    ensures
        r == spec_cp_opcd1(x),
        r < 16,
{
    proof {
        lemma_arm_field_bounds(x);
    }
    (x & 0x00F0_0000) >> 20
}

/// Coprocessor opcode 1 for register transfers (bits 23-21).
#[verifier::when_used_as_spec(spec_cp_opcd1_rt)]
pub fn get_cp_opcd1_rt(x: u32) -> (r: u32)
    ensures
        r == spec_cp_opcd1_rt(x),
        r < 8,
{
    proof {
        lemma_arm_field_bounds(x);
    }
    (x & 0x00E0_0000) >> 21
}

/// Coprocessor opcode 2 (bits 7-5).
#[verifier::when_used_as_spec(spec_cp_opcd2)]
pub fn get_cp_opcd2(x: u32) -> (r: u32)
    ensures
        r == spec_cp_opcd2(x),
        r < 8,
{
    proof {
        lemma_arm_field_bounds(x);
    }
    (x & 0x0000_00E0) >> 5
}

/// crN field (bits 19-16).
#[verifier::when_used_as_spec(spec_rn)]
pub fn get_crn(x: u32) -> (r: u32)
    ensures
        r == spec_rn(x),
        r < 16,
{
    get_rn(x)
}

/// crD field (bits 15-12).
#[verifier::when_used_as_spec(spec_rd)]
pub fn get_crd(x: u32) -> (r: u32)
    ensures
        r == spec_rd(x),
        r < 16,
{
    get_rd(x)
}

/// crM field (bits 3-0).
#[verifier::when_used_as_spec(spec_rm)]
pub fn get_crm(x: u32) -> (r: u32)
    ensures
        r == spec_rm(x),
        r < 16,
{
    get_rm(x)
}

/// N bit of a coprocessor load/store (bit 22).
#[verifier::when_used_as_spec(spec_b)]
pub fn get_n(x: u32) -> (r: bool)
    ensures
        r == spec_b(x),
{
    get_b(x)
}

/// Control instruction opcode (bits 7-4).
#[verifier::when_used_as_spec(spec_control_opcd)]
pub fn get_control_opcd(x: u32) -> (r: u32)
    ensures
        r == spec_control_opcd(x),
        r < 16,
{
    proof {
        lemma_arm_field_bounds(x);
    }
    (x & 0x0000_00F0) >> 4
}

/// Load/store misc. sub-opcode (bits 6-5).
#[verifier::when_used_as_spec(spec_lsmisc_op1)]
pub fn get_lsmisc_op1(x: u32) -> (r: u32)
    ensures
        r == spec_lsmisc_op1(x),
        r < 4,
{
    proof {
        lemma_arm_field_bounds(x);
    }
    (x & 0x0000_0060) >> 5
}

/// Saturating add/subtract opcode (bits 22-21).
#[verifier::when_used_as_spec(spec_sat_addsub_op)]
pub fn get_sat_addsub_op(x: u32) -> (r: u32)
    ensures
        r == spec_sat_addsub_op(x),
        r < 4,
{
    proof {
        lemma_arm_field_bounds(x);
    }
    (x & 0x0060_0000) >> 21
}

/// Signed multiply opcode (bits 22-21).
#[verifier::when_used_as_spec(spec_signed_mul_op)]
pub fn get_signed_mul_op(x: u32) -> (r: u32)
    ensures
        r == spec_signed_mul_op(x),
        r < 4,
{
    proof {
        lemma_arm_field_bounds(x);
    }
    (x & 0x0060_0000) >> 21
}

/// field_mask value of an msr instruction (bits 19-16).
#[verifier::when_used_as_spec(spec_rn)]
pub fn get_field_mask(x: u32) -> (r: u32)
    ensures
        r == spec_rn(x),
        r < 16,
{
    get_rn(x)
}

/// High destination register of a long multiply (bits 19-16).
#[verifier::when_used_as_spec(spec_rn)]
pub fn get_rd_hi(x: u32) -> (r: u32)
    ensures
        r == spec_rn(x),
        r < 16,
{
    get_rn(x)
}

/// Low destination register of a long multiply (bits 15-12).
#[verifier::when_used_as_spec(spec_rd)]
pub fn get_rd_lo(x: u32) -> (r: u32)
    ensures
        r == spec_rd(x),
        r < 16,
{
    get_rd(x)
}

/// x bit of a signed multiply (bit 5).
#[verifier::when_used_as_spec(spec_x)]
pub fn get_x(x: u32) -> (r: bool)
    ensures
        r == spec_x(x),
{
    x & 0x0000_0020 != 0
}

/// y bit of a signed multiply (bit 6).
#[verifier::when_used_as_spec(spec_y)]
pub fn get_y(x: u32) -> (r: bool)
    ensures
        r == spec_y(x),
{
    x & 0x0000_0040 != 0
}

/// Unsigned bit of a long multiply (bit 22).
#[verifier::when_used_as_spec(spec_un)]
pub fn get_un(x: u32) -> (r: bool)
    ensures
        r == spec_un(x),
{
    x & 0x0040_0000 != 0
}

/// Accumulate bit of a multiply (bit 21).
#[verifier::when_used_as_spec(spec_a)]
pub fn get_a(x: u32) -> (r: bool)
    ensures
        r == spec_a(x),
{
    x & 0x0020_0000 != 0
}

/// Link bit of a branch (bit 24).
#[verifier::when_used_as_spec(spec_p)]
pub fn get_link(x: u32) -> (r: bool)
    ensures
        r == spec_p(x),
{
    get_p(x)
}

/// S bit of a load/store multiple (bit 22).
#[verifier::when_used_as_spec(spec_b)]
pub fn get_s_multi(x: u32) -> (r: bool)
    ensures
        r == spec_b(x),
{
    get_b(x)
}

/// Register list of a load/store multiple (bits 15-0).
#[verifier::when_used_as_spec(spec_reglist)]
pub fn get_reglist(x: u32) -> (r: u32)
    ensures
        r == spec_reglist(x),
        r < 0x1_0000,
{
    proof {
        lemma_arm_field_bounds(x);
    }
    x & 0x0000_FFFF
}

/// Whether the word matches the multiply mask.
#[verifier::when_used_as_spec(spec_is_multiply)]
pub fn is_valid_multiply_instr(x: u32) -> (r: bool)
    ensures
        r == spec_is_multiply(x),
{
    x & MULTIPLY_MASK == MULTIPLY_MATCH
}

/// Whether the word matches the load/store misc. mask.
#[verifier::when_used_as_spec(spec_is_lsmisc)]
pub fn is_valid_lsmisc_instr(x: u32) -> (r: bool)
    ensures
        r == spec_is_lsmisc(x),
{
    x & LSMISC_MASK == LSMISC_MATCH
}

/// Whether the word matches the control mask and is not a load/store form.
#[verifier::when_used_as_spec(spec_is_control)]
pub fn is_valid_control_instr(x: u32) -> (r: bool)
    ensures
        r == spec_is_control(x),
{
    (x & CONTROL_MASK == CONTROL_MATCH) && !(!bit(x, 25) && bit(x, 7) && bit(x, 4))
}

/// Bounds of the Thumb field extractors that callers rely on.
pub proof fn lemma_thumb_field_bounds(x: u16)
    by (bit_vector)
    ensures
        x & 0x00FF < 256,
        (x & 0x0F00) >> 8 < 16,
        (x & 0x0078) >> 3 < 16,
{
}

} // verus!
