//! Generic lookup tables over the discriminant bits of ARM and Thumb words.
//!
//! For ARM, only bits 27-20 and 7-4 of a word influence which leaf of the
//! decode tree is reached (the one exception is the condition field, which
//! tells `blx` from `b`/`bl` and `swi` from an undefined encoding).  A table
//! indexed by those 12 bits therefore gives constant-time dispatch.  Thumb uses
//! the top 11 bits of the halfword and a 2,048-entry table.

use vstd::prelude::*;

use crate::bits::spec_bit;
use crate::bits::spec_cond;
use crate::bits::spec_group;
use crate::inst::spec_decode_arm;
use crate::inst::spec_decode_thumb;
use crate::inst::ArmInst;
use crate::inst::ThumbInst;

verus! {

/// The ARM discriminant: bits 27-20 and 7-4 of a word, packed into 12 bits.
pub open spec fn spec_arm_disc(x: u32) -> u32 {
    ((x >> 16) & 0x0ff0) | ((x >> 4) & 0x000f)
}

/// The canonical word of an ARM discriminant index: the 12 index bits placed
/// at 27-20 and 7-4, every other bit zero.
pub open spec fn spec_arm_synth(i: u32) -> u32 {
    ((i & 0x0ff0) << 16) | ((i & 0x000f) << 4)
}

/// The Thumb discriminant: the top 11 bits of a halfword.
pub open spec fn spec_thumb_disc(x: u16) -> u16 {
    x >> 5
}

/// The canonical halfword of a Thumb discriminant index.
pub open spec fn spec_thumb_synth(i: u16) -> u16 {
    i << 5
}

/// The ARM discriminant fits the table; the canonical word reproduces it.
pub proof fn lemma_arm_disc_bounds(x: u32)
    by (bit_vector)
    ensures
        spec_arm_disc(x) < 0x1000,
        spec_arm_disc(spec_arm_synth(spec_arm_disc(x))) == spec_arm_disc(x),
{
}

/// The Thumb discriminant fits the table; the canonical halfword reproduces
/// it.
pub proof fn lemma_thumb_disc_bounds(x: u16)
    by (bit_vector)
    ensures
        spec_thumb_disc(x) < 0x0800,
        spec_thumb_disc(spec_thumb_synth(spec_thumb_disc(x))) == spec_thumb_disc(x),
{
}

/// The ARM discriminant of a live word.
#[verifier::when_used_as_spec(spec_arm_disc)]
pub fn arm_disc(x: u32) -> (i: u32)
    ensures
        i == spec_arm_disc(x),
        i < 0x1000,
{
    proof {
        lemma_arm_disc_bounds(x);
    }
    ((x >> 16) & 0x0ff0) | ((x >> 4) & 0x000f)
}

/// The canonical word of an ARM discriminant index.
#[verifier::when_used_as_spec(spec_arm_synth)]
pub fn arm_synth(i: u32) -> (x: u32)
    ensures
        x == spec_arm_synth(i),
{
    ((i & 0x0ff0) << 16) | ((i & 0x000f) << 4)
}

/// The Thumb discriminant of a live halfword.
#[verifier::when_used_as_spec(spec_thumb_disc)]
pub fn thumb_disc(x: u16) -> (i: u16)
    ensures
        i == spec_thumb_disc(x),
        i < 0x0800,
{
    proof {
        lemma_thumb_disc_bounds(x);
    }
    x >> 5
}

/// The canonical halfword of a Thumb discriminant index.
#[verifier::when_used_as_spec(spec_thumb_synth)]
pub fn thumb_synth(i: u16) -> (x: u16)
    ensures
        x == spec_thumb_synth(i),
{
    i << 5
}

/// Every field the ARM decode tree reads, other than the condition code, is
/// the same on a live word and on the canonical word of its discriminant.
proof fn lemma_arm_canon_fields(x: u32)
    by (bit_vector)
    ensures
        spec_cond(spec_arm_synth(spec_arm_disc(x))) == 0,
        spec_group(spec_arm_synth(spec_arm_disc(x))) == spec_group(x),
        crate::bits::spec_opcd(spec_arm_synth(spec_arm_disc(x))) == crate::bits::spec_opcd(x),
        spec_bit(spec_arm_synth(spec_arm_disc(x)), 4) == spec_bit(x, 4),
        spec_bit(spec_arm_synth(spec_arm_disc(x)), 5) == spec_bit(x, 5),
        spec_bit(spec_arm_synth(spec_arm_disc(x)), 7) == spec_bit(x, 7),
        spec_bit(spec_arm_synth(spec_arm_disc(x)), 20) == spec_bit(x, 20),
        spec_bit(spec_arm_synth(spec_arm_disc(x)), 21) == spec_bit(x, 21),
        spec_bit(spec_arm_synth(spec_arm_disc(x)), 22) == spec_bit(x, 22),
        spec_bit(spec_arm_synth(spec_arm_disc(x)), 23) == spec_bit(x, 23),
        spec_bit(spec_arm_synth(spec_arm_disc(x)), 24) == spec_bit(x, 24),
        spec_bit(spec_arm_synth(spec_arm_disc(x)), 25) == spec_bit(x, 25),
        crate::bits::spec_decode_bits_lo(spec_arm_synth(spec_arm_disc(x)))
            == crate::bits::spec_decode_bits_lo(x),
        crate::bits::spec_control_opcd(spec_arm_synth(spec_arm_disc(x)))
            == crate::bits::spec_control_opcd(x),
        crate::bits::spec_sat_addsub_op(spec_arm_synth(spec_arm_disc(x)))
            == crate::bits::spec_sat_addsub_op(x),
        crate::bits::spec_signed_mul_op(spec_arm_synth(spec_arm_disc(x)))
            == crate::bits::spec_signed_mul_op(x),
        crate::bits::spec_s(spec_arm_synth(spec_arm_disc(x))) == crate::bits::spec_s(x),
        crate::bits::spec_l(spec_arm_synth(spec_arm_disc(x))) == crate::bits::spec_l(x),
        crate::bits::spec_b(spec_arm_synth(spec_arm_disc(x))) == crate::bits::spec_b(x),
        crate::bits::spec_w(spec_arm_synth(spec_arm_disc(x))) == crate::bits::spec_w(x),
        crate::bits::spec_p(spec_arm_synth(spec_arm_disc(x))) == crate::bits::spec_p(x),
        crate::bits::spec_u(spec_arm_synth(spec_arm_disc(x))) == crate::bits::spec_u(x),
        crate::bits::spec_is_multiply(spec_arm_synth(spec_arm_disc(x)))
            == crate::bits::spec_is_multiply(x),
        crate::bits::spec_is_lsmisc(spec_arm_synth(spec_arm_disc(x)))
            == crate::bits::spec_is_lsmisc(x),
        crate::bits::spec_is_control(spec_arm_synth(spec_arm_disc(x)))
            == crate::bits::spec_is_control(x),
{
}

/// Every field the Thumb decode tree reads is the same on a live halfword and
/// on the canonical halfword of its discriminant: the tree never reads below
/// bit 5.
proof fn lemma_thumb_canon_fields(x: u16)
    by (bit_vector)
    ensures
        ((spec_thumb_synth(spec_thumb_disc(x)) & 0xE000) >> 13) == ((x & 0xE000) >> 13),
        ((spec_thumb_synth(spec_thumb_disc(x)) & 0x1800) >> 11) == ((x & 0x1800) >> 11),
        ((spec_thumb_synth(spec_thumb_disc(x)) & 0x1C00) >> 10) == ((x & 0x1C00) >> 10),
        ((spec_thumb_synth(spec_thumb_disc(x)) & 0x0F00) >> 8) == ((x & 0x0F00) >> 8),
        ((spec_thumb_synth(spec_thumb_disc(x)) & 0x0E00) >> 9) == ((x & 0x0E00) >> 9),
        ((spec_thumb_synth(spec_thumb_disc(x)) & 0x0600) >> 9) == ((x & 0x0600) >> 9),
        ((spec_thumb_synth(spec_thumb_disc(x)) & 0x0300) >> 8) == ((x & 0x0300) >> 8),
        ((spec_thumb_synth(spec_thumb_disc(x)) & 0x03C0) >> 6) == ((x & 0x03C0) >> 6),
        crate::bits::spec_bit16(spec_thumb_synth(spec_thumb_disc(x)), 7)
            == crate::bits::spec_bit16(x, 7),
{
}

/// Table/tree agreement for ARM: a live word decodes to the same kind as the
/// canonical word of its discriminant, so a lookup at the discriminant index
/// agrees with running the tree on the live word.
///
/// The condition field is the one piece of state the tree reads outside the
/// discriminant bits, and only for branches (group 101) and for swi (group
/// 111 with bit 24 set): those encodings with cond = 1111 are excluded, and
/// on every other word the agreement holds.
#[verifier::rlimit(100)]
pub proof fn lemma_arm_table_tree_agreement(x: u32)
    requires
        !(spec_cond(x) == 0b1111 && (spec_group(x) == 0b101 || (spec_group(x) == 0b111 && spec_bit(
            x,
            24,
        )))),
    ensures
        spec_decode_arm(spec_arm_synth(spec_arm_disc(x))) == spec_decode_arm(x),
{
    lemma_arm_canon_fields(x);
    let c = spec_arm_synth(spec_arm_disc(x));
    assert(crate::inst::spec_decode_mul(c) == crate::inst::spec_decode_mul(x));
    assert(crate::inst::spec_decode_lsmisc(c) == crate::inst::spec_decode_lsmisc(x));
    assert(crate::inst::spec_decode_ctrl(c) == crate::inst::spec_decode_ctrl(x));
    assert(crate::inst::spec_decode_dp_shift_reg(c) == crate::inst::spec_decode_dp_shift_reg(x));
    assert(crate::inst::spec_decode_dp_shift_imm(c) == crate::inst::spec_decode_dp_shift_imm(x));
    assert(crate::inst::spec_decode_dp_rot_imm(c) == crate::inst::spec_decode_dp_rot_imm(x));
    assert(spec_group(x) == 0 ==> spec_decode_arm(c) == spec_decode_arm(x));
    assert(spec_group(x) == 1 ==> spec_decode_arm(c) == spec_decode_arm(x));
    assert(spec_group(x) == 2 ==> spec_decode_arm(c) == spec_decode_arm(x));
    assert(spec_group(x) == 3 ==> spec_decode_arm(c) == spec_decode_arm(x));
    assert(spec_group(x) == 4 ==> spec_decode_arm(c) == spec_decode_arm(x));
    assert(spec_group(x) == 5 ==> spec_decode_arm(c) == spec_decode_arm(x));
    assert(spec_group(x) == 6 ==> spec_decode_arm(c) == spec_decode_arm(x));
    assert(spec_group(x) == 7 ==> spec_decode_arm(c) == spec_decode_arm(x));
    crate::bits::lemma_arm_field_bounds(x);
}

/// Table/tree agreement for Thumb: the tree reads nothing below bit 5, so a
/// live halfword decodes to the same kind as the canonical halfword of its
/// discriminant, with no exclusions.
pub proof fn lemma_thumb_table_tree_agreement(x: u16)
    ensures
        spec_decode_thumb(spec_thumb_synth(spec_thumb_disc(x))) == spec_decode_thumb(x),
{
    lemma_thumb_canon_fields(x);
}

/// Implemented on all types store-able by some ArmLut.
pub trait ArmLutEntry: Sized {
    /// The entry that stands for an instruction kind.
    spec fn spec_from_inst(inst: ArmInst) -> Self;

    /// A map from ArmInst to some ArmLutEntry.
    fn from_inst(inst: ArmInst) -> (r: Self)
        ensures
            r == Self::spec_from_inst(inst),
    ;
}

/// Implemented on all types store-able by some ThumbLut.
pub trait ThumbLutEntry: Sized {
    /// The entry that stands for an instruction kind.
    spec fn spec_from_inst(inst: ThumbInst) -> Self;

    /// A map from ThumbInst to some ThumbLutEntry.
    fn from_inst(inst: ThumbInst) -> (r: Self)
        ensures
            r == Self::spec_from_inst(inst),
    ;
}

impl ArmLutEntry for ArmInst {
    open spec fn spec_from_inst(inst: ArmInst) -> ArmInst {
        inst
    }

    fn from_inst(inst: ArmInst) -> ArmInst {
        inst
    }
}

impl ThumbLutEntry for ThumbInst {
    open spec fn spec_from_inst(inst: ThumbInst) -> ThumbInst {
        inst
    }

    fn from_inst(inst: ThumbInst) -> ThumbInst {
        inst
    }
}

/// What a fully built ARM table holds: at every index, the entry derived from
/// the kind of that index's canonical word.
pub open spec fn arm_lut_built<T: ArmLutEntry>(data: Seq<T>) -> bool {
    &&& data.len() == 0x1000
    &&& forall|i: int|
        0 <= i < 0x1000 ==> data[i] == T::spec_from_inst(spec_decode_arm(spec_arm_synth(i as u32)))
}

/// What a fully built Thumb table holds.
pub open spec fn thumb_lut_built<T: ThumbLutEntry>(data: Seq<T>) -> bool {
    &&& data.len() == 0x0800
    &&& forall|i: int|
        0 <= i < 0x0800 ==> data[i] == T::spec_from_inst(
            spec_decode_thumb(spec_thumb_synth(i as u16)),
        )
}

/// An ARMv5 lookup table: 4,096 entries indexed by the ARM discriminant.
pub struct ArmLut<T: ArmLutEntry> {
    pub data: Vec<T>,
}

/// A Thumb lookup table: 2,048 entries indexed by the Thumb discriminant.
pub struct ThumbLut<T: ThumbLutEntry> {
    pub data: Vec<T>,
}

/// Creates a new ArmLut for some T.
///
/// The details of how to obtain an entry T are left to the user; every slot of
/// the table is filled from the decode tree, so the default entry never
/// survives into the result.
#[allow(unused_variables)]
pub fn make_arm_lut<T: ArmLutEntry + Copy>(default_entry: T) -> (lut: ArmLut<T>)
    ensures
        arm_lut_built(lut.data@),
{
    let mut data: Vec<T> = Vec::new();
    let mut i: u32 = 0;
    while i < 0x1000
        invariant
            i <= 0x1000,
            data@.len() == i,
            forall|j: int|
                0 <= j < i ==> data@[j] == T::spec_from_inst(
                    spec_decode_arm(spec_arm_synth(j as u32)),
                ),
        decreases 0x1000 - i,
    {
        let inst: u32 = ((i & 0x0ff0) << 16) | ((i & 0x000f) << 4);
        data.push(T::from_inst(ArmInst::decode(inst)));
        i += 1;
    }
    ArmLut { data }
}

/// Create a new ThumbLut for some T.
#[allow(unused_variables)]
pub fn make_thumb_lut<T: ThumbLutEntry + Copy>(default_entry: T) -> (lut: ThumbLut<T>)
    ensures
        thumb_lut_built(lut.data@),
{
    let mut data: Vec<T> = Vec::new();
    let mut i: u16 = 0;
    while i < 0x0800
        invariant
            i <= 0x0800,
            data@.len() == i,
            forall|j: int|
                0 <= j < i ==> data@[j] == T::spec_from_inst(
                    spec_decode_thumb(spec_thumb_synth(j as u16)),
                ),
        decreases 0x0800 - i,
    {
        let inst: u16 = i << 5;
        data.push(T::from_inst(ThumbInst::decode(inst)));
        i += 1;
    }
    ThumbLut { data }
}

impl<T: ArmLutEntry + Copy> ArmLut<T> {
    /// Look a live word up by its discriminant.  The entry is the one the
    /// decode tree would give for the canonical word of that discriminant,
    /// which agrees with running the tree on the live word itself whenever
    /// the word is not one of the condition-dependent encodings; a caller
    /// that needs field values must re-wrap the live word itself.
    pub fn lookup(&self, x: u32) -> (r: T)
        requires
            arm_lut_built(self.data@),
        ensures
            r == T::spec_from_inst(spec_decode_arm(spec_arm_synth(spec_arm_disc(x)))),
            !(spec_cond(x) == 0b1111 && (spec_group(x) == 0b101 || (spec_group(x) == 0b111
                && spec_bit(x, 24)))) ==> r == T::spec_from_inst(spec_decode_arm(x)),
    {
        proof {
            if !(spec_cond(x) == 0b1111 && (spec_group(x) == 0b101 || (spec_group(x) == 0b111
                && spec_bit(x, 24)))) {
                lemma_arm_table_tree_agreement(x);
            }
        }
        let i = arm_disc(x);
        self.data[i as usize]
    }
}

impl<T: ThumbLutEntry + Copy> ThumbLut<T> {
    /// Look a live halfword up by its discriminant.  The entry agrees with
    /// running the decode tree on the live halfword itself.
    pub fn lookup(&self, x: u16) -> (r: T)
        requires
            thumb_lut_built(self.data@),
        ensures
            r == T::spec_from_inst(spec_decode_thumb(x)),
    {
        proof {
            lemma_thumb_table_tree_agreement(x);
        }
        let i = thumb_disc(x);
        self.data[i as usize]
    }
}

/// Two ARM tables built from the same entry type hold identical contents:
/// building is deterministic.
pub proof fn lemma_arm_lut_deterministic<T: ArmLutEntry>(t1: ArmLut<T>, t2: ArmLut<T>)
    requires
        arm_lut_built(t1.data@),
        arm_lut_built(t2.data@),
    ensures
        t1.data@ == t2.data@,
{
    assert(t1.data@ =~= t2.data@);
}

/// Two Thumb tables built from the same entry type hold identical contents.
pub proof fn lemma_thumb_lut_deterministic<T: ThumbLutEntry>(t1: ThumbLut<T>, t2: ThumbLut<T>)
    requires
        thumb_lut_built(t1.data@),
        thumb_lut_built(t2.data@),
    ensures
        t1.data@ == t2.data@,
{
    assert(t1.data@ =~= t2.data@);
}

} // verus!
