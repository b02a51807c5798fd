//! Tests for the lookup tables over the discriminant bits.

use armdecode::inst::ArmInst;
use armdecode::inst::ThumbInst;
use armdecode::lut::arm_disc;
use armdecode::lut::arm_synth;
use armdecode::lut::make_arm_lut;
use armdecode::lut::make_thumb_lut;
use armdecode::lut::thumb_disc;
use armdecode::lut::thumb_synth;

#[test]
fn arm_table_matches_tree_on_canonical_words() {
    let lut = make_arm_lut(ArmInst::Undefined);
    assert_eq!(lut.data.len(), 0x1000);
    for i in 0..0x1000u32 {
        let w = arm_synth(i);
        assert_eq!(lut.data[i as usize], ArmInst::decode(w));
    }
}

#[test]
fn arm_table_matches_tree_on_live_words() {
    // Live words carry operand bits in the condition, register and immediate
    // fields; the table still agrees with the tree on every one of them.
    let lut = make_arm_lut(ArmInst::Undefined);
    for i in 0..0x1000u32 {
        let live = arm_synth(i) | 0xE000_0000 | 0x000F_F00F;
        assert_eq!(lut.data[arm_disc(live) as usize], ArmInst::decode(live));
        assert_eq!(lut.lookup(live), ArmInst::decode(live));
    }
}

#[test]
fn thumb_table_matches_tree_on_canonical_halfwords() {
    let lut = make_thumb_lut(ThumbInst::Undefined);
    assert_eq!(lut.data.len(), 0x800);
    for i in 0..0x800u16 {
        let w = thumb_synth(i);
        assert_eq!(lut.data[i as usize], ThumbInst::decode(w));
    }
}

#[test]
fn thumb_table_matches_tree_on_every_halfword() {
    let lut = make_thumb_lut(ThumbInst::Undefined);
    for x in 0..=0xFFFFu16 {
        assert_eq!(lut.data[thumb_disc(x) as usize], ThumbInst::decode(x));
        assert_eq!(lut.lookup(x), ThumbInst::decode(x));
    }
}

#[test]
fn arm_table_build_deterministic() {
    // The default entry never survives into the table, so tables built from
    // different defaults are identical too.
    let a = make_arm_lut(ArmInst::Undefined);
    let b = make_arm_lut(ArmInst::Undefined);
    let c = make_arm_lut(ArmInst::Mul);
    assert_eq!(a.data, b.data);
    assert_eq!(a.data, c.data);
}

#[test]
fn thumb_table_build_deterministic() {
    let a = make_thumb_lut(ThumbInst::Undefined);
    let b = make_thumb_lut(ThumbInst::Undefined);
    assert_eq!(a.data, b.data);
}

#[test]
fn discriminant_round_trip() {
    for i in 0..0x1000u32 {
        assert_eq!(arm_disc(arm_synth(i)), i);
    }
    for i in 0..0x800u16 {
        assert_eq!(thumb_disc(thumb_synth(i)), i);
    }
}

#[test]
fn golden_discriminants() {
    assert_eq!(arm_disc(0xE92D4010), 0x0921);
    assert_eq!(thumb_disc(0x4770), 0x23B);
}

/// A payload of the caller's own, built from the decoded kind.
#[derive(Clone, Copy, PartialEq, Eq, Debug)]
struct KindTag(u8);

impl armdecode::lut::ArmLutEntry for KindTag {
    fn spec_from_inst(inst: ArmInst) -> KindTag {
        KindTag::from_inst(inst)
    }

    fn from_inst(inst: ArmInst) -> KindTag {
        KindTag(match inst {
            ArmInst::Undefined => 0,
            ArmInst::B | ArmInst::Bl | ArmInst::BlxImm => 1,
            _ => 2,
        })
    }
}

#[test]
fn arm_table_with_custom_payload() {
    let lut = make_arm_lut(KindTag(0));
    assert_eq!(lut.data.len(), 0x1000);
    // b/bl live in group 101: indices 0xA00-0xBFF.
    assert_eq!(lut.data[0xA00], KindTag(1));
    // Media encodings (group 011 with bit 4 set) are undefined.
    assert_eq!(lut.data[0x601], KindTag(0));
    // Everything else tags as an ordinary instruction.
    assert_eq!(lut.data[0x000], KindTag(2));
}
