//! Reference-frame slots: the intra pseudo-reference, the seven real
//! slots, and the explicit absence marker.
#![allow(non_camel_case_types)]

use vstd::prelude::*;

verus! {

/// LAST_FRAME through ALTREF_FRAME correspond to slots 0-6.
#[derive(Copy, Clone, Debug, PartialEq, Eq, Structural)]
pub enum RefType {
    INTRA_FRAME,
    LAST_FRAME,
    LAST2_FRAME,
    LAST3_FRAME,
    GOLDEN_FRAME,
    BWDREF_FRAME,
    ALTREF2_FRAME,
    ALTREF_FRAME,
    NONE_FRAME,
}

impl RefType {
    /// Position of the variant in the declaration order.
    pub open spec fn spec_ordinal(self) -> int {
        match self {
            RefType::INTRA_FRAME => 0,
            RefType::LAST_FRAME => 1,
            RefType::LAST2_FRAME => 2,
            RefType::LAST3_FRAME => 3,
            RefType::GOLDEN_FRAME => 4,
            RefType::BWDREF_FRAME => 5,
            RefType::ALTREF2_FRAME => 6,
            RefType::ALTREF_FRAME => 7,
            RefType::NONE_FRAME => 8,
        }
    }

    /// Convert a real reference slot to its 0-6 list index; the intra
    /// pseudo-reference and the absence marker have none.
    pub fn to_index(self) -> (r: usize)
        requires
            self != RefType::NONE_FRAME,
            self != RefType::INTRA_FRAME,
        ensures
            r == self.spec_ordinal() - 1,
            r < 7,
    {
        match self {
            RefType::LAST_FRAME => 0,
            RefType::LAST2_FRAME => 1,
            RefType::LAST3_FRAME => 2,
            RefType::GOLDEN_FRAME => 3,
            RefType::BWDREF_FRAME => 4,
            RefType::ALTREF2_FRAME => 5,
            RefType::ALTREF_FRAME => 6,
            _ => {
                proof {
                    assert(false);
                }
                0
            },
        }
    }

    /// Whether the slot is a temporally-forward reference: the intra
    /// pseudo-reference and the first four real slots.
    pub fn is_fwd_ref(self) -> (r: bool)
        ensures
            r == (self.spec_ordinal() < 5),
    {
        match self {
            RefType::INTRA_FRAME | RefType::LAST_FRAME | RefType::LAST2_FRAME
            | RefType::LAST3_FRAME | RefType::GOLDEN_FRAME => true,
            _ => false,
        }
    }

    /// Whether the slot is a temporally-backward reference: the last
    /// three real slots and the absence marker.
    pub fn is_bwd_ref(self) -> (r: bool)
        ensures
            r == (self.spec_ordinal() >= 5),
    {
        match self {
            RefType::BWDREF_FRAME | RefType::ALTREF2_FRAME | RefType::ALTREF_FRAME
            | RefType::NONE_FRAME => true,
            _ => false,
        }
    }
}

} // verus!
