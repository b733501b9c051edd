//! Reference-frame taxonomy, motion-vector enumerations, and the
//! neighbour-availability predicates that decide whether the top-right or
//! bottom-left pixels of a block were reconstructed before it under the
//! recursive superblock decode order.
#![allow(non_camel_case_types)]

use vstd::prelude::*;

verus! {

use crate::block_size::BlockSize;
use crate::block_size::BlockSize::{
    BLOCK_4X4, BLOCK_4X8, BLOCK_8X4, BLOCK_8X8, BLOCK_8X16, BLOCK_16X8, BLOCK_16X4, BLOCK_4X16,
};
use crate::block_unit::TileBlockOffset;
use crate::partition_type::PartitionType;
use crate::ref_type::RefType;

/// The reference-pair slots of compound prediction.
pub const LAST_LAST2_FRAMES: usize = 0;

pub const LAST_LAST3_FRAMES: usize = 1;

pub const LAST_GOLDEN_FRAMES: usize = 2;

pub const BWDREF_ALTREF_FRAMES: usize = 3;

pub const LAST2_LAST3_FRAMES: usize = 4;

pub const LAST2_GOLDEN_FRAMES: usize = 5;

pub const LAST3_GOLDEN_FRAMES: usize = 6;

pub const BWDREF_ALTREF2_FRAMES: usize = 7;

pub const ALTREF2_ALTREF_FRAMES: usize = 8;

pub const TOTAL_UNIDIR_COMP_REFS: usize = 9;

/// Number of uni-directional reference pairs that are explicitly
/// signalled.
pub const UNIDIR_COMP_REFS: usize = BWDREF_ALTREF_FRAMES + 1;

pub const FWD_REFS: usize = 4;

pub const BWD_REFS: usize = 3;

pub const SINGLE_REFS: usize = 7;

pub const TOTAL_REFS_PER_FRAME: usize = 8;

pub const INTER_REFS_PER_FRAME: usize = 7;

pub const TOTAL_COMP_REFS: usize = FWD_REFS * BWD_REFS + TOTAL_UNIDIR_COMP_REFS;

pub const REF_FRAMES_LOG2: usize = 3;

pub const REF_FRAMES: usize = 1 << REF_FRAMES_LOG2;

pub const REF_CONTEXTS: usize = 3;

pub const MVREF_ROW_COLS: usize = 3;

pub const NEWMV_MODE_CONTEXTS: usize = 7;

pub const GLOBALMV_MODE_CONTEXTS: usize = 2;

pub const REFMV_MODE_CONTEXTS: usize = 6;

pub const INTER_COMPOUND_MODES: usize = 8;

pub const REFMV_OFFSET: usize = 4;

pub const GLOBALMV_OFFSET: usize = 3;

pub const NEWMV_CTX_MASK: usize = 7;

pub const GLOBALMV_CTX_MASK: usize = 1;

pub const REFMV_CTX_MASK: usize = 15;

/// The seven real reference slots, in index order.
pub const ALL_INTER_REFS: [RefType; 7] = [
    RefType::LAST_FRAME,
    RefType::LAST2_FRAME,
    RefType::LAST3_FRAME,
    RefType::GOLDEN_FRAME,
    RefType::BWDREF_FRAME,
    RefType::ALTREF2_FRAME,
    RefType::ALTREF_FRAME,
];

/// The split patterns the encoder actually searches.
pub const RAV1E_PARTITION_TYPES: [PartitionType; 4] = [
    PartitionType::PARTITION_NONE,
    PartitionType::PARTITION_HORZ,
    PartitionType::PARTITION_VERT,
    PartitionType::PARTITION_SPLIT,
];

#[derive(Copy, Clone, Debug, PartialEq, Eq, Structural)]
pub enum GlobalMVMode {
    /// Identity transformation, 0 parameters.
    IDENTITY,
    /// Translational motion, 2 parameters.
    TRANSLATION,
    /// Simplified affine with rotation and zoom only, 4 parameters.
    ROTZOOM,
    /// Affine, 6 parameters.
    AFFINE,
}

#[derive(Copy, Clone, Debug, PartialEq, Eq, Structural)]
pub enum MvSubpelPrecision {
    MV_SUBPEL_NONE,
    MV_SUBPEL_LOW_PRECISION,
    MV_SUBPEL_HIGH_PRECISION,
}

/// Symbols for coding which motion-vector components are zero jointly.
pub const MV_JOINTS: usize = 4;

#[derive(Copy, Clone, Debug, PartialEq, Eq, Structural)]
pub enum MvJointType {
    /// Zero vector.
    MV_JOINT_ZERO,
    /// Vertical zero, horizontal nonzero.
    MV_JOINT_HNZVZ,
    /// Horizontal zero, vertical nonzero.
    MV_JOINT_HZVNZ,
    /// Both components nonzero.
    MV_JOINT_HNZVNZ,
}

/// The luma shape whose chroma, under the given subsampling factors,
/// would cover this block once sub-8x8 chroma merging is undone; shapes
/// not subject to that merging pass through unchanged.
pub open spec fn spec_supersample_chroma_bsize(bsize: BlockSize, ss_x: usize, ss_y: usize) -> BlockSize {
    match bsize {
        BLOCK_4X4 => if ss_x == 1 && ss_y == 1 {
            BLOCK_8X8
        } else if ss_x == 1 && ss_y == 0 {
            BLOCK_8X4
        } else if ss_x == 0 && ss_y == 1 {
            BLOCK_4X8
        } else {
            bsize
        },
        BLOCK_4X8 => if ss_x == 1 && ss_y == 1 {
            BLOCK_8X8
        } else if ss_x == 1 && ss_y == 0 {
            BLOCK_8X8
        } else if ss_x == 0 && ss_y == 1 {
            BLOCK_4X8
        } else {
            bsize
        },
        BLOCK_8X4 => if ss_x == 1 && ss_y == 1 {
            BLOCK_8X8
        } else if ss_x == 1 && ss_y == 0 {
            BLOCK_8X4
        } else if ss_x == 0 && ss_y == 1 {
            BLOCK_8X8
        } else {
            bsize
        },
        BLOCK_4X16 => if ss_x == 1 && ss_y == 1 {
            BLOCK_8X16
        } else if ss_x == 1 && ss_y == 0 {
            BLOCK_8X16
        } else if ss_x == 0 && ss_y == 1 {
            BLOCK_4X16
        } else {
            bsize
        },
        BLOCK_16X4 => if ss_x == 1 && ss_y == 1 {
            BLOCK_16X8
        } else if ss_x == 1 && ss_y == 0 {
            BLOCK_16X4
        } else if ss_x == 0 && ss_y == 1 {
            BLOCK_16X8
        } else {
            bsize
        },
        _ => bsize,
    }
}

/// See [`spec_supersample_chroma_bsize`].
pub fn supersample_chroma_bsize(bsize: BlockSize, ss_x: usize, ss_y: usize) -> (r: BlockSize)
    requires
        ss_x < 2,
        ss_y < 2,
    ensures
        r == spec_supersample_chroma_bsize(bsize, ss_x, ss_y),
{
    match bsize {
        BLOCK_4X4 => match (ss_x, ss_y) {
            (1, 1) => BLOCK_8X8,
            (1, 0) => BLOCK_8X4,
            (0, 1) => BLOCK_4X8,
            _ => bsize,
        },
        BLOCK_4X8 => match (ss_x, ss_y) {
            (1, 1) => BLOCK_8X8,
            (1, 0) => BLOCK_8X8,
            (0, 1) => BLOCK_4X8,
            _ => bsize,
        },
        BLOCK_8X4 => match (ss_x, ss_y) {
            (1, 1) => BLOCK_8X8,
            (1, 0) => BLOCK_8X4,
            (0, 1) => BLOCK_8X8,
            _ => bsize,
        },
        BLOCK_4X16 => match (ss_x, ss_y) {
            (1, 1) => BLOCK_8X16,
            (1, 0) => BLOCK_8X16,
            (0, 1) => BLOCK_4X16,
            _ => bsize,
        },
        BLOCK_16X4 => match (ss_x, ss_y) {
            (1, 1) => BLOCK_16X8,
            (1, 0) => BLOCK_16X4,
            (0, 1) => BLOCK_16X8,
            _ => bsize,
        },
        _ => bsize,
    }
}

/// Decreasing measure for the doubling mask walks below.
pub open spec fn walk_measure(bs: usize) -> int {
    if bs <= 16 {
        16 - bs
    } else {
        0
    }
}

/// The mask walk of `has_tr`: true when walking the doubled scales
/// upward never proves the top-right neighbour undecoded.
pub open spec fn tr_walk_ok(mask_row: usize, mask_col: usize, bs: usize) -> bool
    decreases walk_measure(bs),
{
    if bs == 0 || bs >= 16 {
        true
    } else if mask_col & bs != 0 {
        if (mask_col & ((2 * bs) as usize)) != 0 && (mask_row & ((2 * bs) as usize)) != 0 {
            false
        } else {
            tr_walk_ok(mask_row, mask_col, (2 * bs) as usize)
        }
    } else {
        true
    }
}

/// The mask walk of `has_bl`: true when some doubled scale proves the
/// bottom-left neighbour already decoded.
pub open spec fn bl_walk_ok(mask_row: usize, mask_col: usize, bs: usize) -> bool
    decreases walk_measure(bs),
{
    if 2 * bs >= 16 {
        false
    } else if mask_col & bs == 0 {
        if (mask_col & ((2 * bs) as usize)) == 0 && (mask_row & ((2 * bs) as usize)) == 0 {
            true
        } else if bs == 0 {
            false
        } else {
            bl_walk_ok(mask_row, mask_col, (2 * bs) as usize)
        }
    } else {
        false
    }
}

/// Whether the top-right neighbour of the block was reconstructed before
/// it, assuming a 64x64 superblock: the mask walk seeded from the
/// block's parity, then the two rectangular-pair corrections.
pub open spec fn spec_has_tr(bo: TileBlockOffset, bsize: BlockSize) -> bool {
    let mask_row = bo.0.y & 15;
    let mask_col = bo.0.x & 15;
    let n4_w = bsize.spec_width() / 4;
    let n4_h = bsize.spec_height() / 4;
    let bs = if n4_w >= n4_h {
        n4_w
    } else {
        n4_h
    };
    if bs > 16 {
        false
    } else {
        let seeded = !((mask_row & bs != 0) && (mask_col & bs != 0));
        let walked = seeded && tr_walk_ok(mask_row, mask_col, bs as usize);
        let tall_fixed = if n4_w < n4_h && (bo.0.x & n4_w) == 0 {
            true
        } else {
            walked
        };
        if n4_w > n4_h && (bo.0.y & n4_h) != 0 {
            false
        } else {
            tall_fixed
        }
    }
}

/// Whether the bottom-left neighbour of the block was reconstructed
/// before it, assuming a 64x64 superblock.
pub open spec fn spec_has_bl(bo: TileBlockOffset, bsize: BlockSize) -> bool {
    let mask_row = bo.0.y & 15;
    let mask_col = bo.0.x & 15;
    let n4_w = bsize.spec_width() / 4;
    let n4_h = bsize.spec_height() / 4;
    let bs = if n4_w >= n4_h {
        n4_w
    } else {
        n4_h
    };
    if bs > 16 {
        false
    } else {
        let seeded = (mask_row & bs) == 0 && (mask_col & bs) == 0 && bs < 16;
        let walked = seeded || bl_walk_ok(mask_row, mask_col, bs as usize);
        let tall_fixed = if n4_w < n4_h && (bo.0.x & n4_w) != 0 {
            false
        } else {
            walked
        };
        if n4_w > n4_h && (bo.0.y & n4_h) == 0 {
            true
        } else {
            tall_fixed
        }
    }
}

/// Recursive form of the `has_tr` mask walk.
fn tr_walk(mask_row: usize, mask_col: usize, bs: usize) -> (r: bool)
    requires
        bs <= 32,
    ensures
        r == tr_walk_ok(mask_row, mask_col, bs),
    decreases walk_measure(bs),
{
    if bs == 0 || bs >= 16 {
        true
    } else if mask_col & bs != 0 {
        if (mask_col & (2 * bs)) != 0 && (mask_row & (2 * bs)) != 0 {
            false
        } else {
            tr_walk(mask_row, mask_col, 2 * bs)
        }
    } else {
        true
    }
}

/// Recursive form of the `has_bl` mask walk.
fn bl_walk(mask_row: usize, mask_col: usize, bs: usize) -> (r: bool)
    requires
        bs <= 32,
    ensures
        r == bl_walk_ok(mask_row, mask_col, bs),
    decreases walk_measure(bs),
{
    if 2 * bs >= 16 {
        false
    } else if mask_col & bs == 0 {
        if (mask_col & (2 * bs)) == 0 && (mask_row & (2 * bs)) == 0 {
            true
        } else if bs == 0 {
            false
        } else {
            bl_walk(mask_row, mask_col, 2 * bs)
        }
    } else {
        false
    }
}

/// See [`spec_has_tr`].
pub fn has_tr(bo: TileBlockOffset, bsize: BlockSize) -> (r: bool)
    ensures
        r == spec_has_tr(bo, bsize),
{
    let mask_row = bo.0.y & crate::block_unit::LOCAL_BLOCK_MASK;
    let mask_col = bo.0.x & crate::block_unit::LOCAL_BLOCK_MASK;
    let target_n4_w = bsize.width_mi();
    let target_n4_h = bsize.height_mi();

    let bs = if target_n4_w >= target_n4_h {
        target_n4_w
    } else {
        target_n4_h
    };

    if bs > 16 {
        return false;
    }
    let mut has_tr = !((mask_row & bs != 0) && (mask_col & bs != 0));
    has_tr = has_tr && tr_walk(mask_row, mask_col, bs);

    // The left hand of two vertical rectangles always has a top right, as
    // the block above will have been decoded.
    if (target_n4_w < target_n4_h) && (bo.0.x & target_n4_w) == 0 {
        has_tr = true;
    }

    // The bottom of two horizontal rectangles never has a top right, as
    // the block to the right will not have been decoded.
    if (target_n4_w > target_n4_h) && (bo.0.y & target_n4_h) != 0 {
        has_tr = false;
    }

    has_tr
}

/// See [`spec_has_bl`].
pub fn has_bl(bo: TileBlockOffset, bsize: BlockSize) -> (r: bool)
    ensures
        r == spec_has_bl(bo, bsize),
{
    let mask_row = bo.0.y & crate::block_unit::LOCAL_BLOCK_MASK;
    let mask_col = bo.0.x & crate::block_unit::LOCAL_BLOCK_MASK;
    let target_n4_w = bsize.width_mi();
    let target_n4_h = bsize.height_mi();

    let bs = if target_n4_w >= target_n4_h {
        target_n4_w
    } else {
        target_n4_h
    };

    if bs > 16 {
        return false;
    }
    let mut has_bl = (mask_row & bs) == 0 && (mask_col & bs) == 0 && bs < 16;
    has_bl = has_bl || bl_walk(mask_row, mask_col, bs);

    // The right hand of two vertical rectangles never has a bottom left,
    // as the block below will not have been decoded.
    if (target_n4_w < target_n4_h) && (bo.0.x & target_n4_w) != 0 {
        has_bl = false;
    }

    // The top of two horizontal rectangles always has a bottom left, as
    // the block to the left will have been decoded.
    if (target_n4_w > target_n4_h) && (bo.0.y & target_n4_h) == 0 {
        has_bl = true;
    }

    has_bl
}

/// The bottom member of a horizontal pair of wide rectangles never has a
/// top-right neighbour, whatever the mask walk would have said.
pub proof fn lemma_wide_pair_bottom_no_tr(bo: TileBlockOffset, bsize: BlockSize)
    requires
        bsize.spec_width() > bsize.spec_height(),
        (bo.0.y & (bsize.spec_height() / 4) as usize) != 0,
    ensures
        !spec_has_tr(bo, bsize),
{
}

/// The top member of a horizontal pair of wide rectangles always has a
/// bottom-left neighbour, provided the pair fits in a superblock.
pub proof fn lemma_wide_pair_top_has_bl(bo: TileBlockOffset, bsize: BlockSize)
    requires
        bsize.spec_width() > bsize.spec_height(),
        bsize.spec_width() / 4 <= 16,
        (bo.0.y & (bsize.spec_height() / 4) as usize) == 0,
    ensures
        spec_has_bl(bo, bsize),
{
}

/// The left member of a vertical pair of tall rectangles always has a
/// top-right neighbour, provided the pair fits in a superblock.
pub proof fn lemma_tall_pair_left_has_tr(bo: TileBlockOffset, bsize: BlockSize)
    requires
        bsize.spec_width() < bsize.spec_height(),
        bsize.spec_height() / 4 <= 16,
        (bo.0.x & (bsize.spec_width() / 4) as usize) == 0,
    ensures
        spec_has_tr(bo, bsize),
{
}

/// The right member of a vertical pair of tall rectangles never has a
/// bottom-left neighbour.
pub proof fn lemma_tall_pair_right_no_bl(bo: TileBlockOffset, bsize: BlockSize)
    requires
        bsize.spec_width() < bsize.spec_height(),
        (bo.0.x & (bsize.spec_width() / 4) as usize) != 0,
    ensures
        !spec_has_bl(bo, bsize),
{
}

} // verus!
