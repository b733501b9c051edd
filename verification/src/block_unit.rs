//! Block-granularity coordinates: a position in units of the smallest
//! codable block, wrapped in named types that keep plane-space and
//! tile-space positions apart, and the context-count constants shared by
//! the entropy tables.

use vstd::prelude::*;

verus! {

use crate::frame::{PlaneConfig, PlaneOffset};

pub const MAX_PLANES: usize = 3;

pub const BLOCK_SIZE_GROUPS: usize = 4;

pub const MAX_ANGLE_DELTA: usize = 3;

pub const DIRECTIONAL_MODES: usize = 8;

pub const KF_MODE_CONTEXTS: usize = 5;

pub const INTRA_INTER_CONTEXTS: usize = 4;

pub const INTER_MODE_CONTEXTS: usize = 8;

pub const DRL_MODE_CONTEXTS: usize = 3;

pub const COMP_INTER_CONTEXTS: usize = 5;

pub const COMP_REF_TYPE_CONTEXTS: usize = 5;

pub const UNI_COMP_REF_CONTEXTS: usize = 3;

pub const PLANE_TYPES: usize = 2;

pub const REF_TYPES: usize = 2;

pub const COMP_INDEX_CONTEXTS: usize = 6;

pub const COMP_GROUP_IDX_CONTEXTS: usize = 6;

/// Base-2 logarithm of a 64-pixel superblock's width in pixels.
pub const SUPERBLOCK_TO_PLANE_SHIFT: usize = 6;

/// Base-2 logarithm of a superblock's width in blocks.
pub const SUPERBLOCK_TO_BLOCK_SHIFT: usize = 4;

/// Base-2 logarithm of a block's width in pixels.
pub const BLOCK_TO_PLANE_SHIFT: usize = 2;

/// Base-2 logarithm of an importance block's width in blocks.
pub const IMPORTANCE_BLOCK_TO_BLOCK_SHIFT: usize = 1;

/// A superblock's width in blocks.
pub const MIB_SIZE: usize = 16;

/// Mask selecting a block coordinate's position within its superblock.
pub const LOCAL_BLOCK_MASK: usize = 15;

/// Absolute offset in superblocks.
#[derive(Copy, Clone, Debug, PartialEq, Eq, Structural)]
pub struct SuperBlockOffset {
    pub x: usize,
    pub y: usize,
}

/// Absolute offset in superblocks inside a plane.
#[derive(Copy, Clone, Debug, PartialEq, Eq, Structural)]
pub struct PlaneSuperBlockOffset(pub SuperBlockOffset);

/// Absolute offset in superblocks inside a tile.
#[derive(Copy, Clone, Debug, PartialEq, Eq, Structural)]
pub struct TileSuperBlockOffset(pub SuperBlockOffset);

/// Absolute offset in blocks, where a block is the `4x4` square of the
/// smallest codable unit.
#[derive(Copy, Clone, Debug, PartialEq, Eq, Structural)]
pub struct BlockOffset {
    pub x: usize,
    pub y: usize,
}

/// Absolute offset in blocks inside a plane.
#[derive(Copy, Clone, Debug, PartialEq, Eq, Structural)]
pub struct PlaneBlockOffset(pub BlockOffset);

/// Absolute offset in blocks inside a tile.
#[derive(Copy, Clone, Debug, PartialEq, Eq, Structural)]
pub struct TileBlockOffset(pub BlockOffset);

impl BlockOffset {
    /// Offset of the superblock in which this block is located.
    fn sb_offset(self) -> (r: SuperBlockOffset)
        ensures
            r.x == self.x / 16,
            r.y == self.y / 16,
    {
        proof {
            vstd::bits::lemma_usize_shr_is_div(self.x, SUPERBLOCK_TO_BLOCK_SHIFT);
            vstd::bits::lemma_usize_shr_is_div(self.y, SUPERBLOCK_TO_BLOCK_SHIFT);
            vstd::arithmetic::power2::lemma2_to64();
        }
        SuperBlockOffset { x: self.x >> SUPERBLOCK_TO_BLOCK_SHIFT, y: self.y >> SUPERBLOCK_TO_BLOCK_SHIFT }
    }

    /// Offset of the top-left pixel of this block inside the given
    /// plane, with the plane's chroma decimation applied.
    fn plane_offset(self, plane: &PlaneConfig) -> (r: PlaneOffset)
        requires
            plane.xdec <= 1,
            plane.ydec <= 1,
            self.x * 4 <= isize::MAX,
            self.y * 4 <= isize::MAX,
        ensures
            r.x == self.x as int / (if plane.xdec == 1 { 2int } else { 1int }) * 4,
            r.y == self.y as int / (if plane.ydec == 1 { 2int } else { 1int }) * 4,
    {
        proof {
            vstd::arithmetic::power2::lemma2_to64();
            vstd::bits::lemma_usize_shr_is_div(self.x, plane.xdec);
            vstd::bits::lemma_usize_shr_is_div(self.y, plane.ydec);
            vstd::arithmetic::div_mod::lemma_div_nonincreasing(
                self.x as int,
                if plane.xdec == 1 { 2int } else { 1int },
            );
            vstd::arithmetic::div_mod::lemma_div_nonincreasing(
                self.y as int,
                if plane.ydec == 1 { 2int } else { 1int },
            );
            vstd::bits::lemma_usize_shl_is_mul(self.x >> plane.xdec, BLOCK_TO_PLANE_SHIFT);
            vstd::bits::lemma_usize_shl_is_mul(self.y >> plane.ydec, BLOCK_TO_PLANE_SHIFT);
        }
        PlaneOffset {
            x: ((self.x >> plane.xdec) << BLOCK_TO_PLANE_SHIFT) as isize,
            y: ((self.y >> plane.ydec) << BLOCK_TO_PLANE_SHIFT) as isize,
        }
    }

    /// Offset of the top-left pixel of this block, with no decimation.
    fn to_luma_plane_offset(self) -> (r: PlaneOffset)
        requires
            self.x * 4 <= isize::MAX,
            self.y * 4 <= isize::MAX,
        ensures
            r.x == self.x * 4,
            r.y == self.y * 4,
    {
        proof {
            vstd::arithmetic::power2::lemma2_to64();
            vstd::bits::lemma_usize_shl_is_mul(self.x, BLOCK_TO_PLANE_SHIFT);
            vstd::bits::lemma_usize_shl_is_mul(self.y, BLOCK_TO_PLANE_SHIFT);
        }
        PlaneOffset {
            x: (self.x << BLOCK_TO_PLANE_SHIFT) as isize,
            y: (self.y << BLOCK_TO_PLANE_SHIFT) as isize,
        }
    }

    /// Vertical position of this block within its superblock.
    fn y_in_sb(self) -> (r: usize)
        ensures
            r == self.y % 16,
    {
        self.y % MIB_SIZE
    }

    /// The block translated by a signed column and row delta; the result
    /// must not leave the coordinate space.
    fn with_offset(self, col_offset: isize, row_offset: isize) -> (r: BlockOffset)
        requires
            self.x <= isize::MAX,
            self.y <= isize::MAX,
            0 <= self.x + col_offset <= isize::MAX,
            0 <= self.y + row_offset <= isize::MAX,
        ensures
            r.x == self.x + col_offset,
            r.y == self.y + row_offset,
    {
        let x = self.x as isize + col_offset;
        let y = self.y as isize + row_offset;
        BlockOffset { x: x as usize, y: y as usize }
    }
}

impl PlaneBlockOffset {
    /// Offset of the superblock in which this block is located.
    pub fn sb_offset(self) -> (r: PlaneSuperBlockOffset)
        ensures
            r.0.x == self.0.x / 16,
            r.0.y == self.0.y / 16,
    {
        PlaneSuperBlockOffset(self.0.sb_offset())
    }

    /// Offset of the top-left pixel of this block.
    pub fn plane_offset(self, plane: &PlaneConfig) -> (r: PlaneOffset)
        requires
            plane.xdec <= 1,
            plane.ydec <= 1,
            self.0.x * 4 <= isize::MAX,
            self.0.y * 4 <= isize::MAX,
        ensures
            r.x == self.0.x as int / (if plane.xdec == 1 { 2int } else { 1int }) * 4,
            r.y == self.0.y as int / (if plane.ydec == 1 { 2int } else { 1int }) * 4,
    {
        self.0.plane_offset(plane)
    }

    /// Offset of the top-left pixel of this block, with no decimation.
    pub fn to_luma_plane_offset(self) -> (r: PlaneOffset)
        requires
            self.0.x * 4 <= isize::MAX,
            self.0.y * 4 <= isize::MAX,
        ensures
            r.x == self.0.x * 4,
            r.y == self.0.y * 4,
    {
        self.0.to_luma_plane_offset()
    }

    /// Vertical position of this block within its superblock.
    pub fn y_in_sb(self) -> (r: usize)
        ensures
            r == self.0.y % 16,
    {
        self.0.y_in_sb()
    }

    /// The block translated by a signed column and row delta.
    pub fn with_offset(self, col_offset: isize, row_offset: isize) -> (r: PlaneBlockOffset)
        requires
            self.0.x <= isize::MAX,
            self.0.y <= isize::MAX,
            0 <= self.0.x + col_offset <= isize::MAX,
            0 <= self.0.y + row_offset <= isize::MAX,
        ensures
            r.0.x == self.0.x + col_offset,
            r.0.y == self.0.y + row_offset,
    {
        Self(self.0.with_offset(col_offset, row_offset))
    }
}

impl TileBlockOffset {
    /// Offset of the superblock in which this block is located.
    pub fn sb_offset(self) -> (r: TileSuperBlockOffset)
        ensures
            r.0.x == self.0.x / 16,
            r.0.y == self.0.y / 16,
    {
        TileSuperBlockOffset(self.0.sb_offset())
    }

    /// Offset of the top-left pixel of this block.
    pub fn plane_offset(self, plane: &PlaneConfig) -> (r: PlaneOffset)
        requires
            plane.xdec <= 1,
            plane.ydec <= 1,
            self.0.x * 4 <= isize::MAX,
            self.0.y * 4 <= isize::MAX,
        ensures
            r.x == self.0.x as int / (if plane.xdec == 1 { 2int } else { 1int }) * 4,
            r.y == self.0.y as int / (if plane.ydec == 1 { 2int } else { 1int }) * 4,
    {
        self.0.plane_offset(plane)
    }

    /// Offset of the top-left pixel of this block, with no decimation.
    pub fn to_luma_plane_offset(self) -> (r: PlaneOffset)
        requires
            self.0.x * 4 <= isize::MAX,
            self.0.y * 4 <= isize::MAX,
        ensures
            r.x == self.0.x * 4,
            r.y == self.0.y * 4,
    {
        self.0.to_luma_plane_offset()
    }

    /// Vertical position of this block within its superblock.
    pub fn y_in_sb(self) -> (r: usize)
        ensures
            r == self.0.y % 16,
    {
        self.0.y_in_sb()
    }

    /// The block translated by a signed column and row delta.
    pub fn with_offset(self, col_offset: isize, row_offset: isize) -> (r: TileBlockOffset)
        requires
            self.0.x <= isize::MAX,
            self.0.y <= isize::MAX,
            0 <= self.0.x + col_offset <= isize::MAX,
            0 <= self.0.y + row_offset <= isize::MAX,
        ensures
            r.0.x == self.0.x + col_offset,
            r.0.y == self.0.y + row_offset,
    {
        Self(self.0.with_offset(col_offset, row_offset))
    }
}

} // verus!
