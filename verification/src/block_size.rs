//! Coding-block shapes: the 22 legal width/height combinations, their
//! derived dimensions, chroma subsampling, partition splitting and the
//! transform sizes they admit.
#![allow(non_camel_case_types)]

use vstd::prelude::*;

verus! {

use crate::block_size::BlockSize::{
    BLOCK_4X4, BLOCK_4X8, BLOCK_8X4, BLOCK_8X8, BLOCK_8X16, BLOCK_16X8, BLOCK_16X16, BLOCK_16X32,
    BLOCK_32X16, BLOCK_32X32, BLOCK_32X64, BLOCK_64X32, BLOCK_64X64, BLOCK_64X128, BLOCK_128X64,
    BLOCK_128X128, BLOCK_4X16, BLOCK_16X4, BLOCK_8X32, BLOCK_32X8, BLOCK_16X64, BLOCK_64X16,
};
use crate::partition_type::PartitionType;
use crate::tx_size::TxSize;

/// Number of coding-block shapes.
pub const BLOCK_SIZES_ALL: usize = 22;

/// Number of shapes leaving out the six 4:1 and 1:4 rectangles.
pub const BLOCK_SIZES: usize = 16;

#[derive(Copy, Clone, Debug, PartialEq, Eq, Structural)]
pub enum BlockSize {
    BLOCK_4X4,
    BLOCK_4X8,
    BLOCK_8X4,
    BLOCK_8X8,
    BLOCK_8X16,
    BLOCK_16X8,
    BLOCK_16X16,
    BLOCK_16X32,
    BLOCK_32X16,
    BLOCK_32X32,
    BLOCK_32X64,
    BLOCK_64X32,
    BLOCK_64X64,
    BLOCK_64X128,
    BLOCK_128X64,
    BLOCK_128X128,
    BLOCK_4X16,
    BLOCK_16X4,
    BLOCK_8X32,
    BLOCK_32X8,
    BLOCK_16X64,
    BLOCK_64X16,
}

/// Returned where a requested width/height pair, subsampling or split has
/// no legal coding-block shape.
#[derive(Copy, Clone, Debug, PartialEq, Eq, Structural)]
pub struct InvalidBlockSize;

impl BlockSize {
    /// Position of the variant in the declaration order, the index used by
    /// every table keyed by block size.
    pub open spec fn spec_ordinal(self) -> int {
        match self {
            BLOCK_4X4 => 0,
            BLOCK_4X8 => 1,
            BLOCK_8X4 => 2,
            BLOCK_8X8 => 3,
            BLOCK_8X16 => 4,
            BLOCK_16X8 => 5,
            BLOCK_16X16 => 6,
            BLOCK_16X32 => 7,
            BLOCK_32X16 => 8,
            BLOCK_32X32 => 9,
            BLOCK_32X64 => 10,
            BLOCK_64X32 => 11,
            BLOCK_64X64 => 12,
            BLOCK_64X128 => 13,
            BLOCK_128X64 => 14,
            BLOCK_128X128 => 15,
            BLOCK_4X16 => 16,
            BLOCK_16X4 => 17,
            BLOCK_8X32 => 18,
            BLOCK_32X8 => 19,
            BLOCK_16X64 => 20,
            BLOCK_64X16 => 21,
        }
    }

    /// See [`BlockSize::spec_ordinal`].
    pub fn ordinal(self) -> (r: usize)
        ensures
            r == self.spec_ordinal(),
            r < BLOCK_SIZES_ALL,
    {
        match self {
            BLOCK_4X4 => 0,
            BLOCK_4X8 => 1,
            BLOCK_8X4 => 2,
            BLOCK_8X8 => 3,
            BLOCK_8X16 => 4,
            BLOCK_16X8 => 5,
            BLOCK_16X16 => 6,
            BLOCK_16X32 => 7,
            BLOCK_32X16 => 8,
            BLOCK_32X32 => 9,
            BLOCK_32X64 => 10,
            BLOCK_64X32 => 11,
            BLOCK_64X64 => 12,
            BLOCK_64X128 => 13,
            BLOCK_128X64 => 14,
            BLOCK_128X128 => 15,
            BLOCK_4X16 => 16,
            BLOCK_16X4 => 17,
            BLOCK_8X32 => 18,
            BLOCK_32X8 => 19,
            BLOCK_16X64 => 20,
            BLOCK_64X16 => 21,
        }
    }

    pub open spec fn spec_width_log2(self) -> usize {
        match self {
            BLOCK_4X4 | BLOCK_4X8 | BLOCK_4X16 => 2,
            BLOCK_8X4 | BLOCK_8X8 | BLOCK_8X16 | BLOCK_8X32 => 3,
            BLOCK_16X4 | BLOCK_16X8 | BLOCK_16X16 | BLOCK_16X32 | BLOCK_16X64 => 4,
            BLOCK_32X8 | BLOCK_32X16 | BLOCK_32X32 | BLOCK_32X64 => 5,
            BLOCK_64X16 | BLOCK_64X32 | BLOCK_64X64 | BLOCK_64X128 => 6,
            BLOCK_128X64 | BLOCK_128X128 => 7,
        }
    }

    pub open spec fn spec_width(self) -> usize {
        match self {
            BLOCK_4X4 | BLOCK_4X8 | BLOCK_4X16 => 4,
            BLOCK_8X4 | BLOCK_8X8 | BLOCK_8X16 | BLOCK_8X32 => 8,
            BLOCK_16X4 | BLOCK_16X8 | BLOCK_16X16 | BLOCK_16X32 | BLOCK_16X64 => 16,
            BLOCK_32X8 | BLOCK_32X16 | BLOCK_32X32 | BLOCK_32X64 => 32,
            BLOCK_64X16 | BLOCK_64X32 | BLOCK_64X64 | BLOCK_64X128 => 64,
            BLOCK_128X64 | BLOCK_128X128 => 128,
        }
    }

    pub open spec fn spec_height_log2(self) -> usize {
        match self {
            BLOCK_4X4 | BLOCK_8X4 | BLOCK_16X4 => 2,
            BLOCK_4X8 | BLOCK_8X8 | BLOCK_16X8 | BLOCK_32X8 => 3,
            BLOCK_4X16 | BLOCK_8X16 | BLOCK_16X16 | BLOCK_32X16 | BLOCK_64X16 => 4,
            BLOCK_8X32 | BLOCK_16X32 | BLOCK_32X32 | BLOCK_64X32 => 5,
            BLOCK_16X64 | BLOCK_32X64 | BLOCK_64X64 | BLOCK_128X64 => 6,
            BLOCK_64X128 | BLOCK_128X128 => 7,
        }
    }

    pub open spec fn spec_height(self) -> usize {
        match self {
            BLOCK_4X4 | BLOCK_8X4 | BLOCK_16X4 => 4,
            BLOCK_4X8 | BLOCK_8X8 | BLOCK_16X8 | BLOCK_32X8 => 8,
            BLOCK_4X16 | BLOCK_8X16 | BLOCK_16X16 | BLOCK_32X16 | BLOCK_64X16 => 16,
            BLOCK_8X32 | BLOCK_16X32 | BLOCK_32X32 | BLOCK_64X32 => 32,
            BLOCK_16X64 | BLOCK_32X64 | BLOCK_64X64 | BLOCK_128X64 => 64,
            BLOCK_64X128 | BLOCK_128X128 => 128,
        }
    }

    pub open spec fn spec_area(self) -> usize {
        (self.spec_width() * self.spec_height()) as usize
    }

    pub fn width(self) -> (r: usize)
        ensures
            r == self.spec_width(),
    {
        match self {
            BLOCK_4X4 | BLOCK_4X8 | BLOCK_4X16 => 4,
            BLOCK_8X4 | BLOCK_8X8 | BLOCK_8X16 | BLOCK_8X32 => 8,
            BLOCK_16X4 | BLOCK_16X8 | BLOCK_16X16 | BLOCK_16X32 | BLOCK_16X64 => 16,
            BLOCK_32X8 | BLOCK_32X16 | BLOCK_32X32 | BLOCK_32X64 => 32,
            BLOCK_64X16 | BLOCK_64X32 | BLOCK_64X64 | BLOCK_64X128 => 64,
            BLOCK_128X64 | BLOCK_128X128 => 128,
        }
    }

    pub fn width_log2(self) -> (r: usize)
        ensures
            r == self.spec_width_log2(),
    {
        match self {
            BLOCK_4X4 | BLOCK_4X8 | BLOCK_4X16 => 2,
            BLOCK_8X4 | BLOCK_8X8 | BLOCK_8X16 | BLOCK_8X32 => 3,
            BLOCK_16X4 | BLOCK_16X8 | BLOCK_16X16 | BLOCK_16X32 | BLOCK_16X64 => 4,
            BLOCK_32X8 | BLOCK_32X16 | BLOCK_32X32 | BLOCK_32X64 => 5,
            BLOCK_64X16 | BLOCK_64X32 | BLOCK_64X64 | BLOCK_64X128 => 6,
            BLOCK_128X64 | BLOCK_128X128 => 7,
        }
    }

    pub fn height(self) -> (r: usize)
        ensures
            r == self.spec_height(),
    {
        match self {
            BLOCK_4X4 | BLOCK_8X4 | BLOCK_16X4 => 4,
            BLOCK_4X8 | BLOCK_8X8 | BLOCK_16X8 | BLOCK_32X8 => 8,
            BLOCK_4X16 | BLOCK_8X16 | BLOCK_16X16 | BLOCK_32X16 | BLOCK_64X16 => 16,
            BLOCK_8X32 | BLOCK_16X32 | BLOCK_32X32 | BLOCK_64X32 => 32,
            BLOCK_16X64 | BLOCK_32X64 | BLOCK_64X64 | BLOCK_128X64 => 64,
            BLOCK_64X128 | BLOCK_128X128 => 128,
        }
    }

    pub fn height_log2(self) -> (r: usize)
        ensures
            r == self.spec_height_log2(),
    {
        match self {
            BLOCK_4X4 | BLOCK_8X4 | BLOCK_16X4 => 2,
            BLOCK_4X8 | BLOCK_8X8 | BLOCK_16X8 | BLOCK_32X8 => 3,
            BLOCK_4X16 | BLOCK_8X16 | BLOCK_16X16 | BLOCK_32X16 | BLOCK_64X16 => 4,
            BLOCK_8X32 | BLOCK_16X32 | BLOCK_32X32 | BLOCK_64X32 => 5,
            BLOCK_16X64 | BLOCK_32X64 | BLOCK_64X64 | BLOCK_128X64 => 6,
            BLOCK_64X128 | BLOCK_128X128 => 7,
        }
    }

    /// Width times height, in pixels.
    pub fn area(self) -> (r: usize)
        ensures
            r == self.spec_area(),
    {
        self.width() * self.height()
    }

    /// Width in units of the smallest codable block (4 pixels), as a
    /// base-2 logarithm.
    pub fn width_mi_log2(self) -> (r: usize)
        ensures
            r == self.spec_width_log2() - 2,
    {
        self.width_log2() - 2
    }

    /// Width in units of the smallest codable block (4 pixels).
    pub fn width_mi(self) -> (r: usize)
        ensures
            r == self.spec_width() / 4,
    {
        let w = self.width();
        proof {
            vstd::bits::lemma_usize_shr_is_div(w, crate::MI_SIZE_LOG2);
            vstd::arithmetic::power2::lemma2_to64();
        }
        w >> crate::MI_SIZE_LOG2
    }

    /// Width in importance blocks (8 pixels), never less than one.
    pub fn width_imp_b(self) -> (r: usize)
        ensures
            r == if self.spec_width() / 8 >= 1 {
                self.spec_width() / 8
            } else {
                1
            },
    {
        let w = self.width();
        proof {
            vstd::bits::lemma_usize_shr_is_div(w, 3);
            vstd::arithmetic::power2::lemma2_to64();
        }
        let r = w >> 3;
        if r >= 1 {
            r
        } else {
            1
        }
    }

    /// Height in units of the smallest codable block (4 pixels), as a
    /// base-2 logarithm.
    pub fn height_mi_log2(self) -> (r: usize)
        ensures
            r == self.spec_height_log2() - 2,
    {
        self.height_log2() - 2
    }

    /// Height in units of the smallest codable block (4 pixels).
    pub fn height_mi(self) -> (r: usize)
        ensures
            r == self.spec_height() / 4,
    {
        let h = self.height();
        proof {
            vstd::bits::lemma_usize_shr_is_div(h, crate::MI_SIZE_LOG2);
            vstd::arithmetic::power2::lemma2_to64();
        }
        h >> crate::MI_SIZE_LOG2
    }

    /// Height in importance blocks (8 pixels), never less than one.
    pub fn height_imp_b(self) -> (r: usize)
        ensures
            r == if self.spec_height() / 8 >= 1 {
                self.spec_height() / 8
            } else {
                1
            },
    {
        let h = self.height();
        proof {
            vstd::bits::lemma_usize_shr_is_div(h, 3);
            vstd::arithmetic::power2::lemma2_to64();
        }
        let r = h >> 3;
        if r >= 1 {
            r
        } else {
            1
        }
    }

    /// The shape with the given pixel dimensions, if one exists.
    pub open spec fn spec_from_width_and_height(w: usize, h: usize) -> Option<BlockSize> {
        if w == 4 && h == 4 {
            Some(BLOCK_4X4)
        } else if w == 4 && h == 8 {
            Some(BLOCK_4X8)
        } else if w == 4 && h == 16 {
            Some(BLOCK_4X16)
        } else if w == 8 && h == 4 {
            Some(BLOCK_8X4)
        } else if w == 8 && h == 8 {
            Some(BLOCK_8X8)
        } else if w == 8 && h == 16 {
            Some(BLOCK_8X16)
        } else if w == 8 && h == 32 {
            Some(BLOCK_8X32)
        } else if w == 16 && h == 4 {
            Some(BLOCK_16X4)
        } else if w == 16 && h == 8 {
            Some(BLOCK_16X8)
        } else if w == 16 && h == 16 {
            Some(BLOCK_16X16)
        } else if w == 16 && h == 32 {
            Some(BLOCK_16X32)
        } else if w == 16 && h == 64 {
            Some(BLOCK_16X64)
        } else if w == 32 && h == 8 {
            Some(BLOCK_32X8)
        } else if w == 32 && h == 16 {
            Some(BLOCK_32X16)
        } else if w == 32 && h == 32 {
            Some(BLOCK_32X32)
        } else if w == 32 && h == 64 {
            Some(BLOCK_32X64)
        } else if w == 64 && h == 16 {
            Some(BLOCK_64X16)
        } else if w == 64 && h == 32 {
            Some(BLOCK_64X32)
        } else if w == 64 && h == 64 {
            Some(BLOCK_64X64)
        } else if w == 64 && h == 128 {
            Some(BLOCK_64X128)
        } else if w == 128 && h == 64 {
            Some(BLOCK_128X64)
        } else if w == 128 && h == 128 {
            Some(BLOCK_128X128)
        } else {
            None
        }
    }

    /// The validated constructor: succeeds exactly on the dimension pairs
    /// of the enumeration, and then returns the shape with those
    /// dimensions.
    pub fn from_width_and_height_opt(w: usize, h: usize) -> (r: Result<BlockSize, InvalidBlockSize>)
        ensures
            r matches Ok(b) ==> Self::spec_from_width_and_height(w, h) == Some(b)
                && b.spec_width() == w && b.spec_height() == h,
            r is Err ==> Self::spec_from_width_and_height(w, h) is None,
    {
        match (w, h) {
            (4, 4) => Ok(BLOCK_4X4),
            (4, 8) => Ok(BLOCK_4X8),
            (4, 16) => Ok(BLOCK_4X16),
            (8, 4) => Ok(BLOCK_8X4),
            (8, 8) => Ok(BLOCK_8X8),
            (8, 16) => Ok(BLOCK_8X16),
            (8, 32) => Ok(BLOCK_8X32),
            (16, 4) => Ok(BLOCK_16X4),
            (16, 8) => Ok(BLOCK_16X8),
            (16, 16) => Ok(BLOCK_16X16),
            (16, 32) => Ok(BLOCK_16X32),
            (16, 64) => Ok(BLOCK_16X64),
            (32, 8) => Ok(BLOCK_32X8),
            (32, 16) => Ok(BLOCK_32X16),
            (32, 32) => Ok(BLOCK_32X32),
            (32, 64) => Ok(BLOCK_32X64),
            (64, 16) => Ok(BLOCK_64X16),
            (64, 32) => Ok(BLOCK_64X32),
            (64, 64) => Ok(BLOCK_64X64),
            (64, 128) => Ok(BLOCK_64X128),
            (128, 64) => Ok(BLOCK_128X64),
            (128, 128) => Ok(BLOCK_128X128),
            _ => Err(InvalidBlockSize),
        }
    }

    /// The panicking convenience wrapper around the validated
    /// constructor: its callers must already know the pair is legal.
    pub fn from_width_and_height(w: usize, h: usize) -> (r: BlockSize)
        requires
            Self::spec_from_width_and_height(w, h) is Some,
        ensures
            Some(r) == Self::spec_from_width_and_height(w, h),
            r.spec_width() == w,
            r.spec_height() == h,
    {
        match Self::from_width_and_height_opt(w, h) {
            Ok(b) => b,
            Err(_) => {
                proof {
                    assert(false);
                }
                BLOCK_4X4
            },
        }
    }

    /// Whether chroma-from-luma prediction is allowed: the shape must not
    /// exceed 32x32 in either dimension.
    pub fn cfl_allowed(self) -> (r: bool)
        ensures
            r == (self.spec_width() <= 32 && self.spec_height() <= 32),
    {
        self <= BlockSize::BLOCK_32X32
    }

    /// Largest transform size whose dimensions do not exceed the block's.
    pub open spec fn spec_tx_size(self) -> TxSize {
        match self {
            BLOCK_4X4 => TxSize::TX_4X4,
            BLOCK_4X8 => TxSize::TX_4X8,
            BLOCK_8X4 => TxSize::TX_8X4,
            BLOCK_8X8 => TxSize::TX_8X8,
            BLOCK_8X16 => TxSize::TX_8X16,
            BLOCK_16X8 => TxSize::TX_16X8,
            BLOCK_16X16 => TxSize::TX_16X16,
            BLOCK_16X32 => TxSize::TX_16X32,
            BLOCK_32X16 => TxSize::TX_32X16,
            BLOCK_32X32 => TxSize::TX_32X32,
            BLOCK_32X64 => TxSize::TX_32X64,
            BLOCK_64X32 => TxSize::TX_64X32,
            BLOCK_4X16 => TxSize::TX_4X16,
            BLOCK_16X4 => TxSize::TX_16X4,
            BLOCK_8X32 => TxSize::TX_8X32,
            BLOCK_32X8 => TxSize::TX_32X8,
            BLOCK_16X64 => TxSize::TX_16X64,
            BLOCK_64X16 => TxSize::TX_64X16,
            _ => TxSize::TX_64X64,
        }
    }

    /// See [`BlockSize::spec_tx_size`].
    pub fn tx_size(self) -> (r: TxSize)
        ensures
            r == self.spec_tx_size(),
            r.spec_width() == vstd::math::min(self.spec_width() as int, 64int),
            r.spec_height() == vstd::math::min(self.spec_height() as int, 64int),
    {
        match self {
            BLOCK_4X4 => TxSize::TX_4X4,
            BLOCK_4X8 => TxSize::TX_4X8,
            BLOCK_8X4 => TxSize::TX_8X4,
            BLOCK_8X8 => TxSize::TX_8X8,
            BLOCK_8X16 => TxSize::TX_8X16,
            BLOCK_16X8 => TxSize::TX_16X8,
            BLOCK_16X16 => TxSize::TX_16X16,
            BLOCK_16X32 => TxSize::TX_16X32,
            BLOCK_32X16 => TxSize::TX_32X16,
            BLOCK_32X32 => TxSize::TX_32X32,
            BLOCK_32X64 => TxSize::TX_32X64,
            BLOCK_64X32 => TxSize::TX_64X32,
            BLOCK_4X16 => TxSize::TX_4X16,
            BLOCK_16X4 => TxSize::TX_16X4,
            BLOCK_8X32 => TxSize::TX_8X32,
            BLOCK_32X8 => TxSize::TX_32X8,
            BLOCK_16X64 => TxSize::TX_16X64,
            BLOCK_64X16 => TxSize::TX_64X16,
            _ => TxSize::TX_64X64,
        }
    }

    /// The shape of the co-located chroma block under the given
    /// subsampling, following the `Subsampled_Size` table of the AV1
    /// specification: identity for 4:4:4, a partial mapping for 4:2:2 and
    /// a total one for 4:2:0.
    pub open spec fn spec_subsampled_size(self, xdec: usize, ydec: usize) -> Result<
        BlockSize,
        InvalidBlockSize,
    > {
        if xdec == 0 && ydec == 0 {
            Ok(self)
        } else if xdec == 1 && ydec == 0 {
            match self {
                BLOCK_4X4 | BLOCK_8X4 => Ok(BLOCK_4X4),
                BLOCK_8X8 => Ok(BLOCK_4X8),
                BLOCK_16X4 => Ok(BLOCK_8X4),
                BLOCK_16X8 => Ok(BLOCK_8X8),
                BLOCK_16X16 => Ok(BLOCK_8X16),
                BLOCK_32X8 => Ok(BLOCK_16X8),
                BLOCK_32X16 => Ok(BLOCK_16X16),
                BLOCK_32X32 => Ok(BLOCK_16X32),
                BLOCK_64X16 => Ok(BLOCK_32X16),
                BLOCK_64X32 => Ok(BLOCK_32X32),
                BLOCK_64X64 => Ok(BLOCK_32X64),
                BLOCK_128X64 => Ok(BLOCK_64X64),
                BLOCK_128X128 => Ok(BLOCK_64X128),
                _ => Err(InvalidBlockSize),
            }
        } else if xdec == 1 && ydec == 1 {
            match self {
                BLOCK_4X4 | BLOCK_4X8 | BLOCK_8X4 | BLOCK_8X8 => Ok(BLOCK_4X4),
                BLOCK_4X16 | BLOCK_8X16 => Ok(BLOCK_4X8),
                BLOCK_8X32 => Ok(BLOCK_4X16),
                BLOCK_16X4 | BLOCK_16X8 => Ok(BLOCK_8X4),
                BLOCK_16X16 => Ok(BLOCK_8X8),
                BLOCK_16X32 => Ok(BLOCK_8X16),
                BLOCK_16X64 => Ok(BLOCK_8X32),
                BLOCK_32X8 => Ok(BLOCK_16X4),
                BLOCK_32X16 => Ok(BLOCK_16X8),
                BLOCK_32X32 => Ok(BLOCK_16X16),
                BLOCK_32X64 => Ok(BLOCK_16X32),
                BLOCK_64X16 => Ok(BLOCK_32X8),
                BLOCK_64X32 => Ok(BLOCK_32X16),
                BLOCK_64X64 => Ok(BLOCK_32X32),
                BLOCK_64X128 => Ok(BLOCK_32X64),
                BLOCK_128X64 => Ok(BLOCK_64X32),
                BLOCK_128X128 => Ok(BLOCK_64X64),
            }
        } else {
            Err(InvalidBlockSize)
        }
    }

    /// See [`BlockSize::spec_subsampled_size`]. With no subsampling the
    /// block is unchanged; 4:2:0 subsampling succeeds for every shape.
    pub fn subsampled_size(self, xdec: usize, ydec: usize) -> (r: Result<
        BlockSize,
        InvalidBlockSize,
    >)
        ensures
            r == self.spec_subsampled_size(xdec, ydec),
            xdec == 0 && ydec == 0 ==> r == Ok::<BlockSize, InvalidBlockSize>(self),
            xdec == 1 && ydec == 1 ==> r is Ok,
            r matches Ok(b) ==> b.spec_width() == vstd::math::max(
                self.spec_width() as int / (if xdec == 1 { 2int } else { 1int }),
                4int,
            ) && b.spec_height() == vstd::math::max(
                self.spec_height() as int / (if ydec == 1 { 2int } else { 1int }),
                4int,
            ),
    {
        if xdec == 0 && ydec == 0 {
            Ok(self)
        } else if xdec == 1 && ydec == 0 {
            match self {
                BLOCK_4X4 | BLOCK_8X4 => Ok(BLOCK_4X4),
                BLOCK_8X8 => Ok(BLOCK_4X8),
                BLOCK_16X4 => Ok(BLOCK_8X4),
                BLOCK_16X8 => Ok(BLOCK_8X8),
                BLOCK_16X16 => Ok(BLOCK_8X16),
                BLOCK_32X8 => Ok(BLOCK_16X8),
                BLOCK_32X16 => Ok(BLOCK_16X16),
                BLOCK_32X32 => Ok(BLOCK_16X32),
                BLOCK_64X16 => Ok(BLOCK_32X16),
                BLOCK_64X32 => Ok(BLOCK_32X32),
                BLOCK_64X64 => Ok(BLOCK_32X64),
                BLOCK_128X64 => Ok(BLOCK_64X64),
                BLOCK_128X128 => Ok(BLOCK_64X128),
                _ => Err(InvalidBlockSize),
            }
        } else if xdec == 1 && ydec == 1 {
            match self {
                BLOCK_4X4 | BLOCK_4X8 | BLOCK_8X4 | BLOCK_8X8 => Ok(BLOCK_4X4),
                BLOCK_4X16 | BLOCK_8X16 => Ok(BLOCK_4X8),
                BLOCK_8X32 => Ok(BLOCK_4X16),
                BLOCK_16X4 | BLOCK_16X8 => Ok(BLOCK_8X4),
                BLOCK_16X16 => Ok(BLOCK_8X8),
                BLOCK_16X32 => Ok(BLOCK_8X16),
                BLOCK_16X64 => Ok(BLOCK_8X32),
                BLOCK_32X8 => Ok(BLOCK_16X4),
                BLOCK_32X16 => Ok(BLOCK_16X8),
                BLOCK_32X32 => Ok(BLOCK_16X16),
                BLOCK_32X64 => Ok(BLOCK_16X32),
                BLOCK_64X16 => Ok(BLOCK_32X8),
                BLOCK_64X32 => Ok(BLOCK_32X16),
                BLOCK_64X64 => Ok(BLOCK_32X32),
                BLOCK_64X128 => Ok(BLOCK_32X64),
                BLOCK_128X64 => Ok(BLOCK_64X32),
                BLOCK_128X128 => Ok(BLOCK_64X64),
            }
        } else {
            Err(InvalidBlockSize)
        }
    }

    /// Largest rectangular transform size for each block; shapes of 64
    /// pixels or more on both sides collapse to the 64x64 transform.
    pub open spec fn spec_max_txsize_rect(self) -> TxSize {
        match self {
            BLOCK_4X4 => TxSize::TX_4X4,
            BLOCK_4X8 => TxSize::TX_4X8,
            BLOCK_8X4 => TxSize::TX_8X4,
            BLOCK_8X8 => TxSize::TX_8X8,
            BLOCK_8X16 => TxSize::TX_8X16,
            BLOCK_16X8 => TxSize::TX_16X8,
            BLOCK_16X16 => TxSize::TX_16X16,
            BLOCK_16X32 => TxSize::TX_16X32,
            BLOCK_32X16 => TxSize::TX_32X16,
            BLOCK_32X32 => TxSize::TX_32X32,
            BLOCK_32X64 => TxSize::TX_32X64,
            BLOCK_64X32 => TxSize::TX_64X32,
            BLOCK_64X64 => TxSize::TX_64X64,
            BLOCK_64X128 => TxSize::TX_64X64,
            BLOCK_128X64 => TxSize::TX_64X64,
            BLOCK_128X128 => TxSize::TX_64X64,
            BLOCK_4X16 => TxSize::TX_4X16,
            BLOCK_16X4 => TxSize::TX_16X4,
            BLOCK_8X32 => TxSize::TX_8X32,
            BLOCK_32X8 => TxSize::TX_32X8,
            BLOCK_16X64 => TxSize::TX_16X64,
            BLOCK_64X16 => TxSize::TX_64X16,
        }
    }

    /// See [`BlockSize::spec_max_txsize_rect`].
    pub fn max_txsize_rect(self) -> (r: TxSize)
        ensures
            r == self.spec_max_txsize_rect(),
            r.spec_width() == vstd::math::min(self.spec_width() as int, 64int),
            r.spec_height() == vstd::math::min(self.spec_height() as int, 64int),
    {
        match self {
            BLOCK_4X4 => TxSize::TX_4X4,
            BLOCK_4X8 => TxSize::TX_4X8,
            BLOCK_8X4 => TxSize::TX_8X4,
            BLOCK_8X8 => TxSize::TX_8X8,
            BLOCK_8X16 => TxSize::TX_8X16,
            BLOCK_16X8 => TxSize::TX_16X8,
            BLOCK_16X16 => TxSize::TX_16X16,
            BLOCK_16X32 => TxSize::TX_16X32,
            BLOCK_32X16 => TxSize::TX_32X16,
            BLOCK_32X32 => TxSize::TX_32X32,
            BLOCK_32X64 => TxSize::TX_32X64,
            BLOCK_64X32 => TxSize::TX_64X32,
            BLOCK_64X64 => TxSize::TX_64X64,
            BLOCK_64X128 => TxSize::TX_64X64,
            BLOCK_128X64 => TxSize::TX_64X64,
            BLOCK_128X128 => TxSize::TX_64X64,
            BLOCK_4X16 => TxSize::TX_4X16,
            BLOCK_16X4 => TxSize::TX_16X4,
            BLOCK_8X32 => TxSize::TX_8X32,
            BLOCK_32X8 => TxSize::TX_32X8,
            BLOCK_16X64 => TxSize::TX_16X64,
            BLOCK_64X16 => TxSize::TX_64X16,
        }
    }

    /// Largest transform size usable for the chroma plane of this block
    /// under the given subsampling: the subsampled shape's largest
    /// rectangular transform, reduced to its coded size.
    pub fn largest_chroma_tx_size(self, xdec: usize, ydec: usize) -> (r: TxSize)
        requires
            self.spec_subsampled_size(xdec, ydec) is Ok,
        ensures
            r == self.spec_subsampled_size(
                xdec,
                ydec,
            )->Ok_0.spec_max_txsize_rect().spec_coded_tx_size(),
    {
        let plane_bsize = match self.subsampled_size(xdec, ydec) {
            Ok(b) => b,
            Err(_) => {
                proof {
                    assert(false);
                }
                BLOCK_4X4
            },
        };
        let chroma_tx_size = plane_bsize.max_txsize_rect();
        chroma_tx_size.coded_tx_size()
    }

    /// Whether the shape is square.
    pub fn is_sqr(self) -> (r: bool)
        ensures
            r == (self.spec_width_log2() == self.spec_height_log2()),
    {
        self.width_log2() == self.height_log2()
    }

    /// Whether the block's chroma, under the given subsampling, falls
    /// below the smallest codable chroma block in some dimension.
    pub fn is_sub8x8(self, xdec: usize, ydec: usize) -> (r: bool)
        ensures
            r == (xdec != 0 && self.spec_width_log2() == 2 || ydec != 0 && self.spec_height_log2()
                == 2),
    {
        xdec != 0 && self.width_log2() == 2 || ydec != 0 && self.height_log2() == 2
    }

    /// Offset, in blocks, from this block to the block whose chroma
    /// covers it when sub-8x8 chroma merging applies.
    pub fn sub8x8_offset(self, xdec: usize, ydec: usize) -> (r: (isize, isize))
        ensures
            r.0 == if xdec != 0 && self.spec_width_log2() == 2 {
                -1
            } else {
                0
            },
            r.1 == if ydec != 0 && self.spec_height_log2() == 2 {
                -1
            } else {
                0
            },
    {
        let offset_x: isize = if xdec != 0 && self.width_log2() == 2 {
            -1
        } else {
            0
        };
        let offset_y: isize = if ydec != 0 && self.height_log2() == 2 {
            -1
        } else {
            0
        };
        (offset_x, offset_y)
    }

    /// The shape of each child block under the given split, where the
    /// split is legal.
    pub open spec fn spec_subsize(self, partition: PartitionType) -> Result<
        BlockSize,
        InvalidBlockSize,
    > {
        match partition {
            PartitionType::PARTITION_NONE => Ok(self),
            PartitionType::PARTITION_SPLIT => match self {
                BLOCK_8X8 => Ok(BLOCK_4X4),
                BLOCK_16X16 => Ok(BLOCK_8X8),
                BLOCK_32X32 => Ok(BLOCK_16X16),
                BLOCK_64X64 => Ok(BLOCK_32X32),
                BLOCK_128X128 => Ok(BLOCK_64X64),
                _ => Err(InvalidBlockSize),
            },
            PartitionType::PARTITION_HORZ | PartitionType::PARTITION_HORZ_A
            | PartitionType::PARTITION_HORZ_B => match self {
                BLOCK_8X8 => Ok(BLOCK_8X4),
                BLOCK_16X16 => Ok(BLOCK_16X8),
                BLOCK_32X32 => Ok(BLOCK_32X16),
                BLOCK_64X64 => Ok(BLOCK_64X32),
                BLOCK_128X128 => Ok(BLOCK_128X64),
                _ => Err(InvalidBlockSize),
            },
            PartitionType::PARTITION_VERT | PartitionType::PARTITION_VERT_A
            | PartitionType::PARTITION_VERT_B => match self {
                BLOCK_8X8 => Ok(BLOCK_4X8),
                BLOCK_16X16 => Ok(BLOCK_8X16),
                BLOCK_32X32 => Ok(BLOCK_16X32),
                BLOCK_64X64 => Ok(BLOCK_32X64),
                BLOCK_128X128 => Ok(BLOCK_64X128),
                _ => Err(InvalidBlockSize),
            },
            PartitionType::PARTITION_HORZ_4 => match self {
                BLOCK_16X16 => Ok(BLOCK_16X4),
                BLOCK_32X32 => Ok(BLOCK_32X8),
                BLOCK_64X64 => Ok(BLOCK_64X16),
                _ => Err(InvalidBlockSize),
            },
            PartitionType::PARTITION_VERT_4 => match self {
                BLOCK_16X16 => Ok(BLOCK_4X16),
                BLOCK_32X32 => Ok(BLOCK_8X32),
                BLOCK_64X64 => Ok(BLOCK_16X64),
                _ => Err(InvalidBlockSize),
            },
            _ => Err(InvalidBlockSize),
        }
    }

    /// See [`BlockSize::spec_subsize`]. `PARTITION_NONE` is the identity;
    /// the two- and four-way splits are legal only on the square shapes
    /// listed there.
    pub fn subsize(self, partition: PartitionType) -> (r: Result<BlockSize, InvalidBlockSize>)
        ensures
            r == self.spec_subsize(partition),
            partition == PartitionType::PARTITION_NONE ==> r == Ok::<
                BlockSize,
                InvalidBlockSize,
            >(self),
    {
        match partition {
            PartitionType::PARTITION_NONE => Ok(self),
            PartitionType::PARTITION_SPLIT => match self {
                BLOCK_8X8 => Ok(BLOCK_4X4),
                BLOCK_16X16 => Ok(BLOCK_8X8),
                BLOCK_32X32 => Ok(BLOCK_16X16),
                BLOCK_64X64 => Ok(BLOCK_32X32),
                BLOCK_128X128 => Ok(BLOCK_64X64),
                _ => Err(InvalidBlockSize),
            },
            PartitionType::PARTITION_HORZ | PartitionType::PARTITION_HORZ_A
            | PartitionType::PARTITION_HORZ_B => match self {
                BLOCK_8X8 => Ok(BLOCK_8X4),
                BLOCK_16X16 => Ok(BLOCK_16X8),
                BLOCK_32X32 => Ok(BLOCK_32X16),
                BLOCK_64X64 => Ok(BLOCK_64X32),
                BLOCK_128X128 => Ok(BLOCK_128X64),
                _ => Err(InvalidBlockSize),
            },
            PartitionType::PARTITION_VERT | PartitionType::PARTITION_VERT_A
            | PartitionType::PARTITION_VERT_B => match self {
                BLOCK_8X8 => Ok(BLOCK_4X8),
                BLOCK_16X16 => Ok(BLOCK_8X16),
                BLOCK_32X32 => Ok(BLOCK_16X32),
                BLOCK_64X64 => Ok(BLOCK_32X64),
                BLOCK_128X128 => Ok(BLOCK_64X128),
                _ => Err(InvalidBlockSize),
            },
            PartitionType::PARTITION_HORZ_4 => match self {
                BLOCK_16X16 => Ok(BLOCK_16X4),
                BLOCK_32X32 => Ok(BLOCK_32X8),
                BLOCK_64X64 => Ok(BLOCK_64X16),
                _ => Err(InvalidBlockSize),
            },
            PartitionType::PARTITION_VERT_4 => match self {
                BLOCK_16X16 => Ok(BLOCK_4X16),
                BLOCK_32X32 => Ok(BLOCK_8X32),
                BLOCK_64X64 => Ok(BLOCK_16X64),
                _ => Err(InvalidBlockSize),
            },
            _ => Err(InvalidBlockSize),
        }
    }

    /// Whether rectangular transform sizes may be signalled for the
    /// shape: they may not for the squares nor for the three largest
    /// shapes.
    pub fn is_rect_tx_allowed(self) -> (r: bool)
        ensures
            r == !(self == BLOCK_4X4 || self == BLOCK_8X8 || self == BLOCK_16X16 || self
                == BLOCK_32X32 || self == BLOCK_64X64 || self == BLOCK_64X128 || self
                == BLOCK_128X64 || self == BLOCK_128X128),
    {
        !matches!(
            self,
            BLOCK_4X4
                | BLOCK_8X8
                | BLOCK_16X16
                | BLOCK_32X32
                | BLOCK_64X64
                | BLOCK_64X128
                | BLOCK_128X64
                | BLOCK_128X128
        )
    }
}

impl PartialOrd for BlockSize {
    /// The dominance order on shapes: one is greater when it is at least
    /// as wide and at least as tall; shapes wider but shorter (or the
    /// reverse) are incomparable.
    fn partial_cmp(&self, other: &Self) -> (r: Option<core::cmp::Ordering>) {
        let w = self.width();
        let h = self.height();
        let ow = other.width();
        let oh = other.height();
        if w == ow && h == oh {
            Some(core::cmp::Ordering::Equal)
        } else if w >= ow && h >= oh {
            Some(core::cmp::Ordering::Greater)
        } else if w <= ow && h <= oh {
            Some(core::cmp::Ordering::Less)
        } else {
            None
        }
    }
}

impl vstd::std_specs::cmp::PartialOrdSpecImpl for BlockSize {
    open spec fn obeys_partial_cmp_spec() -> bool {
        true
    }

    open spec fn partial_cmp_spec(&self, other: &Self) -> Option<core::cmp::Ordering> {
        if self.spec_width() == other.spec_width() && self.spec_height() == other.spec_height() {
            Some(core::cmp::Ordering::Equal)
        } else if self.spec_width() >= other.spec_width() && self.spec_height()
            >= other.spec_height() {
            Some(core::cmp::Ordering::Greater)
        } else if self.spec_width() <= other.spec_width() && self.spec_height()
            <= other.spec_height() {
            Some(core::cmp::Ordering::Less)
        } else {
            None
        }
    }
}

} // verus!

verus! {

impl BlockSize {
    /// Every shape's area is the product of its dimensions, and each
    /// dimension is reconstructed from its base-2 logarithm by a shift.
    pub proof fn lemma_dims_pow2(self)
        ensures
            self.spec_area() == self.spec_width() * self.spec_height(),
            (1usize << self.spec_width_log2()) == self.spec_width(),
            (1usize << self.spec_height_log2()) == self.spec_height(),
    {
        let lw = self.spec_width_log2();
        let lh = self.spec_height_log2();
        assert((lw == 2 ==> (1usize << lw) == 4usize) && (lw == 3 ==> (1usize << lw)
            == 8usize) && (lw == 4 ==> (1usize << lw) == 16usize) && (lw == 5 ==> (1usize
            << lw) == 32usize) && (lw == 6 ==> (1usize << lw) == 64usize) && (lw == 7 ==> (
        1usize << lw) == 128usize)) by (bit_vector);
        assert((lh == 2 ==> (1usize << lh) == 4usize) && (lh == 3 ==> (1usize << lh)
            == 8usize) && (lh == 4 ==> (1usize << lh) == 16usize) && (lh == 5 ==> (1usize
            << lh) == 32usize) && (lh == 6 ==> (1usize << lh) == 64usize) && (lh == 7 ==> (
        1usize << lh) == 128usize)) by (bit_vector);
        match self {
            BLOCK_4X4 => {
                assert(lw == 2 && lh == 2);
                assert((1usize << lw) == 4usize && (1usize << lh) == 4usize);
                assert(self.spec_width() == 4 && self.spec_height() == 4);
                assert(self.spec_area() == 16);
            },
            BLOCK_4X8 => {
                assert(lw == 2 && lh == 3);
                assert((1usize << lw) == 4usize && (1usize << lh) == 8usize);
                assert(self.spec_width() == 4 && self.spec_height() == 8);
                assert(self.spec_area() == 32);
            },
            BLOCK_8X4 => {
                assert(lw == 3 && lh == 2);
                assert((1usize << lw) == 8usize && (1usize << lh) == 4usize);
                assert(self.spec_width() == 8 && self.spec_height() == 4);
                assert(self.spec_area() == 32);
            },
            BLOCK_8X8 => {
                assert(lw == 3 && lh == 3);
                assert((1usize << lw) == 8usize && (1usize << lh) == 8usize);
                assert(self.spec_width() == 8 && self.spec_height() == 8);
                assert(self.spec_area() == 64);
            },
            BLOCK_8X16 => {
                assert(lw == 3 && lh == 4);
                assert((1usize << lw) == 8usize && (1usize << lh) == 16usize);
                assert(self.spec_width() == 8 && self.spec_height() == 16);
                assert(self.spec_area() == 128);
            },
            BLOCK_16X8 => {
                assert(lw == 4 && lh == 3);
                assert((1usize << lw) == 16usize && (1usize << lh) == 8usize);
                assert(self.spec_width() == 16 && self.spec_height() == 8);
                assert(self.spec_area() == 128);
            },
            BLOCK_16X16 => {
                assert(lw == 4 && lh == 4);
                assert((1usize << lw) == 16usize && (1usize << lh) == 16usize);
                assert(self.spec_width() == 16 && self.spec_height() == 16);
                assert(self.spec_area() == 256);
            },
            BLOCK_16X32 => {
                assert(lw == 4 && lh == 5);
                assert((1usize << lw) == 16usize && (1usize << lh) == 32usize);
                assert(self.spec_width() == 16 && self.spec_height() == 32);
                assert(self.spec_area() == 512);
            },
            BLOCK_32X16 => {
                assert(lw == 5 && lh == 4);
                assert((1usize << lw) == 32usize && (1usize << lh) == 16usize);
                assert(self.spec_width() == 32 && self.spec_height() == 16);
                assert(self.spec_area() == 512);
            },
            BLOCK_32X32 => {
                assert(lw == 5 && lh == 5);
                assert((1usize << lw) == 32usize && (1usize << lh) == 32usize);
                assert(self.spec_width() == 32 && self.spec_height() == 32);
                assert(self.spec_area() == 1024);
            },
            BLOCK_32X64 => {
                assert(lw == 5 && lh == 6);
                assert((1usize << lw) == 32usize && (1usize << lh) == 64usize);
                assert(self.spec_width() == 32 && self.spec_height() == 64);
                assert(self.spec_area() == 2048);
            },
            BLOCK_64X32 => {
                assert(lw == 6 && lh == 5);
                assert((1usize << lw) == 64usize && (1usize << lh) == 32usize);
                assert(self.spec_width() == 64 && self.spec_height() == 32);
                assert(self.spec_area() == 2048);
            },
            BLOCK_64X64 => {
                assert(lw == 6 && lh == 6);
                assert((1usize << lw) == 64usize && (1usize << lh) == 64usize);
                assert(self.spec_width() == 64 && self.spec_height() == 64);
                assert(self.spec_area() == 4096);
            },
            BLOCK_64X128 => {
                assert(lw == 6 && lh == 7);
                assert((1usize << lw) == 64usize && (1usize << lh) == 128usize);
                assert(self.spec_width() == 64 && self.spec_height() == 128);
                assert(self.spec_area() == 8192);
            },
            BLOCK_128X64 => {
                assert(lw == 7 && lh == 6);
                assert((1usize << lw) == 128usize && (1usize << lh) == 64usize);
                assert(self.spec_width() == 128 && self.spec_height() == 64);
                assert(self.spec_area() == 8192);
            },
            BLOCK_128X128 => {
                assert(lw == 7 && lh == 7);
                assert((1usize << lw) == 128usize && (1usize << lh) == 128usize);
                assert(self.spec_width() == 128 && self.spec_height() == 128);
                assert(self.spec_area() == 16384);
            },
            BLOCK_4X16 => {
                assert(lw == 2 && lh == 4);
                assert((1usize << lw) == 4usize && (1usize << lh) == 16usize);
                assert(self.spec_width() == 4 && self.spec_height() == 16);
                assert(self.spec_area() == 64);
            },
            BLOCK_16X4 => {
                assert(lw == 4 && lh == 2);
                assert((1usize << lw) == 16usize && (1usize << lh) == 4usize);
                assert(self.spec_width() == 16 && self.spec_height() == 4);
                assert(self.spec_area() == 64);
            },
            BLOCK_8X32 => {
                assert(lw == 3 && lh == 5);
                assert((1usize << lw) == 8usize && (1usize << lh) == 32usize);
                assert(self.spec_width() == 8 && self.spec_height() == 32);
                assert(self.spec_area() == 256);
            },
            BLOCK_32X8 => {
                assert(lw == 5 && lh == 3);
                assert((1usize << lw) == 32usize && (1usize << lh) == 8usize);
                assert(self.spec_width() == 32 && self.spec_height() == 8);
                assert(self.spec_area() == 256);
            },
            BLOCK_16X64 => {
                assert(lw == 4 && lh == 6);
                assert((1usize << lw) == 16usize && (1usize << lh) == 64usize);
                assert(self.spec_width() == 16 && self.spec_height() == 64);
                assert(self.spec_area() == 1024);
            },
            BLOCK_64X16 => {
                assert(lw == 6 && lh == 4);
                assert((1usize << lw) == 64usize && (1usize << lh) == 16usize);
                assert(self.spec_width() == 64 && self.spec_height() == 16);
                assert(self.spec_area() == 1024);
            },
        }
    }

    /// The dimension-keyed constructor recovers every shape from its own
    /// width and height: together with the constructor's contract, the
    /// shapes are in one-to-one correspondence with their dimension
    /// pairs.
    pub proof fn lemma_from_own_dims(self)
        ensures
            BlockSize::spec_from_width_and_height(self.spec_width(), self.spec_height()) == Some(
                self,
            ),
    {
        match self {
            BLOCK_4X4 => {
                assert(self.spec_width() == 4 && self.spec_height() == 4);
                assert(BlockSize::spec_from_width_and_height(4, 4) == Some(BLOCK_4X4));
            },
            BLOCK_4X8 => {
                assert(self.spec_width() == 4 && self.spec_height() == 8);
                assert(BlockSize::spec_from_width_and_height(4, 8) == Some(BLOCK_4X8));
            },
            BLOCK_8X4 => {
                assert(self.spec_width() == 8 && self.spec_height() == 4);
                assert(BlockSize::spec_from_width_and_height(8, 4) == Some(BLOCK_8X4));
            },
            BLOCK_8X8 => {
                assert(self.spec_width() == 8 && self.spec_height() == 8);
                assert(BlockSize::spec_from_width_and_height(8, 8) == Some(BLOCK_8X8));
            },
            BLOCK_8X16 => {
                assert(self.spec_width() == 8 && self.spec_height() == 16);
                assert(BlockSize::spec_from_width_and_height(8, 16) == Some(BLOCK_8X16));
            },
            BLOCK_16X8 => {
                assert(self.spec_width() == 16 && self.spec_height() == 8);
                assert(BlockSize::spec_from_width_and_height(16, 8) == Some(BLOCK_16X8));
            },
            BLOCK_16X16 => {
                assert(self.spec_width() == 16 && self.spec_height() == 16);
                assert(BlockSize::spec_from_width_and_height(16, 16) == Some(BLOCK_16X16));
            },
            BLOCK_16X32 => {
                assert(self.spec_width() == 16 && self.spec_height() == 32);
                assert(BlockSize::spec_from_width_and_height(16, 32) == Some(BLOCK_16X32));
            },
            BLOCK_32X16 => {
                assert(self.spec_width() == 32 && self.spec_height() == 16);
                assert(BlockSize::spec_from_width_and_height(32, 16) == Some(BLOCK_32X16));
            },
            BLOCK_32X32 => {
                assert(self.spec_width() == 32 && self.spec_height() == 32);
                assert(BlockSize::spec_from_width_and_height(32, 32) == Some(BLOCK_32X32));
            },
            BLOCK_32X64 => {
                assert(self.spec_width() == 32 && self.spec_height() == 64);
                assert(BlockSize::spec_from_width_and_height(32, 64) == Some(BLOCK_32X64));
            },
            BLOCK_64X32 => {
                assert(self.spec_width() == 64 && self.spec_height() == 32);
                assert(BlockSize::spec_from_width_and_height(64, 32) == Some(BLOCK_64X32));
            },
            BLOCK_64X64 => {
                assert(self.spec_width() == 64 && self.spec_height() == 64);
                assert(BlockSize::spec_from_width_and_height(64, 64) == Some(BLOCK_64X64));
            },
            BLOCK_64X128 => {
                assert(self.spec_width() == 64 && self.spec_height() == 128);
                assert(BlockSize::spec_from_width_and_height(64, 128) == Some(BLOCK_64X128));
            },
            BLOCK_128X64 => {
                assert(self.spec_width() == 128 && self.spec_height() == 64);
                assert(BlockSize::spec_from_width_and_height(128, 64) == Some(BLOCK_128X64));
            },
            BLOCK_128X128 => {
                assert(self.spec_width() == 128 && self.spec_height() == 128);
                assert(BlockSize::spec_from_width_and_height(128, 128) == Some(BLOCK_128X128));
            },
            BLOCK_4X16 => {
                assert(self.spec_width() == 4 && self.spec_height() == 16);
                assert(BlockSize::spec_from_width_and_height(4, 16) == Some(BLOCK_4X16));
            },
            BLOCK_16X4 => {
                assert(self.spec_width() == 16 && self.spec_height() == 4);
                assert(BlockSize::spec_from_width_and_height(16, 4) == Some(BLOCK_16X4));
            },
            BLOCK_8X32 => {
                assert(self.spec_width() == 8 && self.spec_height() == 32);
                assert(BlockSize::spec_from_width_and_height(8, 32) == Some(BLOCK_8X32));
            },
            BLOCK_32X8 => {
                assert(self.spec_width() == 32 && self.spec_height() == 8);
                assert(BlockSize::spec_from_width_and_height(32, 8) == Some(BLOCK_32X8));
            },
            BLOCK_16X64 => {
                assert(self.spec_width() == 16 && self.spec_height() == 64);
                assert(BlockSize::spec_from_width_and_height(16, 64) == Some(BLOCK_16X64));
            },
            BLOCK_64X16 => {
                assert(self.spec_width() == 64 && self.spec_height() == 16);
                assert(BlockSize::spec_from_width_and_height(64, 16) == Some(BLOCK_64X16));
            },
        }
    }
}

} // verus!

verus! {

impl BlockSize {
    /// The conventional `width x height` name of the shape.
    pub open spec fn spec_label(self) -> Seq<char> {
        match self {
            BLOCK_4X4 => "4x4"@,
            BLOCK_4X8 => "4x8"@,
            BLOCK_8X4 => "8x4"@,
            BLOCK_8X8 => "8x8"@,
            BLOCK_8X16 => "8x16"@,
            BLOCK_16X8 => "16x8"@,
            BLOCK_16X16 => "16x16"@,
            BLOCK_16X32 => "16x32"@,
            BLOCK_32X16 => "32x16"@,
            BLOCK_32X32 => "32x32"@,
            BLOCK_32X64 => "32x64"@,
            BLOCK_64X32 => "64x32"@,
            BLOCK_64X64 => "64x64"@,
            BLOCK_64X128 => "64x128"@,
            BLOCK_128X64 => "128x64"@,
            BLOCK_128X128 => "128x128"@,
            BLOCK_4X16 => "4x16"@,
            BLOCK_16X4 => "16x4"@,
            BLOCK_8X32 => "8x32"@,
            BLOCK_32X8 => "32x8"@,
            BLOCK_16X64 => "16x64"@,
            BLOCK_64X16 => "64x16"@,
        }
    }

    /// See [`BlockSize::spec_label`].
    pub fn label(self) -> (r: &'static str)
        ensures
            r@ == self.spec_label(),
    {
        match self {
            BLOCK_4X4 => "4x4",
            BLOCK_4X8 => "4x8",
            BLOCK_8X4 => "8x4",
            BLOCK_8X8 => "8x8",
            BLOCK_8X16 => "8x16",
            BLOCK_16X8 => "16x8",
            BLOCK_16X16 => "16x16",
            BLOCK_16X32 => "16x32",
            BLOCK_32X16 => "32x16",
            BLOCK_32X32 => "32x32",
            BLOCK_32X64 => "32x64",
            BLOCK_64X32 => "64x32",
            BLOCK_64X64 => "64x64",
            BLOCK_64X128 => "64x128",
            BLOCK_128X64 => "128x64",
            BLOCK_128X128 => "128x128",
            BLOCK_4X16 => "4x16",
            BLOCK_16X4 => "16x4",
            BLOCK_8X32 => "8x32",
            BLOCK_32X8 => "32x8",
            BLOCK_16X64 => "16x64",
            BLOCK_64X16 => "64x16",
        }
    }
}

impl InvalidBlockSize {
    /// The message a caller reports for the failure.
    pub fn label(self) -> (r: &'static str)
        ensures
            r@ == "invalid block size"@,
    {
        "invalid block size"
    }
}

} // verus!
