//! Transform block sizes: 5 squares, 8 two-to-one rectangles and 6
//! four-to-one rectangles, with their derived dimensions and the square
//! sizes that bound them from below and above.
#![allow(non_camel_case_types)]

use vstd::prelude::*;

verus! {

use crate::tx_size::TxSize::{
    TX_4X4, TX_8X8, TX_16X16, TX_32X32, TX_64X64, TX_4X8, TX_8X4, TX_8X16, TX_16X8, TX_16X32,
    TX_32X16, TX_32X64, TX_64X32, TX_4X16, TX_16X4, TX_8X32, TX_32X8, TX_16X64, TX_64X16,
};

/// Number of square transform sizes.
pub const TX_SIZES: usize = 5;

/// Number of transform sizes, non-square sizes included.
pub const TX_SIZES_ALL: usize = 19;

#[derive(Copy, Clone, Debug, PartialEq, Eq, Structural)]
pub enum TxSize {
    TX_4X4,
    TX_8X8,
    TX_16X16,
    TX_32X32,
    TX_64X64,

    TX_4X8,
    TX_8X4,
    TX_8X16,
    TX_16X8,
    TX_16X32,
    TX_32X16,
    TX_32X64,
    TX_64X32,

    TX_4X16,
    TX_16X4,
    TX_8X32,
    TX_32X8,
    TX_16X64,
    TX_64X16,
}

impl TxSize {
    /// Position of the variant in the declaration order, the index used by
    /// every table keyed by transform size.
    pub open spec fn spec_ordinal(self) -> int {
        match self {
            TX_4X4 => 0,
            TX_8X8 => 1,
            TX_16X16 => 2,
            TX_32X32 => 3,
            TX_64X64 => 4,
            TX_4X8 => 5,
            TX_8X4 => 6,
            TX_8X16 => 7,
            TX_16X8 => 8,
            TX_16X32 => 9,
            TX_32X16 => 10,
            TX_32X64 => 11,
            TX_64X32 => 12,
            TX_4X16 => 13,
            TX_16X4 => 14,
            TX_8X32 => 15,
            TX_32X8 => 16,
            TX_16X64 => 17,
            TX_64X16 => 18,
        }
    }

    /// See [`TxSize::spec_ordinal`].
    pub fn ordinal(self) -> (r: usize)
        ensures
            r == self.spec_ordinal(),
            r < TX_SIZES_ALL,
    {
        match self {
            TX_4X4 => 0,
            TX_8X8 => 1,
            TX_16X16 => 2,
            TX_32X32 => 3,
            TX_64X64 => 4,
            TX_4X8 => 5,
            TX_8X4 => 6,
            TX_8X16 => 7,
            TX_16X8 => 8,
            TX_16X32 => 9,
            TX_32X16 => 10,
            TX_32X64 => 11,
            TX_64X32 => 12,
            TX_4X16 => 13,
            TX_16X4 => 14,
            TX_8X32 => 15,
            TX_32X8 => 16,
            TX_16X64 => 17,
            TX_64X16 => 18,
        }
    }

    pub open spec fn spec_width_log2(self) -> usize {
        match self {
            TX_4X4 | TX_4X8 | TX_4X16 => 2,
            TX_8X8 | TX_8X4 | TX_8X16 | TX_8X32 => 3,
            TX_16X16 | TX_16X8 | TX_16X32 | TX_16X4 | TX_16X64 => 4,
            TX_32X32 | TX_32X16 | TX_32X64 | TX_32X8 => 5,
            TX_64X64 | TX_64X32 | TX_64X16 => 6,
        }
    }

    pub open spec fn spec_width(self) -> usize {
        match self {
            TX_4X4 | TX_4X8 | TX_4X16 => 4,
            TX_8X8 | TX_8X4 | TX_8X16 | TX_8X32 => 8,
            TX_16X16 | TX_16X8 | TX_16X32 | TX_16X4 | TX_16X64 => 16,
            TX_32X32 | TX_32X16 | TX_32X64 | TX_32X8 => 32,
            TX_64X64 | TX_64X32 | TX_64X16 => 64,
        }
    }

    pub open spec fn spec_height_log2(self) -> usize {
        match self {
            TX_4X4 | TX_8X4 | TX_16X4 => 2,
            TX_8X8 | TX_4X8 | TX_16X8 | TX_32X8 => 3,
            TX_16X16 | TX_8X16 | TX_32X16 | TX_4X16 | TX_64X16 => 4,
            TX_32X32 | TX_16X32 | TX_64X32 | TX_8X32 => 5,
            TX_64X64 | TX_32X64 | TX_16X64 => 6,
        }
    }

    pub open spec fn spec_height(self) -> usize {
        match self {
            TX_4X4 | TX_8X4 | TX_16X4 => 4,
            TX_8X8 | TX_4X8 | TX_16X8 | TX_32X8 => 8,
            TX_16X16 | TX_8X16 | TX_32X16 | TX_4X16 | TX_64X16 => 16,
            TX_32X32 | TX_16X32 | TX_64X32 | TX_8X32 => 32,
            TX_64X64 | TX_32X64 | TX_16X64 => 64,
        }
    }

    pub fn width(self) -> (r: usize)
        ensures
            r == self.spec_width(),
    {
        match self {
            TX_4X4 | TX_4X8 | TX_4X16 => 4,
            TX_8X8 | TX_8X4 | TX_8X16 | TX_8X32 => 8,
            TX_16X16 | TX_16X8 | TX_16X32 | TX_16X4 | TX_16X64 => 16,
            TX_32X32 | TX_32X16 | TX_32X64 | TX_32X8 => 32,
            TX_64X64 | TX_64X32 | TX_64X16 => 64,
        }
    }

    pub fn width_log2(self) -> (r: usize)
        ensures
            r == self.spec_width_log2(),
    {
        match self {
            TX_4X4 | TX_4X8 | TX_4X16 => 2,
            TX_8X8 | TX_8X4 | TX_8X16 | TX_8X32 => 3,
            TX_16X16 | TX_16X8 | TX_16X32 | TX_16X4 | TX_16X64 => 4,
            TX_32X32 | TX_32X16 | TX_32X64 | TX_32X8 => 5,
            TX_64X64 | TX_64X32 | TX_64X16 => 6,
        }
    }

    /// Width class of the transform, 0 for width 4 up to 4 for width 64.
    pub fn width_index(self) -> (r: usize)
        ensures
            r == self.spec_width_log2() - 2,
    {
        self.width_log2() - 2
    }

    pub fn height(self) -> (r: usize)
        ensures
            r == self.spec_height(),
    {
        match self {
            TX_4X4 | TX_8X4 | TX_16X4 => 4,
            TX_8X8 | TX_4X8 | TX_16X8 | TX_32X8 => 8,
            TX_16X16 | TX_8X16 | TX_32X16 | TX_4X16 | TX_64X16 => 16,
            TX_32X32 | TX_16X32 | TX_64X32 | TX_8X32 => 32,
            TX_64X64 | TX_32X64 | TX_16X64 => 64,
        }
    }

    pub fn height_log2(self) -> (r: usize)
        ensures
            r == self.spec_height_log2(),
    {
        match self {
            TX_4X4 | TX_8X4 | TX_16X4 => 2,
            TX_8X8 | TX_4X8 | TX_16X8 | TX_32X8 => 3,
            TX_16X16 | TX_8X16 | TX_32X16 | TX_4X16 | TX_64X16 => 4,
            TX_32X32 | TX_16X32 | TX_64X32 | TX_8X32 => 5,
            TX_64X64 | TX_32X64 | TX_16X64 => 6,
        }
    }

    /// Height class of the transform, 0 for height 4 up to 4 for height 64.
    pub fn height_index(self) -> (r: usize)
        ensures
            r == self.spec_height_log2() - 2,
    {
        self.height_log2() - 2
    }

    pub open spec fn spec_area(self) -> usize {
        (self.spec_width() * self.spec_height()) as usize
    }

    /// Number of pixels covered by the transform block.
    pub fn area(self) -> (r: usize)
        ensures
            r == self.spec_area(),
            r == (1usize << self.spec_area_log2()),
    {
        let r = 1usize << self.area_log2();
        proof {
            self.lemma_area_pow2();
        }
        r
    }

    pub open spec fn spec_area_log2(self) -> usize {
        (self.spec_width_log2() + self.spec_height_log2()) as usize
    }

    pub fn area_log2(self) -> (r: usize)
        ensures
            r == self.spec_area_log2(),
    {
        self.width_log2() + self.height_log2()
    }

    /// The area is the power of two given by the summed dimension logarithms.
    #[verifier::rlimit(50)]
    pub proof fn lemma_area_pow2(self)
        ensures
            (1usize << self.spec_area_log2()) == self.spec_area(),
    {
        let l = self.spec_area_log2();
        assert((l == 4 ==> (1usize << l) == 16usize) && (l == 5 ==> (1usize << l) == 32usize) && (
        l == 6 ==> (1usize << l) == 64usize) && (l == 7 ==> (1usize << l) == 128usize) && (l == 8
            ==> (1usize << l) == 256usize) && (l == 9 ==> (1usize << l) == 512usize) && (l == 10
            ==> (1usize << l) == 1024usize) && (l == 11 ==> (1usize << l) == 2048usize) && (l == 12
            ==> (1usize << l) == 4096usize)) by (bit_vector);
        match self {
            TX_4X4 => {
                assert(l == 4);
                assert((1usize << l) == 16usize);
                assert(self.spec_width() == 4 && self.spec_height() == 4);
                assert(self.spec_area() == 16);
            },
            TX_4X8 => {
                assert(l == 5);
                assert((1usize << l) == 32usize);
                assert(self.spec_width() == 4 && self.spec_height() == 8);
                assert(self.spec_area() == 32);
            },
            TX_8X4 => {
                assert(l == 5);
                assert((1usize << l) == 32usize);
                assert(self.spec_width() == 8 && self.spec_height() == 4);
                assert(self.spec_area() == 32);
            },
            TX_8X8 => {
                assert(l == 6);
                assert((1usize << l) == 64usize);
                assert(self.spec_width() == 8 && self.spec_height() == 8);
                assert(self.spec_area() == 64);
            },
            TX_4X16 => {
                assert(l == 6);
                assert((1usize << l) == 64usize);
                assert(self.spec_width() == 4 && self.spec_height() == 16);
                assert(self.spec_area() == 64);
            },
            TX_16X4 => {
                assert(l == 6);
                assert((1usize << l) == 64usize);
                assert(self.spec_width() == 16 && self.spec_height() == 4);
                assert(self.spec_area() == 64);
            },
            TX_8X16 => {
                assert(l == 7);
                assert((1usize << l) == 128usize);
                assert(self.spec_width() == 8 && self.spec_height() == 16);
                assert(self.spec_area() == 128);
            },
            TX_16X8 => {
                assert(l == 7);
                assert((1usize << l) == 128usize);
                assert(self.spec_width() == 16 && self.spec_height() == 8);
                assert(self.spec_area() == 128);
            },
            TX_16X16 => {
                assert(l == 8);
                assert((1usize << l) == 256usize);
                assert(self.spec_width() == 16 && self.spec_height() == 16);
                assert(self.spec_area() == 256);
            },
            TX_8X32 => {
                assert(l == 8);
                assert((1usize << l) == 256usize);
                assert(self.spec_width() == 8 && self.spec_height() == 32);
                assert(self.spec_area() == 256);
            },
            TX_32X8 => {
                assert(l == 8);
                assert((1usize << l) == 256usize);
                assert(self.spec_width() == 32 && self.spec_height() == 8);
                assert(self.spec_area() == 256);
            },
            TX_16X32 => {
                assert(l == 9);
                assert((1usize << l) == 512usize);
                assert(self.spec_width() == 16 && self.spec_height() == 32);
                assert(self.spec_area() == 512);
            },
            TX_32X16 => {
                assert(l == 9);
                assert((1usize << l) == 512usize);
                assert(self.spec_width() == 32 && self.spec_height() == 16);
                assert(self.spec_area() == 512);
            },
            TX_32X32 => {
                assert(l == 10);
                assert((1usize << l) == 1024usize);
                assert(self.spec_width() == 32 && self.spec_height() == 32);
                assert(self.spec_area() == 1024);
            },
            TX_16X64 => {
                assert(l == 10);
                assert((1usize << l) == 1024usize);
                assert(self.spec_width() == 16 && self.spec_height() == 64);
                assert(self.spec_area() == 1024);
            },
            TX_64X16 => {
                assert(l == 10);
                assert((1usize << l) == 1024usize);
                assert(self.spec_width() == 64 && self.spec_height() == 16);
                assert(self.spec_area() == 1024);
            },
            TX_32X64 => {
                assert(l == 11);
                assert((1usize << l) == 2048usize);
                assert(self.spec_width() == 32 && self.spec_height() == 64);
                assert(self.spec_area() == 2048);
            },
            TX_64X32 => {
                assert(l == 11);
                assert((1usize << l) == 2048usize);
                assert(self.spec_width() == 64 && self.spec_height() == 32);
                assert(self.spec_area() == 2048);
            },
            TX_64X64 => {
                assert(l == 12);
                assert((1usize << l) == 4096usize);
                assert(self.spec_width() == 64 && self.spec_height() == 64);
                assert(self.spec_area() == 4096);
            },
        }
    }

    /// The largest square transform size no bigger than either dimension.
    pub open spec fn spec_sqr(self) -> TxSize {
        match self {
            TX_4X4 | TX_4X8 | TX_8X4 | TX_4X16 | TX_16X4 => TX_4X4,
            TX_8X8 | TX_8X16 | TX_16X8 | TX_8X32 | TX_32X8 => TX_8X8,
            TX_16X16 | TX_16X32 | TX_32X16 | TX_16X64 | TX_64X16 => TX_16X16,
            TX_32X32 | TX_32X64 | TX_64X32 => TX_32X32,
            TX_64X64 => TX_64X64,
        }
    }

    /// See [`TxSize::spec_sqr`].
    pub fn sqr(self) -> (r: TxSize)
        ensures
            r == self.spec_sqr(),
            r.spec_width_log2() == r.spec_height_log2(),
            r.spec_width_log2() <= self.spec_width_log2(),
            r.spec_height_log2() <= self.spec_height_log2(),
            r.spec_width_log2() == self.spec_width_log2() || r.spec_height_log2()
                == self.spec_height_log2(),
    {
        match self {
            TX_4X4 | TX_4X8 | TX_8X4 | TX_4X16 | TX_16X4 => TX_4X4,
            TX_8X8 | TX_8X16 | TX_16X8 | TX_8X32 | TX_32X8 => TX_8X8,
            TX_16X16 | TX_16X32 | TX_32X16 | TX_16X64 | TX_64X16 => TX_16X16,
            TX_32X32 | TX_32X64 | TX_64X32 => TX_32X32,
            TX_64X64 => TX_64X64,
        }
    }

    /// The smallest square transform size that encloses the shape.
    pub open spec fn spec_sqr_up(self) -> TxSize {
        match self {
            TX_4X4 => TX_4X4,
            TX_8X8 | TX_4X8 | TX_8X4 => TX_8X8,
            TX_16X16 | TX_8X16 | TX_16X8 | TX_4X16 | TX_16X4 => TX_16X16,
            TX_32X32 | TX_16X32 | TX_32X16 | TX_8X32 | TX_32X8 => TX_32X32,
            TX_64X64 | TX_32X64 | TX_64X32 | TX_16X64 | TX_64X16 => TX_64X64,
        }
    }

    /// See [`TxSize::spec_sqr_up`].
    pub fn sqr_up(self) -> (r: TxSize)
        ensures
            r == self.spec_sqr_up(),
            r.spec_width_log2() == r.spec_height_log2(),
            r.spec_width_log2() >= self.spec_width_log2(),
            r.spec_height_log2() >= self.spec_height_log2(),
            r.spec_width_log2() == self.spec_width_log2() || r.spec_height_log2()
                == self.spec_height_log2(),
    {
        match self {
            TX_4X4 => TX_4X4,
            TX_8X8 | TX_4X8 | TX_8X4 => TX_8X8,
            TX_16X16 | TX_8X16 | TX_16X8 | TX_4X16 | TX_16X4 => TX_16X16,
            TX_32X32 | TX_16X32 | TX_32X16 | TX_8X32 | TX_32X8 => TX_32X32,
            TX_64X64 | TX_32X64 | TX_64X32 | TX_16X64 | TX_64X16 => TX_64X64,
        }
    }

    /// The unique transform size with the given pixel dimensions. Only the
    /// 19 (width, height) pairs of the enumeration are accepted.
    pub fn by_dims(w: usize, h: usize) -> (r: TxSize)
        requires
            exists|t: TxSize| t.spec_width() == w && t.spec_height() == h,
        ensures
            r.spec_width() == w,
            r.spec_height() == h,
    {
        match (w, h) {
            (4, 4) => TX_4X4,
            (8, 8) => TX_8X8,
            (16, 16) => TX_16X16,
            (32, 32) => TX_32X32,
            (64, 64) => TX_64X64,
            (4, 8) => TX_4X8,
            (8, 4) => TX_8X4,
            (8, 16) => TX_8X16,
            (16, 8) => TX_16X8,
            (16, 32) => TX_16X32,
            (32, 16) => TX_32X16,
            (32, 64) => TX_32X64,
            (64, 32) => TX_64X32,
            (4, 16) => TX_4X16,
            (16, 4) => TX_16X4,
            (8, 32) => TX_8X32,
            (32, 8) => TX_32X8,
            (16, 64) => TX_16X64,
            (64, 16) => TX_64X16,
            _ => {
                proof {
                    let t = choose|t: TxSize| t.spec_width() == w && t.spec_height() == h;
                    assert(false);
                }
                TX_4X4
            },
        }
    }

    /// Size at which the transform's coefficients are actually coded:
    /// any dimension of 64 is halved to 32, since the upper coefficients
    /// of a 64-point transform are never signalled.
    pub open spec fn spec_coded_tx_size(self) -> TxSize {
        match self {
            TX_64X64 => TX_32X32,
            TX_64X32 => TX_32X32,
            TX_32X64 => TX_32X32,
            TX_16X64 => TX_16X32,
            TX_64X16 => TX_32X16,
            _ => self,
        }
    }

    /// See [`TxSize::spec_coded_tx_size`].
    pub fn coded_tx_size(self) -> (r: TxSize)
        ensures
            r == self.spec_coded_tx_size(),
            r.spec_width() == vstd::math::min(self.spec_width() as int, 32int),
            r.spec_height() == vstd::math::min(self.spec_height() as int, 32int),
    {
        match self {
            TX_64X64 => TX_32X32,
            TX_64X32 => TX_32X32,
            TX_32X64 => TX_32X32,
            TX_16X64 => TX_16X32,
            TX_64X16 => TX_32X16,
            _ => self,
        }
    }

    /// Whether the transform is rectangular rather than square.
    pub fn is_rect(self) -> (r: bool)
        ensures
            r == (self.spec_width_log2() != self.spec_height_log2()),
    {
        self.width_log2() != self.height_log2()
    }
}

} // verus!
