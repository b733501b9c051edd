//! Plain-value models of the pixel-plane geometry the library reads: a
//! pixel offset, a plane's layout, and a rectangular window of pixels.

use vstd::prelude::*;

verus! {

/// An absolute pixel position inside a plane.
#[derive(Copy, Clone, Debug, PartialEq, Eq, Structural)]
pub struct PlaneOffset {
    pub x: isize,
    pub y: isize,
}

/// The layout of one colour plane: pixel dimensions and the chroma
/// decimation applied to each axis (0 for none, 1 for halved).
#[derive(Copy, Clone, Debug, PartialEq, Eq, Structural)]
pub struct PlaneConfig {
    pub width: usize,
    pub height: usize,
    pub xdec: usize,
    pub ydec: usize,
}

/// A rectangular window of reconstructed pixels inside a plane, with the
/// plane's configuration. Samples are held row-major; a sample is a plain
/// unsigned value wide enough for any supported bit depth.
pub struct PlaneRegion {
    /// Row-major samples of the window, `rect_w * rect_h` of them.
    pub data: Vec<u16>,
    /// Width of the window, in pixels.
    pub rect_w: usize,
    /// Height of the window, in pixels.
    pub rect_h: usize,
    /// Position of the window's top-left corner inside the plane.
    pub rect_x: usize,
    pub rect_y: usize,
    /// The plane the window was cut from.
    pub plane_cfg: PlaneConfig,
}

impl PlaneRegion {
    /// The window holds exactly one sample per pixel and starts inside
    /// its plane; it may extend into the plane's padding on the right and
    /// bottom.
    pub open spec fn wf(&self) -> bool {
        &&& self.data@.len() == self.rect_w * self.rect_h
        &&& self.rect_x <= self.plane_cfg.width
        &&& self.rect_y <= self.plane_cfg.height
        &&& self.plane_cfg.width <= 0x7fffffff
        &&& self.plane_cfg.height <= 0x7fffffff
    }

    /// Width of the window's part that lies inside the coded picture.
    pub open spec fn spec_visible_w(&self) -> usize {
        if self.rect_w <= self.plane_cfg.width - self.rect_x {
            self.rect_w
        } else {
            (self.plane_cfg.width - self.rect_x) as usize
        }
    }

    /// Height of the window's part that lies inside the coded picture.
    pub open spec fn spec_visible_h(&self) -> usize {
        if self.rect_h <= self.plane_cfg.height - self.rect_y {
            self.rect_h
        } else {
            (self.plane_cfg.height - self.rect_y) as usize
        }
    }

    /// The sample at column `x` of row `y` of the window.
    pub open spec fn spec_px(&self, y: int, x: int) -> u16 {
        self.data@[y * self.rect_w + x]
    }

    /// See [`PlaneRegion::spec_px`].
    pub fn px(&self, y: usize, x: usize) -> (r: u16)
        requires
            self.wf(),
            y < self.rect_h,
            x < self.rect_w,
        ensures
            r == self.spec_px(y as int, x as int),
    {
        let n = self.data.len();
        proof {
            assert(n == self.rect_w * self.rect_h);
            vstd::arithmetic::mul::lemma_mul_inequality(
                y as int + 1,
                self.rect_h as int,
                self.rect_w as int,
            );
            vstd::arithmetic::mul::lemma_mul_is_distributive_add_other_way(
                self.rect_w as int,
                y as int,
                1,
            );
            vstd::arithmetic::mul::lemma_mul_is_commutative(y as int, self.rect_w as int);
            vstd::arithmetic::mul::lemma_mul_is_commutative(self.rect_h as int, self.rect_w as int);
            assert(y * self.rect_w + x < n);
        }
        self.data[y * self.rect_w + x]
    }
}

} // verus!
