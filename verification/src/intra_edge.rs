//! Assembly of the neighbouring-pixel context for intra prediction: which
//! of the left, top-left, above, top-right and bottom-left samples a mode
//! needs, and the padded spans handed to the predictors.
#![allow(non_camel_case_types)]

use vstd::prelude::*;

verus! {

use crate::block_size::BlockSize;
use crate::block_unit::TileBlockOffset;
use crate::frame::{PlaneOffset, PlaneRegion};
use crate::partition::{spec_has_bl, spec_has_tr, spec_supersample_chroma_bsize};
use crate::partition::{has_bl, has_tr, supersample_chroma_bsize};
use crate::tx_size::TxSize;

/// Largest transform dimension, in pixels.
pub const MAX_TX_SIZE: usize = 64;

/// Granularity of a signalled angle delta, in degrees.
pub const ANGLE_STEP: usize = 3;

/// The intra prediction modes: DC, the eight directional modes with
/// their base angles, the smooth family, Paeth, and chroma-from-luma.
#[derive(Copy, Clone, Debug, PartialEq, Eq, Structural)]
pub enum PredictionMode {
    DC_PRED,
    V_PRED,
    H_PRED,
    D45_PRED,
    D135_PRED,
    D113_PRED,
    D157_PRED,
    D203_PRED,
    D67_PRED,
    SMOOTH_PRED,
    SMOOTH_V_PRED,
    SMOOTH_H_PRED,
    PAETH_PRED,
    UV_CFL_PRED,
}

/// The per-mode parameter signalled beside an intra mode.
#[derive(Copy, Clone, Debug, PartialEq, Eq, Structural)]
pub enum IntraParam {
    /// Offset from the mode's base angle, in `ANGLE_STEP` units.
    AngleDelta(i8),
    /// Chroma-from-luma scaling factor.
    Alpha(i16),
    /// No parameter.
    NoParam,
}

impl PredictionMode {
    /// Base prediction angle of a directional mode, in degrees; zero for
    /// the non-directional modes.
    pub open spec fn spec_angle(self) -> int {
        match self {
            PredictionMode::V_PRED => 90,
            PredictionMode::H_PRED => 180,
            PredictionMode::D45_PRED => 45,
            PredictionMode::D135_PRED => 135,
            PredictionMode::D113_PRED => 113,
            PredictionMode::D157_PRED => 157,
            PredictionMode::D203_PRED => 203,
            PredictionMode::D67_PRED => 67,
            _ => 0,
        }
    }

    /// See [`PredictionMode::spec_angle`].
    pub fn angle(self) -> (r: isize)
        ensures
            r == self.spec_angle(),
    {
        match self {
            PredictionMode::V_PRED => 90,
            PredictionMode::H_PRED => 180,
            PredictionMode::D45_PRED => 45,
            PredictionMode::D135_PRED => 135,
            PredictionMode::D113_PRED => 113,
            PredictionMode::D157_PRED => 157,
            PredictionMode::D203_PRED => 203,
            PredictionMode::D67_PRED => 67,
            _ => 0,
        }
    }

    /// Whether the mode predicts along an angle.
    pub open spec fn spec_is_directional(self) -> bool {
        match self {
            PredictionMode::V_PRED | PredictionMode::H_PRED | PredictionMode::D45_PRED
            | PredictionMode::D135_PRED | PredictionMode::D113_PRED | PredictionMode::D157_PRED
            | PredictionMode::D203_PRED | PredictionMode::D67_PRED => true,
            _ => false,
        }
    }

    /// See [`PredictionMode::spec_is_directional`].
    pub fn is_directional(self) -> (r: bool)
        ensures
            r == self.spec_is_directional(),
    {
        match self {
            PredictionMode::V_PRED | PredictionMode::H_PRED | PredictionMode::D45_PRED
            | PredictionMode::D135_PRED | PredictionMode::D113_PRED | PredictionMode::D157_PRED
            | PredictionMode::D203_PRED | PredictionMode::D67_PRED => true,
            _ => false,
        }
    }
}

/// Paeth prediction degenerates at the picture edges: at the origin it
/// becomes DC, on the left column vertical, on the top row horizontal.
pub open spec fn spec_remap_mode(mode: PredictionMode, x: usize, y: usize) -> PredictionMode {
    if mode == PredictionMode::PAETH_PRED {
        if x == 0 && y == 0 {
            PredictionMode::DC_PRED
        } else if x == 0 {
            PredictionMode::V_PRED
        } else if y == 0 {
            PredictionMode::H_PRED
        } else {
            PredictionMode::PAETH_PRED
        }
    } else {
        mode
    }
}

/// The signalled angle delta of the parameter, in degrees.
pub open spec fn spec_angle_delta(param: IntraParam) -> int {
    match param {
        IntraParam::AngleDelta(v) => v * ANGLE_STEP,
        _ => 0,
    }
}

/// Prediction angle of a (remapped) mode with its parameter.
pub open spec fn spec_p_angle(mode: PredictionMode, param: IntraParam) -> int {
    mode.spec_angle() + spec_angle_delta(param)
}

/// Whether the mode is DC or chroma-from-luma, whose context wants are
/// positional rather than angular.
pub open spec fn spec_dc_or_cfl(mode: PredictionMode) -> bool {
    mode == PredictionMode::DC_PRED || mode == PredictionMode::UV_CFL_PRED
}

/// Whether the left column of neighbours is assembled.
pub open spec fn spec_needs_left(
    opt_mode: Option<PredictionMode>,
    param: IntraParam,
    x: usize,
    y: usize,
) -> bool {
    match opt_mode {
        Option::Some(m0) => {
            let m = spec_remap_mode(m0, x, y);
            let a = spec_p_angle(m, param);
            (!spec_dc_or_cfl(m) || x != 0) || (a > 90 && a != 180)
        },
        Option::None => true,
    }
}

/// Whether the top-left corner sample is assembled.
pub open spec fn spec_needs_topleft(
    opt_mode: Option<PredictionMode>,
    param: IntraParam,
    x: usize,
    y: usize,
) -> bool {
    match opt_mode {
        Option::Some(m0) => {
            let m = spec_remap_mode(m0, x, y);
            let a = spec_p_angle(m, param);
            m == PredictionMode::PAETH_PRED || (m.spec_is_directional() && a != 90 && a != 180)
        },
        Option::None => true,
    }
}

/// Whether the row of neighbours above is assembled.
pub open spec fn spec_needs_top(
    opt_mode: Option<PredictionMode>,
    param: IntraParam,
    x: usize,
    y: usize,
) -> bool {
    match opt_mode {
        Option::Some(m0) => {
            let m = spec_remap_mode(m0, x, y);
            let a = spec_p_angle(m, param);
            (!spec_dc_or_cfl(m) || y != 0) || (a != 90 && a < 180)
        },
        Option::None => true,
    }
}

/// Whether the top-right extension is assembled: only for a directional
/// mode aimed above the diagonal.
pub open spec fn spec_needs_topright(
    opt_mode: Option<PredictionMode>,
    param: IntraParam,
    x: usize,
    y: usize,
) -> bool {
    match opt_mode {
        Option::Some(m0) => {
            let m = spec_remap_mode(m0, x, y);
            let a = spec_p_angle(m, param);
            m.spec_is_directional() && a < 90
        },
        Option::None => false,
    }
}

/// Whether the bottom-left extension is assembled: only for a
/// directional mode aimed below the diagonal.
pub open spec fn spec_needs_bottomleft(
    opt_mode: Option<PredictionMode>,
    param: IntraParam,
    x: usize,
    y: usize,
) -> bool {
    match opt_mode {
        Option::Some(m0) => {
            let m = spec_remap_mode(m0, x, y);
            let a = spec_p_angle(m, param);
            m.spec_is_directional() && a > 180
        },
        Option::None => false,
    }
}

/// Whether the corner sample receives edge smoothing.
pub open spec fn spec_needs_topleft_filter(
    opt_mode: Option<PredictionMode>,
    param: IntraParam,
    x: usize,
    y: usize,
    enable_intra_edge_filter: bool,
) -> bool {
    match opt_mode {
        Option::Some(m0) => {
            let m = spec_remap_mode(m0, x, y);
            let a = spec_p_angle(m, param);
            enable_intra_edge_filter && a > 90 && a < 180
        },
        Option::None => false,
    }
}

/// The mid-grey fallback sample for a bit depth.
pub open spec fn spec_edge_base(bit_depth: usize) -> int {
    128 * (vstd::arithmetic::power2::pow2((bit_depth - 8) as nat) as int)
}

/// Number of genuine left-column samples: the block's rows, clipped by
/// the picture's bottom edge.
pub open spec fn spec_left_avail(dst: &PlaneRegion, y: usize, tx_h: usize) -> int {
    if tx_h <= dst.spec_visible_h() - y {
        tx_h as int
    } else {
        dst.spec_visible_h() - y
    }
}

/// The left-column sample `i` rows below the block's top edge.
pub open spec fn spec_left_sample(
    dst: &PlaneRegion,
    x: usize,
    y: usize,
    tx_h: usize,
    bit_depth: usize,
    i: int,
) -> u16 {
    if x != 0 {
        let txh = spec_left_avail(dst, y, tx_h);
        if i < txh {
            dst.spec_px(y + i, x - 1)
        } else {
            dst.spec_px(y + txh - 1, x - 1)
        }
    } else if y != 0 {
        dst.spec_px(y - 1, 0)
    } else {
        (spec_edge_base(bit_depth) + 1) as u16
    }
}

/// Number of genuine above-row samples: the block's columns, clipped by
/// the picture's right edge.
pub open spec fn spec_top_avail(dst: &PlaneRegion, x: usize, tx_w: usize) -> int {
    if tx_w <= dst.spec_visible_w() - x {
        tx_w as int
    } else {
        dst.spec_visible_w() - x
    }
}

/// The above-row sample `i` columns right of the block's left edge.
pub open spec fn spec_above_sample(
    dst: &PlaneRegion,
    x: usize,
    y: usize,
    tx_w: usize,
    bit_depth: usize,
    i: int,
) -> u16 {
    if y != 0 {
        let txw = spec_top_avail(dst, x, tx_w);
        if i < txw {
            dst.spec_px(y - 1, x + i)
        } else {
            dst.spec_px(y - 1, x + txw - 1)
        }
    } else if x != 0 {
        dst.spec_px(0, x - 1)
    } else {
        (spec_edge_base(bit_depth) - 1) as u16
    }
}

/// Number of genuine top-right samples: gated by the first picture row,
/// the right edge, and the decode-order availability of the top-right
/// neighbour for the (chroma-scaled) partition.
pub open spec fn spec_tr_avail(
    dst: &PlaneRegion,
    partition_bo: TileBlockOffset,
    partition_size: BlockSize,
    x: usize,
    y: usize,
    tx_w: usize,
) -> int {
    let scaled = spec_supersample_chroma_bsize(
        partition_size,
        dst.plane_cfg.xdec,
        dst.plane_cfg.ydec,
    );
    if y != 0 && x + tx_w < dst.spec_visible_w() && spec_has_tr(partition_bo, scaled) {
        if tx_w <= dst.spec_visible_w() - x - tx_w {
            tx_w as int
        } else {
            dst.spec_visible_w() - x - tx_w
        }
    } else {
        0
    }
}

/// The top-right extension sample `i` columns right of the block's
/// right edge.
pub open spec fn spec_tr_sample(
    dst: &PlaneRegion,
    partition_bo: TileBlockOffset,
    partition_size: BlockSize,
    x: usize,
    y: usize,
    tx_w: usize,
    bit_depth: usize,
    i: int,
) -> u16 {
    let avail = spec_tr_avail(dst, partition_bo, partition_size, x, y, tx_w);
    if i < avail {
        dst.spec_px(y - 1, x + tx_w + i)
    } else if avail > 0 {
        dst.spec_px(y - 1, x + tx_w + avail - 1)
    } else {
        spec_above_sample(dst, x, y, tx_w, bit_depth, tx_w - 1)
    }
}

/// Number of genuine bottom-left samples: gated by the first picture
/// column, the bottom edge, and the decode-order availability of the
/// bottom-left neighbour for the (chroma-scaled) partition.
pub open spec fn spec_bl_avail(
    dst: &PlaneRegion,
    partition_bo: TileBlockOffset,
    partition_size: BlockSize,
    x: usize,
    y: usize,
    tx_h: usize,
) -> int {
    let scaled = spec_supersample_chroma_bsize(
        partition_size,
        dst.plane_cfg.xdec,
        dst.plane_cfg.ydec,
    );
    if x != 0 && y + tx_h < dst.spec_visible_h() && spec_has_bl(partition_bo, scaled) {
        if tx_h <= dst.spec_visible_h() - y - tx_h {
            tx_h as int
        } else {
            dst.spec_visible_h() - y - tx_h
        }
    } else {
        0
    }
}

/// The bottom-left extension sample `i` rows below the block's bottom
/// edge.
pub open spec fn spec_bl_sample(
    dst: &PlaneRegion,
    partition_bo: TileBlockOffset,
    partition_size: BlockSize,
    x: usize,
    y: usize,
    tx_h: usize,
    bit_depth: usize,
    i: int,
) -> u16 {
    let avail = spec_bl_avail(dst, partition_bo, partition_size, x, y, tx_h);
    if i < avail {
        dst.spec_px(y + tx_h + i, x - 1)
    } else if avail > 0 {
        dst.spec_px(y + tx_h + avail - 1, x - 1)
    } else {
        spec_left_sample(dst, x, y, tx_h, bit_depth, tx_h - 1)
    }
}

/// The corner sample before any smoothing: the pixel one up and one left
/// of the block, with boundary fallbacks.
pub open spec fn spec_raw_corner(dst: &PlaneRegion, x: usize, y: usize, bit_depth: usize) -> u16 {
    if x == 0 && y == 0 {
        spec_edge_base(bit_depth) as u16
    } else if y == 0 {
        dst.spec_px(0, x - 1)
    } else if x == 0 {
        dst.spec_px(y - 1, 0)
    } else {
        dst.spec_px(y - 1, x - 1)
    }
}

/// The emitted corner sample: the base value where no corner is needed;
/// otherwise the raw corner, smoothed by the 4-tap blend
/// `(5*left + 6*corner + 5*above + 8) >> 4` for a filtered mode on a
/// transform of combined size 24 or more.
pub open spec fn spec_corner(
    dst: &PlaneRegion,
    opt_mode: Option<PredictionMode>,
    param: IntraParam,
    x: usize,
    y: usize,
    tx_w: usize,
    tx_h: usize,
    bit_depth: usize,
    enable_intra_edge_filter: bool,
) -> u16 {
    if !spec_needs_topleft(opt_mode, param, x, y) {
        spec_edge_base(bit_depth) as u16
    } else {
        let c0 = spec_raw_corner(dst, x, y, bit_depth);
        if spec_needs_topleft_filter(opt_mode, param, x, y, enable_intra_edge_filter) && tx_w + tx_h
            >= 24 {
            let l = spec_left_sample(dst, x, y, tx_h, bit_depth, 0);
            let a = spec_above_sample(dst, x, y, tx_w, bit_depth, 0);
            ((5 * l + 6 * c0 + 5 * a + 8) / 16) as u16
        } else {
            c0
        }
    }
}

/// The three-way split view over the assembled neighbour context: left
/// samples ordered bottom-to-top, the corner, and the above samples
/// ordered left-to-right.
pub struct IntraEdge {
    left: Vec<u16>,
    top_left: Vec<u16>,
    above: Vec<u16>,
}

impl IntraEdge {
    /// The corner span holds exactly the one corner sample.
    pub open spec fn wf(&self) -> bool {
        self.spec_top_left().len() == 1
    }

    pub closed spec fn spec_left(&self) -> Seq<u16> {
        self.left@
    }

    pub closed spec fn spec_top_left(&self) -> Seq<u16> {
        self.top_left@
    }

    pub closed spec fn spec_above(&self) -> Seq<u16> {
        self.above@
    }

    fn new(left: Vec<u16>, top_left: Vec<u16>, above: Vec<u16>) -> (r: IntraEdge)
        requires
            top_left@.len() == 1,
        ensures
            r.wf(),
            r.spec_left() == left@,
            r.spec_top_left() == top_left@,
            r.spec_above() == above@,
    {
        IntraEdge { left, top_left, above }
    }

    /// The three spans: left, corner, above.
    pub fn as_slices(&self) -> (r: (&[u16], &[u16], &[u16]))
        ensures
            r.0@ == self.spec_left(),
            r.1@ == self.spec_top_left(),
            r.2@ == self.spec_above(),
    {
        (self.left.as_slice(), self.top_left.as_slice(), self.above.as_slice())
    }

    /// The corner sample, the anchor the prediction kernels read the
    /// context from.
    pub fn top_left_ptr(&self) -> (r: u16)
        requires
            self.wf(),
        ensures
            r == self.spec_top_left()[0],
    {
        self.top_left[0]
    }

    /// An edge context over a caller-supplied buffer of
    /// `4 * MAX_TX_SIZE + 1` samples, split at the buffer's midpoint:
    /// test and bench support.
    pub fn mock(edge_buf: &Vec<u16>) -> (r: IntraEdge)
        requires
            edge_buf@.len() == 4 * MAX_TX_SIZE + 1,
        ensures
            r.wf(),
            r.spec_left() == edge_buf@.subrange(0, 2 * MAX_TX_SIZE as int),
            r.spec_top_left() == edge_buf@.subrange(2 * MAX_TX_SIZE as int, 2 * MAX_TX_SIZE + 1),
            r.spec_above() == edge_buf@.subrange(2 * MAX_TX_SIZE + 1, 4 * MAX_TX_SIZE + 1),
    {
        let mut left: Vec<u16> = Vec::new();
        let mut i: usize = 0;
        while i < 2 * MAX_TX_SIZE
            invariant
                i <= 2 * MAX_TX_SIZE,
                edge_buf@.len() == 4 * MAX_TX_SIZE + 1,
                left@ == edge_buf@.subrange(0, i as int),
            decreases 2 * MAX_TX_SIZE - i,
        {
            left.push(edge_buf[i]);
            proof {
                assert(left@ =~= edge_buf@.subrange(0, i + 1));
            }
            i = i + 1;
        }
        let mut top_left: Vec<u16> = Vec::new();
        top_left.push(edge_buf[2 * MAX_TX_SIZE]);
        proof {
            assert(top_left@ =~= edge_buf@.subrange(2 * MAX_TX_SIZE as int, 2 * MAX_TX_SIZE + 1));
        }
        let mut above: Vec<u16> = Vec::new();
        let mut i: usize = 2 * MAX_TX_SIZE + 1;
        while i < 4 * MAX_TX_SIZE + 1
            invariant
                2 * MAX_TX_SIZE + 1 <= i <= 4 * MAX_TX_SIZE + 1,
                edge_buf@.len() == 4 * MAX_TX_SIZE + 1,
                above@ == edge_buf@.subrange(2 * MAX_TX_SIZE + 1, i as int),
            decreases 4 * MAX_TX_SIZE + 1 - i,
        {
            above.push(edge_buf[i]);
            proof {
                assert(above@ =~= edge_buf@.subrange(2 * MAX_TX_SIZE + 1, i + 1));
            }
            i = i + 1;
        }
        Self::new(left, top_left, above)
    }
}

/// Build the neighbour-pixel context for one transform block: the left
/// and above spans with their clipped-edge padding, the optional
/// top-right and bottom-left extensions, and the (possibly smoothed)
/// corner sample.
#[allow(unused_variables)]
pub fn get_intra_edges(
    dst: &PlaneRegion,
    partition_bo: TileBlockOffset,
    bx: usize,
    by: usize,
    partition_size: BlockSize,
    po: PlaneOffset,
    tx_size: TxSize,
    bit_depth: usize,
    opt_mode: Option<PredictionMode>,
    enable_intra_edge_filter: bool,
    intra_param: IntraParam,
) -> (r: IntraEdge)
    requires
        dst.wf(),
        dst.plane_cfg.xdec <= 1,
        dst.plane_cfg.ydec <= 1,
        8 <= bit_depth <= 16,
        0 <= po.x,
        0 <= po.y,
        po.x < dst.spec_visible_w(),
        po.y < dst.spec_visible_h(),
    ensures
        r.wf(),
        ({
            let x = po.x as usize;
            let y = po.y as usize;
            let tx_w = tx_size.spec_width();
            let tx_h = tx_size.spec_height();
            let needs_left = spec_needs_left(opt_mode, intra_param, x, y);
            let needs_top = spec_needs_top(opt_mode, intra_param, x, y);
            let needs_tr = spec_needs_topright(opt_mode, intra_param, x, y);
            let needs_bl = spec_needs_bottomleft(opt_mode, intra_param, x, y);
            let left_len = (if needs_bl { tx_w } else { 0 }) + (if needs_left { tx_h } else { 0 });
            let above_len = (if needs_top { tx_w } else { 0 }) + (if needs_tr { tx_h } else { 0 });
            &&& r.spec_left().len() == left_len
            &&& r.spec_above().len() == above_len
            &&& r.spec_top_left()[0] == spec_corner(
                dst,
                opt_mode,
                intra_param,
                x,
                y,
                tx_w,
                tx_h,
                bit_depth,
                enable_intra_edge_filter,
            )
            &&& needs_left ==> forall|i: int|
                0 <= i < tx_h ==> r.spec_left()[left_len - 1 - i] == spec_left_sample(
                    dst,
                    x,
                    y,
                    tx_h,
                    bit_depth,
                    i,
                )
            &&& needs_bl ==> forall|i: int|
                0 <= i < tx_w ==> r.spec_left()[tx_w - 1 - i] == spec_bl_sample(
                    dst,
                    partition_bo,
                    partition_size,
                    x,
                    y,
                    tx_h,
                    bit_depth,
                    i,
                )
            &&& needs_top ==> forall|i: int|
                0 <= i < tx_w ==> r.spec_above()[i] == spec_above_sample(
                    dst,
                    x,
                    y,
                    tx_w,
                    bit_depth,
                    i,
                )
            &&& needs_tr ==> forall|i: int|
                0 <= i < tx_h ==> r.spec_above()[tx_w + i] == spec_tr_sample(
                    dst,
                    partition_bo,
                    partition_size,
                    x,
                    y,
                    tx_w,
                    bit_depth,
                    i,
                )
        }),
{
    let x = po.x as usize;
    let y = po.y as usize;

    let tx_w = tx_size.width();
    let tx_h = tx_size.height();

    let base: u16 = edge_base(bit_depth);

    let mut needs_left = true;
    let mut needs_topleft = true;
    let mut needs_top = true;
    let mut needs_topright = false;
    let mut needs_bottomleft = false;
    let mut needs_topleft_filter = false;

    if let Option::Some(mode0) = opt_mode {
        let mode = match mode0 {
            PredictionMode::PAETH_PRED => {
                if x == 0 && y == 0 {
                    PredictionMode::DC_PRED
                } else if x == 0 {
                    PredictionMode::V_PRED
                } else if y == 0 {
                    PredictionMode::H_PRED
                } else {
                    PredictionMode::PAETH_PRED
                }
            },
            _ => mode0,
        };
        let angle_delta: isize = match intra_param {
            IntraParam::AngleDelta(val) => (val as isize) * 3,
            _ => 0,
        };
        proof {
            assert(angle_delta == spec_angle_delta(intra_param));
        }
        let p_angle: isize = mode.angle() + angle_delta;

        let dc_or_cfl = mode == PredictionMode::DC_PRED || mode == PredictionMode::UV_CFL_PRED;

        needs_left = (!dc_or_cfl || x != 0) || (p_angle > 90 && p_angle != 180);
        needs_topleft = mode == PredictionMode::PAETH_PRED || (mode.is_directional() && p_angle
            != 90 && p_angle != 180);
        needs_top = (!dc_or_cfl || y != 0) || (p_angle != 90 && p_angle < 180);
        needs_topright = mode.is_directional() && p_angle < 90;
        needs_bottomleft = mode.is_directional() && p_angle > 180;
        needs_topleft_filter = enable_intra_edge_filter && p_angle > 90 && p_angle < 180;
        proof {
            assert(mode == spec_remap_mode(mode0, x, y));
            assert(p_angle == spec_p_angle(mode, intra_param));
            assert(needs_left == spec_needs_left(opt_mode, intra_param, x, y));
            assert(needs_topleft == spec_needs_topleft(opt_mode, intra_param, x, y));
            assert(needs_top == spec_needs_top(opt_mode, intra_param, x, y));
            assert(needs_topright == spec_needs_topright(opt_mode, intra_param, x, y));
            assert(needs_bottomleft == spec_needs_bottomleft(opt_mode, intra_param, x, y));
            assert(needs_topleft_filter == spec_needs_topleft_filter(
                opt_mode,
                intra_param,
                x,
                y,
                enable_intra_edge_filter,
            ));
        }
    }

    let rect_w = if dst.rect_w <= dst.plane_cfg.width - dst.rect_x {
        dst.rect_w
    } else {
        dst.plane_cfg.width - dst.rect_x
    };
    let rect_h = if dst.rect_h <= dst.plane_cfg.height - dst.rect_y {
        dst.rect_h
    } else {
        dst.plane_cfg.height - dst.rect_y
    };

    let scaled_partition_size = supersample_chroma_bsize(
        partition_size,
        dst.plane_cfg.xdec,
        dst.plane_cfg.ydec,
    );

    // Left samples, ordered bottom to top, preceded by the bottom-left
    // extension where one is assembled.
    let mut left: Vec<u16> = Vec::new();

    if needs_bottomleft {
        let bottom_available = y + tx_h < rect_h;
        let bl_avail: usize = if x != 0 && bottom_available && has_bl(
            partition_bo,
            scaled_partition_size,
        ) {
            let room = rect_h - y - tx_h;
            if tx_h <= room {
                tx_h
            } else {
                room
            }
        } else {
            0
        };
        proof {
            assert(bl_avail == spec_bl_avail(dst, partition_bo, partition_size, x, y, tx_h));
        }
        let mut j: usize = 0;
        while j < tx_w
            invariant
                j <= tx_w,
                left@.len() == j,
                dst.wf(),
                x < dst.spec_visible_w(),
                y < dst.spec_visible_h(),
                8 <= bit_depth <= 16,
                tx_w == tx_size.spec_width(),
                tx_h == tx_size.spec_height(),
                bl_avail == spec_bl_avail(dst, partition_bo, partition_size, x, y, tx_h),
                bl_avail > 0 ==> x != 0 && y + tx_h + bl_avail <= dst.spec_visible_h(),
                forall|k: int|
                    0 <= k < j ==> left@[k] == spec_bl_sample(
                        dst,
                        partition_bo,
                        partition_size,
                        x,
                        y,
                        tx_h,
                        bit_depth,
                        tx_w - 1 - k,
                    ),
            decreases tx_w - j,
        {
            let i = tx_w - 1 - j;
            let v: u16 = if i < bl_avail {
                dst.px(y + tx_h + i, x - 1)
            } else if bl_avail > 0 {
                dst.px(y + tx_h + bl_avail - 1, x - 1)
            } else {
                left_sample(dst, x, y, tx_h, bit_depth, tx_h - 1)
            };
            left.push(v);
            j = j + 1;
        }
    }
    if needs_left {
        let txh: usize = if tx_h <= rect_h - y {
            tx_h
        } else {
            rect_h - y
        };
        let ghost bl_len = left@.len();
        let mut j: usize = 0;
        while j < tx_h
            invariant
                j <= tx_h,
                left@.len() == bl_len + j,
                dst.wf(),
                x < dst.spec_visible_w(),
                y < dst.spec_visible_h(),
                8 <= bit_depth <= 16,
                tx_h == tx_size.spec_height(),
                bl_len == if needs_bottomleft {
                    tx_w as int
                } else {
                    0int
                },
                needs_bottomleft ==> forall|k: int|
                    0 <= k < bl_len ==> left@[k] == spec_bl_sample(
                        dst,
                        partition_bo,
                        partition_size,
                        x,
                        y,
                        tx_h,
                        bit_depth,
                        tx_w - 1 - k,
                    ),
                forall|k: int|
                    bl_len <= k < left@.len() ==> left@[k] == spec_left_sample(
                        dst,
                        x,
                        y,
                        tx_h,
                        bit_depth,
                        bl_len + tx_h - 1 - k,
                    ),
            decreases tx_h - j,
        {
            let i = tx_h - 1 - j;
            let v = left_sample(dst, x, y, tx_h, bit_depth, i);
            left.push(v);
            j = j + 1;
        }
    }

    // Above samples, ordered left to right, followed by the top-right
    // extension where one is assembled.
    let mut above: Vec<u16> = Vec::new();
    if needs_top {
        let mut i: usize = 0;
        while i < tx_w
            invariant
                i <= tx_w,
                above@.len() == i,
                dst.wf(),
                x < dst.spec_visible_w(),
                y < dst.spec_visible_h(),
                8 <= bit_depth <= 16,
                tx_w == tx_size.spec_width(),
                forall|k: int|
                    0 <= k < i ==> above@[k] == spec_above_sample(dst, x, y, tx_w, bit_depth, k),
            decreases tx_w - i,
        {
            let v = above_sample(dst, x, y, tx_w, bit_depth, i);
            above.push(v);
            i = i + 1;
        }
    }
    if needs_topright {
        let right_available = x + tx_w < rect_w;
        let tr_avail: usize = if y != 0 && right_available && has_tr(
            partition_bo,
            scaled_partition_size,
        ) {
            let room = rect_w - x - tx_w;
            if tx_w <= room {
                tx_w
            } else {
                room
            }
        } else {
            0
        };
        proof {
            assert(tr_avail == spec_tr_avail(dst, partition_bo, partition_size, x, y, tx_w));
        }
        let ghost top_len = above@.len();
        let mut i: usize = 0;
        while i < tx_h
            invariant
                i <= tx_h,
                above@.len() == top_len + i,
                dst.wf(),
                x < dst.spec_visible_w(),
                y < dst.spec_visible_h(),
                8 <= bit_depth <= 16,
                tx_w == tx_size.spec_width(),
                tx_h == tx_size.spec_height(),
                tr_avail == spec_tr_avail(dst, partition_bo, partition_size, x, y, tx_w),
                tr_avail > 0 ==> y != 0 && x + tx_w + tr_avail <= dst.spec_visible_w(),
                top_len == if needs_top {
                    tx_w as int
                } else {
                    0int
                },
                needs_top ==> forall|k: int|
                    0 <= k < top_len ==> above@[k] == spec_above_sample(
                        dst,
                        x,
                        y,
                        tx_w,
                        bit_depth,
                        k,
                    ),
                forall|k: int|
                    top_len <= k < above@.len() ==> above@[k] == spec_tr_sample(
                        dst,
                        partition_bo,
                        partition_size,
                        x,
                        y,
                        tx_w,
                        bit_depth,
                        k - top_len,
                    ),
            decreases tx_h - i,
        {
            let v: u16 = if i < tr_avail {
                dst.px(y - 1, x + tx_w + i)
            } else if tr_avail > 0 {
                dst.px(y - 1, x + tx_w + tr_avail - 1)
            } else {
                above_sample(dst, x, y, tx_w, bit_depth, tx_w - 1)
            };
            above.push(v);
            i = i + 1;
        }
    }

    // The corner sample, smoothed where the mode and transform size call
    // for it.
    let corner: u16 = if needs_topleft {
        let c0: u16 = if x == 0 && y == 0 {
            base
        } else if y == 0 {
            dst.px(0, x - 1)
        } else if x == 0 {
            dst.px(y - 1, 0)
        } else {
            dst.px(y - 1, x - 1)
        };
        if needs_topleft_filter && tx_w + tx_h >= 24 {
            let l: u32 = left_sample(dst, x, y, tx_h, bit_depth, 0) as u32;
            let a: u32 = above_sample(dst, x, y, tx_w, bit_depth, 0) as u32;
            let s: u32 = l * 5 + (c0 as u32) * 6 + a * 5;
            proof {
                vstd::arithmetic::power2::lemma2_to64();
                vstd::bits::lemma_u32_shr_is_div((s + 8) as u32, 4);
            }
            ((s + 8) >> 4) as u16
        } else {
            c0
        }
    } else {
        base
    };
    let mut top_left: Vec<u16> = Vec::new();
    top_left.push(corner);

    IntraEdge::new(left, top_left, above)
}

/// See [`spec_left_sample`].
fn left_sample(
    dst: &PlaneRegion,
    x: usize,
    y: usize,
    tx_h: usize,
    bit_depth: usize,
    i: usize,
) -> (r: u16)
    requires
        dst.wf(),
        x < dst.spec_visible_w(),
        y < dst.spec_visible_h(),
        i < tx_h,
        8 <= bit_depth <= 16,
    ensures
        r == spec_left_sample(dst, x, y, tx_h, bit_depth, i as int),
{
    if x != 0 {
        let rect_h = if dst.rect_h <= dst.plane_cfg.height - dst.rect_y {
            dst.rect_h
        } else {
            dst.plane_cfg.height - dst.rect_y
        };
        let txh: usize = if tx_h <= rect_h - y {
            tx_h
        } else {
            rect_h - y
        };
        if i < txh {
            dst.px(y + i, x - 1)
        } else {
            dst.px(y + txh - 1, x - 1)
        }
    } else if y != 0 {
        dst.px(y - 1, 0)
    } else {
        edge_base(bit_depth) + 1
    }
}

/// See [`spec_above_sample`].
fn above_sample(
    dst: &PlaneRegion,
    x: usize,
    y: usize,
    tx_w: usize,
    bit_depth: usize,
    i: usize,
) -> (r: u16)
    requires
        dst.wf(),
        x < dst.spec_visible_w(),
        y < dst.spec_visible_h(),
        i < tx_w,
        8 <= bit_depth <= 16,
    ensures
        r == spec_above_sample(dst, x, y, tx_w, bit_depth, i as int),
{
    if y != 0 {
        let rect_w = if dst.rect_w <= dst.plane_cfg.width - dst.rect_x {
            dst.rect_w
        } else {
            dst.plane_cfg.width - dst.rect_x
        };
        let txw: usize = if tx_w <= rect_w - x {
            tx_w
        } else {
            rect_w - x
        };
        if i < txw {
            dst.px(y - 1, x + i)
        } else {
            dst.px(y - 1, x + txw - 1)
        }
    } else if x != 0 {
        dst.px(0, x - 1)
    } else {
        edge_base(bit_depth) - 1
    }
}

/// See [`spec_edge_base`].
fn edge_base(bit_depth: usize) -> (r: u16)
    requires
        8 <= bit_depth <= 16,
    ensures
        r == spec_edge_base(bit_depth),
        128 <= r <= 32768,
{
    proof {
        vstd::arithmetic::power2::lemma2_to64();
        vstd::bits::lemma_u16_pow2_no_overflow((bit_depth - 8) as nat);
        vstd::bits::lemma_u16_shl_is_mul(128u16, (bit_depth - 8) as u16);
    }
    128u16 << (bit_depth - 8)
}

} // verus!
