//! The pure decision half of kernel dispatch: CPU capability tiers, the
//! packing of block shapes into kernel-table slots, and exactly which
//! (shape, type, tier) combinations have a hand-optimized kernel, so that
//! the caller holding the function-pointer tables asks one place.
#![allow(non_camel_case_types)]

use vstd::prelude::*;

verus! {

use crate::tx_size::TxSize;
use crate::tx_type::TxType;

/// Ordered capability tiers of an x86-64 processor, the row index of
/// every dispatch lookup table.
#[derive(Copy, Clone, Debug, PartialEq, Eq, Structural)]
pub enum CpuFeatureLevel {
    RUST,
    SSE2,
    SSSE3,
    SSE4_1,
    AVX2,
    AVX512ICL,
}

/// Number of capability tiers.
pub const CPU_FEATURE_LEVELS: usize = 6;

impl CpuFeatureLevel {
    /// Position of the tier in capability order.
    pub open spec fn spec_as_index(self) -> int {
        match self {
            CpuFeatureLevel::RUST => 0,
            CpuFeatureLevel::SSE2 => 1,
            CpuFeatureLevel::SSSE3 => 2,
            CpuFeatureLevel::SSE4_1 => 3,
            CpuFeatureLevel::AVX2 => 4,
            CpuFeatureLevel::AVX512ICL => 5,
        }
    }

    /// See [`CpuFeatureLevel::spec_as_index`].
    pub fn as_index(self) -> (r: usize)
        ensures
            r == self.spec_as_index(),
            r < CPU_FEATURE_LEVELS,
    {
        match self {
            CpuFeatureLevel::RUST => 0,
            CpuFeatureLevel::SSE2 => 1,
            CpuFeatureLevel::SSSE3 => 2,
            CpuFeatureLevel::SSE4_1 => 3,
            CpuFeatureLevel::AVX2 => 4,
            CpuFeatureLevel::AVX512ICL => 5,
        }
    }
}

/// The two pixel representations a kernel may be compiled for.
#[derive(Copy, Clone, Debug, PartialEq, Eq, Structural)]
pub enum PixelKind {
    /// 8-bit samples.
    U8,
    /// 16-bit samples, for 10- and 12-bit content.
    U16,
}

/// Slot of a `w x h` kernel in the flat 8x8 dispatch grid.
pub open spec fn spec_kernel_fn_index(w: usize, h: usize) -> int {
    (w - 1) * 8 + (h - 1)
}

/// Length of the flat kernel grid.
pub const CDEF_DIST_KERNEL_FNS_LENGTH: usize = 64;

/// See [`spec_kernel_fn_index`]: packs a pair of dimensions, each 1 to
/// 8, into a distinct slot of the 64-entry grid.
pub fn kernel_fn_index(w: usize, h: usize) -> (r: usize)
    requires
        1 <= w <= 8,
        1 <= h <= 8,
    ensures
        r == spec_kernel_fn_index(w, h),
        r < 64,
{
    let r = ((w - 1) << 3usize) | (h - 1);
    proof {
        let a = (w - 1) as usize;
        let b = (h - 1) as usize;
        assert((a <= 7 && b <= 7) ==> ((a << 3usize) | b) == a * 8 + b) by (bit_vector);
    }
    r
}

/// No two distinct dimension pairs in the 8x8 domain share a slot.
pub proof fn lemma_kernel_fn_index_injective(w1: usize, h1: usize, w2: usize, h2: usize)
    requires
        1 <= w1 <= 8,
        1 <= h1 <= 8,
        1 <= w2 <= 8,
        1 <= h2 <= 8,
        spec_kernel_fn_index(w1, h1) == spec_kernel_fn_index(w2, h2),
    ensures
        w1 == w2,
        h1 == h2,
{
}

/// Whether a CDEF-distortion kernel exists for the tier and block shape:
/// the 8-bit family covers the four small shapes from the first SIMD
/// tier up; the 16-bit family only 8x8 on AVX2 and above.
pub open spec fn spec_cdef_dist_kernel_available(
    pt: PixelKind,
    cpu: CpuFeatureLevel,
    w: usize,
    h: usize,
) -> bool {
    match pt {
        PixelKind::U8 => cpu.spec_as_index() >= 1 && ((w == 4 && h == 4) || (w == 4 && h == 8) || (
        w == 8 && h == 4) || (w == 8 && h == 8)),
        PixelKind::U16 => cpu.spec_as_index() >= 4 && w == 8 && h == 8,
    }
}

/// See [`spec_cdef_dist_kernel_available`].
pub fn cdef_dist_kernel_available(
    pt: PixelKind,
    cpu: CpuFeatureLevel,
    w: usize,
    h: usize,
) -> (r: bool)
    ensures
        r == spec_cdef_dist_kernel_available(pt, cpu, w, h),
{
    match pt {
        PixelKind::U8 => cpu.as_index() >= 1 && ((w == 4 && h == 4) || (w == 4 && h == 8) || (w
            == 8 && h == 4) || (w == 8 && h == 8)),
        PixelKind::U16 => cpu.as_index() >= 4 && w == 8 && h == 8,
    }
}

/// The five shape classes of the inverse-transform kernel tables: each
/// class is served by a superset of the previous class's type list.
pub open spec fn spec_itx_class64(t: TxSize) -> bool {
    t == TxSize::TX_64X64 || t == TxSize::TX_64X32 || t == TxSize::TX_32X64 || t
        == TxSize::TX_16X64 || t == TxSize::TX_64X16
}

pub open spec fn spec_itx_class32(t: TxSize) -> bool {
    t == TxSize::TX_32X32 || t == TxSize::TX_32X16 || t == TxSize::TX_16X32 || t == TxSize::TX_32X8
        || t == TxSize::TX_8X32
}

pub open spec fn spec_itx_class16(t: TxSize) -> bool {
    t == TxSize::TX_16X16
}

/// The small shapes below 16x16, the 4x4 square excluded.
pub open spec fn spec_itx_class84(t: TxSize) -> bool {
    t == TxSize::TX_16X8 || t == TxSize::TX_8X16 || t == TxSize::TX_16X4 || t == TxSize::TX_4X16
        || t == TxSize::TX_8X8 || t == TxSize::TX_8X4 || t == TxSize::TX_4X8
}

/// The twelve types of the 16x16 class: everything but the identity-ADST
/// hybrids and the lossless type.
pub open spec fn spec_itx_type12(t: TxType) -> bool {
    t != TxType::V_ADST && t != TxType::H_ADST && t != TxType::V_FLIPADST && t
        != TxType::H_FLIPADST && t != TxType::WHT_WHT
}

/// Coverage of the full SIMD inverse-transform surface shared by the
/// SSSE3 and wider tiers: each class as in the hand-written tables, with
/// the 4x4 lossless kernel included only where `wht44` says so.
pub open spec fn spec_itx_full_surface(t: TxSize, ty: TxType, wht44: bool) -> bool {
    if spec_itx_class64(t) {
        ty == TxType::DCT_DCT
    } else if spec_itx_class32(t) {
        ty == TxType::DCT_DCT || ty == TxType::IDTX
    } else if spec_itx_class16(t) {
        spec_itx_type12(ty)
    } else if spec_itx_class84(t) {
        ty != TxType::WHT_WHT
    } else {
        ty != TxType::WHT_WHT || wht44
    }
}

/// Whether an 8-bit inverse-transform kernel exists for the tier, shape
/// and type: the lossless 4x4 kernel from SSE2 up, the full surface from
/// SSSE3 up, and additionally the lossless 4x4 on AVX2.
pub open spec fn spec_inv_txfm_available_8bit(
    cpu: CpuFeatureLevel,
    t: TxSize,
    ty: TxType,
) -> bool {
    let idx = cpu.spec_as_index();
    if idx >= 5 {
        spec_itx_full_surface(t, ty, false)
    } else if idx >= 4 {
        spec_itx_full_surface(t, ty, true)
    } else if idx >= 2 {
        spec_itx_full_surface(t, ty, false)
    } else if idx >= 1 {
        t == TxSize::TX_4X4 && ty == TxType::WHT_WHT
    } else {
        false
    }
}

/// Whether a 16-bit inverse-transform kernel exists for 10-bit content:
/// the 16-bit-generic lossless 4x4 kernel on the SSE tiers, the full
/// surface on SSE4.1 and AVX2 (with the lossless 4x4 on AVX2), and a
/// reduced surface on AVX512ICL whose small-shape rows stop at 8x8.
pub open spec fn spec_inv_txfm_available_hbd10(
    cpu: CpuFeatureLevel,
    t: TxSize,
    ty: TxType,
) -> bool {
    let idx = cpu.spec_as_index();
    if idx >= 5 {
        if spec_itx_class64(t) {
            ty == TxType::DCT_DCT
        } else if spec_itx_class32(t) {
            ty == TxType::DCT_DCT || ty == TxType::IDTX
        } else if spec_itx_class16(t) {
            spec_itx_type12(ty)
        } else if t == TxSize::TX_16X8 || t == TxSize::TX_8X16 || t == TxSize::TX_8X8 {
            ty != TxType::WHT_WHT
        } else {
            false
        }
    } else if idx >= 4 {
        spec_itx_full_surface(t, ty, true)
    } else if idx >= 3 {
        spec_itx_full_surface(t, ty, false)
    } else if idx >= 1 {
        t == TxSize::TX_4X4 && ty == TxType::WHT_WHT
    } else {
        false
    }
}

/// Whether a 16-bit inverse-transform kernel exists for 12-bit (or
/// wider) content: only the lossless 4x4 below AVX2; on AVX2 a surface
/// with no 64-pixel class and with the roles of DCT and identity swapped
/// on the 32-pixel squares, whose 32-point DCT kernel is incomplete in
/// this configuration.
pub open spec fn spec_inv_txfm_available_hbd12(
    cpu: CpuFeatureLevel,
    t: TxSize,
    ty: TxType,
) -> bool {
    let idx = cpu.spec_as_index();
    if idx >= 4 {
        if t == TxSize::TX_32X32 || t == TxSize::TX_32X16 || t == TxSize::TX_16X32 {
            ty == TxType::IDTX
        } else if t == TxSize::TX_32X8 || t == TxSize::TX_8X32 {
            ty == TxType::IDTX || ty == TxType::DCT_DCT
        } else if spec_itx_class16(t) {
            spec_itx_type12(ty)
        } else if spec_itx_class84(t) {
            ty != TxType::WHT_WHT
        } else if t == TxSize::TX_4X4 {
            true
        } else {
            false
        }
    } else if idx >= 1 {
        t == TxSize::TX_4X4 && ty == TxType::WHT_WHT
    } else {
        false
    }
}

/// Which inverse-transform kernel table serves a call, and whether it
/// has an entry: the single query behind the inverse-transform
/// dispatcher's three tables. A missing entry means the portable
/// implementation runs instead, which is never an error.
pub open spec fn spec_inv_txfm_available(
    pt: PixelKind,
    bit_depth: usize,
    cpu: CpuFeatureLevel,
    t: TxSize,
    ty: TxType,
) -> bool {
    match pt {
        PixelKind::U8 => spec_inv_txfm_available_8bit(cpu, t, ty),
        PixelKind::U16 => if bit_depth == 10 {
            spec_inv_txfm_available_hbd10(cpu, t, ty)
        } else {
            spec_inv_txfm_available_hbd12(cpu, t, ty)
        },
    }
}

/// See [`spec_inv_txfm_available`].
pub fn inv_txfm_available(
    pt: PixelKind,
    bit_depth: usize,
    cpu: CpuFeatureLevel,
    t: TxSize,
    ty: TxType,
) -> (r: bool)
    ensures
        r == spec_inv_txfm_available(pt, bit_depth, cpu, t, ty),
{
    match pt {
        PixelKind::U8 => inv_txfm_available_8bit(cpu, t, ty),
        PixelKind::U16 => if bit_depth == 10 {
            inv_txfm_available_hbd10(cpu, t, ty)
        } else {
            inv_txfm_available_hbd12(cpu, t, ty)
        },
    }
}

fn itx_class64(t: TxSize) -> (r: bool)
    ensures
        r == spec_itx_class64(t),
{
    t == TxSize::TX_64X64 || t == TxSize::TX_64X32 || t == TxSize::TX_32X64 || t
        == TxSize::TX_16X64 || t == TxSize::TX_64X16
}

fn itx_class32(t: TxSize) -> (r: bool)
    ensures
        r == spec_itx_class32(t),
{
    t == TxSize::TX_32X32 || t == TxSize::TX_32X16 || t == TxSize::TX_16X32 || t == TxSize::TX_32X8
        || t == TxSize::TX_8X32
}

fn itx_class84(t: TxSize) -> (r: bool)
    ensures
        r == spec_itx_class84(t),
{
    t == TxSize::TX_16X8 || t == TxSize::TX_8X16 || t == TxSize::TX_16X4 || t == TxSize::TX_4X16
        || t == TxSize::TX_8X8 || t == TxSize::TX_8X4 || t == TxSize::TX_4X8
}

fn itx_type12(ty: TxType) -> (r: bool)
    ensures
        r == spec_itx_type12(ty),
{
    ty != TxType::V_ADST && ty != TxType::H_ADST && ty != TxType::V_FLIPADST && ty
        != TxType::H_FLIPADST && ty != TxType::WHT_WHT
}

fn itx_full_surface(t: TxSize, ty: TxType, wht44: bool) -> (r: bool)
    ensures
        r == spec_itx_full_surface(t, ty, wht44),
{
    if itx_class64(t) {
        ty == TxType::DCT_DCT
    } else if itx_class32(t) {
        ty == TxType::DCT_DCT || ty == TxType::IDTX
    } else if itx_class16(t) {
        itx_type12(ty)
    } else if itx_class84(t) {
        ty != TxType::WHT_WHT
    } else {
        ty != TxType::WHT_WHT || wht44
    }
}

fn itx_class16(t: TxSize) -> (r: bool)
    ensures
        r == spec_itx_class16(t),
{
    t == TxSize::TX_16X16
}

fn inv_txfm_available_8bit(cpu: CpuFeatureLevel, t: TxSize, ty: TxType) -> (r: bool)
    ensures
        r == spec_inv_txfm_available_8bit(cpu, t, ty),
{
    let idx = cpu.as_index();
    if idx >= 5 {
        itx_full_surface(t, ty, false)
    } else if idx >= 4 {
        itx_full_surface(t, ty, true)
    } else if idx >= 2 {
        itx_full_surface(t, ty, false)
    } else if idx >= 1 {
        t == TxSize::TX_4X4 && ty == TxType::WHT_WHT
    } else {
        false
    }
}

fn inv_txfm_available_hbd10(cpu: CpuFeatureLevel, t: TxSize, ty: TxType) -> (r: bool)
    ensures
        r == spec_inv_txfm_available_hbd10(cpu, t, ty),
{
    let idx = cpu.as_index();
    if idx >= 5 {
        if itx_class64(t) {
            ty == TxType::DCT_DCT
        } else if itx_class32(t) {
            ty == TxType::DCT_DCT || ty == TxType::IDTX
        } else if itx_class16(t) {
            itx_type12(ty)
        } else if t == TxSize::TX_16X8 || t == TxSize::TX_8X16 || t == TxSize::TX_8X8 {
            ty != TxType::WHT_WHT
        } else {
            false
        }
    } else if idx >= 4 {
        itx_full_surface(t, ty, true)
    } else if idx >= 3 {
        itx_full_surface(t, ty, false)
    } else if idx >= 1 {
        t == TxSize::TX_4X4 && ty == TxType::WHT_WHT
    } else {
        false
    }
}

fn inv_txfm_available_hbd12(cpu: CpuFeatureLevel, t: TxSize, ty: TxType) -> (r: bool)
    ensures
        r == spec_inv_txfm_available_hbd12(cpu, t, ty),
{
    let idx = cpu.as_index();
    if idx >= 4 {
        if t == TxSize::TX_32X32 || t == TxSize::TX_32X16 || t == TxSize::TX_16X32 {
            ty == TxType::IDTX
        } else if t == TxSize::TX_32X8 || t == TxSize::TX_8X32 {
            ty == TxType::IDTX || ty == TxType::DCT_DCT
        } else if itx_class16(t) {
            itx_type12(ty)
        } else if itx_class84(t) {
            ty != TxType::WHT_WHT
        } else if t == TxSize::TX_4X4 {
            true
        } else {
            false
        }
    } else if idx >= 1 {
        t == TxSize::TX_4X4 && ty == TxType::WHT_WHT
    } else {
        false
    }
}

/// Every covered inverse-transform combination is legal to signal: no
/// table holds a kernel the bitstream could never ask for (the lossless
/// 4x4 aside, which is reached through its own coding path).
pub proof fn lemma_itx_coverage_legal(
    pt: PixelKind,
    bit_depth: usize,
    cpu: CpuFeatureLevel,
    t: TxSize,
    ty: TxType,
)
    requires
        spec_inv_txfm_available(pt, bit_depth, cpu, t, ty),
        ty != TxType::WHT_WHT,
    ensures
        crate::transform::spec_valid_av1_transform(t, ty),
{
}

} // verus!
