use rav1e_core::dispatch::{
    cdef_dist_kernel_available, inv_txfm_available, kernel_fn_index, CpuFeatureLevel, PixelKind,
};
use rav1e_core::tx_size::TxSize;
use rav1e_core::tx_type::TxType;

use CpuFeatureLevel::{RUST, SSE2, SSSE3, SSE4_1, AVX2, AVX512ICL};
use TxSize::{
    TX_4X4, TX_8X8, TX_4X8, TX_8X16, TX_16X16, TX_32X16, TX_32X32, TX_32X8, TX_64X64,
};
use TxType::{ADST_ADST, DCT_DCT, FLIPADST_ADST, IDTX, V_ADST, WHT_WHT};

#[test]
fn kernel_index_is_injective() {
    let mut seen = [false; 64];
    for w in 1..=8usize {
        for h in 1..=8usize {
            let idx = kernel_fn_index(w, h);
            assert!(idx < 64);
            assert!(!seen[idx], "slot collision at {}x{}", w, h);
            seen[idx] = true;
        }
    }
}

#[test]
fn cdef_dist_coverage() {
    assert!(cdef_dist_kernel_available(PixelKind::U8, SSE2, 4, 4));
    assert!(cdef_dist_kernel_available(PixelKind::U8, AVX512ICL, 8, 4));
    assert!(!cdef_dist_kernel_available(PixelKind::U8, RUST, 4, 4));
    assert!(!cdef_dist_kernel_available(PixelKind::U8, SSE2, 8, 2));
    assert!(cdef_dist_kernel_available(PixelKind::U16, AVX2, 8, 8));
    assert!(!cdef_dist_kernel_available(PixelKind::U16, SSE4_1, 8, 8));
    assert!(!cdef_dist_kernel_available(PixelKind::U16, AVX2, 4, 4));
}

#[test]
fn inverse_transform_coverage() {
    // 8-bit: SSE2 has only the lossless 4x4 kernel.
    assert!(inv_txfm_available(PixelKind::U8, 8, SSE2, TX_4X4, WHT_WHT));
    assert!(!inv_txfm_available(PixelKind::U8, 8, SSE2, TX_4X4, DCT_DCT));
    // 8-bit: the full surface appears at SSSE3, without the lossless 4x4.
    assert!(inv_txfm_available(PixelKind::U8, 8, SSSE3, TX_4X4, DCT_DCT));
    assert!(!inv_txfm_available(PixelKind::U8, 8, SSSE3, TX_4X4, WHT_WHT));
    assert!(inv_txfm_available(PixelKind::U8, 8, AVX2, TX_4X4, WHT_WHT));
    assert!(!inv_txfm_available(PixelKind::U8, 8, AVX512ICL, TX_4X4, WHT_WHT));
    // Size classes restrict the admitted types.
    assert!(inv_txfm_available(PixelKind::U8, 8, SSSE3, TX_64X64, DCT_DCT));
    assert!(!inv_txfm_available(PixelKind::U8, 8, SSSE3, TX_64X64, IDTX));
    assert!(inv_txfm_available(PixelKind::U8, 8, SSSE3, TX_32X16, IDTX));
    assert!(!inv_txfm_available(PixelKind::U8, 8, SSSE3, TX_32X16, ADST_ADST));
    assert!(inv_txfm_available(PixelKind::U8, 8, SSSE3, TX_16X16, FLIPADST_ADST));
    assert!(!inv_txfm_available(PixelKind::U8, 8, SSSE3, TX_16X16, V_ADST));
    assert!(inv_txfm_available(PixelKind::U8, 8, SSSE3, TX_8X16, V_ADST));
    // 10-bit: SSE4.1 brings the full surface, AVX512ICL a reduced one.
    assert!(!inv_txfm_available(PixelKind::U16, 10, SSSE3, TX_8X8, DCT_DCT));
    assert!(inv_txfm_available(PixelKind::U16, 10, SSE4_1, TX_8X8, DCT_DCT));
    assert!(inv_txfm_available(PixelKind::U16, 10, AVX512ICL, TX_8X8, DCT_DCT));
    assert!(!inv_txfm_available(PixelKind::U16, 10, AVX512ICL, TX_4X8, DCT_DCT));
    assert!(inv_txfm_available(PixelKind::U16, 10, AVX2, TX_4X8, DCT_DCT));
    // 12-bit: the 32-point squares swap the roles of DCT and identity.
    assert!(inv_txfm_available(PixelKind::U16, 12, AVX2, TX_32X32, IDTX));
    assert!(!inv_txfm_available(PixelKind::U16, 12, AVX2, TX_32X32, DCT_DCT));
    assert!(inv_txfm_available(PixelKind::U16, 12, AVX2, TX_32X8, DCT_DCT));
    assert!(!inv_txfm_available(PixelKind::U16, 12, AVX2, TX_64X64, DCT_DCT));
    assert!(inv_txfm_available(PixelKind::U16, 12, SSE2, TX_4X4, WHT_WHT));
    assert!(!inv_txfm_available(PixelKind::U16, 12, SSE4_1, TX_8X8, DCT_DCT));
}
