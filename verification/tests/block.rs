use rav1e_core::block_size::{BlockSize, InvalidBlockSize};
use rav1e_core::block_unit::{PlaneBlockOffset, BlockOffset, TileBlockOffset};
use rav1e_core::frame::PlaneConfig;
use rav1e_core::partition::{has_bl, has_tr, supersample_chroma_bsize};
use rav1e_core::partition_type::PartitionType;
use rav1e_core::ref_type::RefType;
use rav1e_core::tx_size::TxSize;

use BlockSize::{
    BLOCK_4X4, BLOCK_4X8, BLOCK_8X4, BLOCK_8X8, BLOCK_8X16, BLOCK_16X8, BLOCK_16X16, BLOCK_16X32,
    BLOCK_32X16, BLOCK_32X32, BLOCK_32X64, BLOCK_64X32, BLOCK_64X64, BLOCK_64X128, BLOCK_128X64,
    BLOCK_128X128, BLOCK_4X16, BLOCK_16X4, BLOCK_8X32, BLOCK_32X8, BLOCK_16X64, BLOCK_64X16,
};
use PartitionType::{
    PARTITION_NONE, PARTITION_HORZ, PARTITION_VERT, PARTITION_SPLIT, PARTITION_HORZ_4,
    PARTITION_VERT_4, PARTITION_INVALID,
};

fn from_wh_opt_naive(w: usize, h: usize) -> Result<BlockSize, InvalidBlockSize> {
    match (w, h) {
        (4, 4) => Ok(BLOCK_4X4),
        (4, 8) => Ok(BLOCK_4X8),
        (8, 4) => Ok(BLOCK_8X4),
        (8, 8) => Ok(BLOCK_8X8),
        (8, 16) => Ok(BLOCK_8X16),
        (16, 8) => Ok(BLOCK_16X8),
        (16, 16) => Ok(BLOCK_16X16),
        (16, 32) => Ok(BLOCK_16X32),
        (32, 16) => Ok(BLOCK_32X16),
        (32, 32) => Ok(BLOCK_32X32),
        (32, 64) => Ok(BLOCK_32X64),
        (64, 32) => Ok(BLOCK_64X32),
        (64, 64) => Ok(BLOCK_64X64),
        (64, 128) => Ok(BLOCK_64X128),
        (128, 64) => Ok(BLOCK_128X64),
        (128, 128) => Ok(BLOCK_128X128),
        (4, 16) => Ok(BLOCK_4X16),
        (16, 4) => Ok(BLOCK_16X4),
        (8, 32) => Ok(BLOCK_8X32),
        (32, 8) => Ok(BLOCK_32X8),
        (16, 64) => Ok(BLOCK_16X64),
        (64, 16) => Ok(BLOCK_64X16),
        _ => Err(InvalidBlockSize),
    }
}

#[test]
fn from_wh_matches_naive() {
    for w in 0..256 {
        for h in 0..256 {
            let a = BlockSize::from_width_and_height_opt(w, h);
            let b = from_wh_opt_naive(w, h);

            assert_eq!(a, b);
        }
    }
}

const ALL_BLOCK_SIZES: [BlockSize; 22] = [
    BLOCK_4X4,
    BLOCK_4X8,
    BLOCK_8X4,
    BLOCK_8X8,
    BLOCK_8X16,
    BLOCK_16X8,
    BLOCK_16X16,
    BLOCK_16X32,
    BLOCK_32X16,
    BLOCK_32X32,
    BLOCK_32X64,
    BLOCK_64X32,
    BLOCK_64X64,
    BLOCK_64X128,
    BLOCK_128X64,
    BLOCK_128X128,
    BLOCK_4X16,
    BLOCK_16X4,
    BLOCK_8X32,
    BLOCK_32X8,
    BLOCK_16X64,
    BLOCK_64X16,
];

#[test]
fn dims_and_logs_agree() {
    for &b in ALL_BLOCK_SIZES.iter() {
        assert_eq!(b.width() * b.height(), b.area());
        assert_eq!(1usize << b.width_log2(), b.width());
        assert_eq!(1usize << b.height_log2(), b.height());
        assert_eq!(b.width_mi(), b.width() >> 2);
        assert_eq!(b.height_mi(), b.height() >> 2);
    }
}

#[test]
fn subsampled_size_cases() {
    assert_eq!(BLOCK_16X16.subsampled_size(1, 1), Ok(BLOCK_8X8));
    assert_eq!(BLOCK_4X4.subsampled_size(1, 1), Ok(BLOCK_4X4));
    assert_eq!(BLOCK_16X16.subsampled_size(1, 0), Ok(BLOCK_8X16));
    assert_eq!(BLOCK_4X4.subsampled_size(0, 0), Ok(BLOCK_4X4));
    assert_eq!(BLOCK_4X8.subsampled_size(1, 0), Err(InvalidBlockSize));
    for &b in ALL_BLOCK_SIZES.iter() {
        assert!(b.subsampled_size(1, 1).is_ok());
        assert_eq!(b.subsampled_size(0, 0), Ok(b));
    }
}

#[test]
fn subsize_table() {
    assert_eq!(BLOCK_64X64.subsize(PARTITION_NONE), Ok(BLOCK_64X64));
    assert_eq!(BLOCK_64X64.subsize(PARTITION_SPLIT), Ok(BLOCK_32X32));
    assert_eq!(BLOCK_64X64.subsize(PARTITION_HORZ), Ok(BLOCK_64X32));
    assert_eq!(BLOCK_64X64.subsize(PARTITION_VERT), Ok(BLOCK_32X64));
    assert_eq!(BLOCK_64X64.subsize(PARTITION_HORZ_4), Ok(BLOCK_64X16));
    assert_eq!(BLOCK_64X64.subsize(PARTITION_VERT_4), Ok(BLOCK_16X64));
    assert_eq!(BLOCK_8X8.subsize(PARTITION_HORZ_4), Err(InvalidBlockSize));
    assert_eq!(BLOCK_16X8.subsize(PARTITION_SPLIT), Err(InvalidBlockSize));
    assert_eq!(BLOCK_64X64.subsize(PARTITION_INVALID), Err(InvalidBlockSize));
}

#[test]
fn rect_tx_and_cfl() {
    assert!(!BLOCK_4X4.is_rect_tx_allowed());
    assert!(!BLOCK_128X128.is_rect_tx_allowed());
    assert!(!BLOCK_64X128.is_rect_tx_allowed());
    assert!(BLOCK_8X16.is_rect_tx_allowed());
    assert!(BLOCK_64X16.is_rect_tx_allowed());

    assert!(BLOCK_32X32.cfl_allowed());
    assert!(BLOCK_4X16.cfl_allowed());
    assert!(!BLOCK_64X32.cfl_allowed());
    // Shapes that dominate in one axis only are incomparable.
    assert_eq!(BLOCK_4X16.partial_cmp(&BLOCK_16X4), None);
    assert!(BLOCK_8X8 < BLOCK_16X16);
}

#[test]
fn max_chroma_tx_sizes() {
    assert_eq!(BLOCK_128X128.largest_chroma_tx_size(1, 1), TxSize::TX_32X32);
    assert_eq!(BLOCK_8X8.largest_chroma_tx_size(1, 1), TxSize::TX_4X4);
    assert_eq!(BLOCK_16X16.largest_chroma_tx_size(0, 0), TxSize::TX_16X16);
    assert_eq!(BLOCK_16X16.largest_chroma_tx_size(1, 0), TxSize::TX_8X16);
    assert_eq!(BLOCK_64X64.largest_chroma_tx_size(0, 0), TxSize::TX_32X32);
    assert_eq!(BLOCK_4X4.tx_size(), TxSize::TX_4X4);
    assert_eq!(BLOCK_64X128.tx_size(), TxSize::TX_64X64);
    assert_eq!(BLOCK_32X8.tx_size(), TxSize::TX_32X8);
}

#[test]
fn sub8x8_handling() {
    assert!(BLOCK_4X8.is_sub8x8(1, 1));
    assert!(!BLOCK_8X8.is_sub8x8(1, 1));
    assert_eq!(BLOCK_4X4.sub8x8_offset(1, 1), (-1, -1));
    assert_eq!(BLOCK_8X4.sub8x8_offset(1, 1), (0, -1));
    assert_eq!(BLOCK_8X8.sub8x8_offset(1, 1), (0, 0));
}

#[test]
fn block_offsets() {
    let bo = PlaneBlockOffset(BlockOffset { x: 35, y: 17 });
    assert_eq!(bo.sb_offset().0.x, 2);
    assert_eq!(bo.sb_offset().0.y, 1);
    assert_eq!(bo.y_in_sb(), 1);
    let moved = bo.with_offset(-3, 2);
    assert_eq!(moved.0.x, 32);
    assert_eq!(moved.0.y, 19);

    let cfg = PlaneConfig { width: 640, height: 480, xdec: 1, ydec: 1 };
    let po = bo.plane_offset(&cfg);
    assert_eq!(po.x, (35 >> 1) << 2);
    assert_eq!(po.y, (17 >> 1) << 2);
    let lpo = bo.to_luma_plane_offset();
    assert_eq!(lpo.x, 140);
    assert_eq!(lpo.y, 68);
}

#[test]
fn ref_type_classification() {
    assert_eq!(RefType::LAST_FRAME.to_index(), 0);
    assert_eq!(RefType::ALTREF_FRAME.to_index(), 6);
    assert!(RefType::INTRA_FRAME.is_fwd_ref());
    assert!(RefType::GOLDEN_FRAME.is_fwd_ref());
    assert!(!RefType::BWDREF_FRAME.is_fwd_ref());
    assert!(RefType::ALTREF2_FRAME.is_bwd_ref());
    assert!(!RefType::LAST3_FRAME.is_bwd_ref());
}

#[test]
fn supersample_cases() {
    assert_eq!(supersample_chroma_bsize(BLOCK_4X4, 1, 1), BLOCK_8X8);
    assert_eq!(supersample_chroma_bsize(BLOCK_4X16, 1, 0), BLOCK_8X16);
    assert_eq!(supersample_chroma_bsize(BLOCK_16X4, 0, 1), BLOCK_16X8);
    assert_eq!(supersample_chroma_bsize(BLOCK_32X32, 1, 1), BLOCK_32X32);
}

#[test]
fn rect_pair_neighbour_rules() {
    // A wide rectangle's bottom member never has a top-right; the top
    // member always has a bottom-left.
    let bottom = TileBlockOffset(BlockOffset { x: 0, y: 2 });
    assert!(!has_tr(bottom, BLOCK_32X8));
    let top = TileBlockOffset(BlockOffset { x: 0, y: 0 });
    assert!(has_bl(top, BLOCK_32X8));
    // A tall rectangle's left member always has a top-right; the right
    // member never has a bottom-left.
    let left = TileBlockOffset(BlockOffset { x: 0, y: 0 });
    assert!(has_tr(left, BLOCK_8X32));
    let right = TileBlockOffset(BlockOffset { x: 2, y: 0 });
    assert!(!has_bl(right, BLOCK_8X32));
    // Blocks wider than a superblock have neither neighbour available.
    let huge = TileBlockOffset(BlockOffset { x: 0, y: 0 });
    assert!(!has_tr(huge, BLOCK_128X128));
    assert!(!has_bl(huge, BLOCK_128X128));
}

#[test]
fn shape_labels() {
    assert_eq!(BLOCK_4X4.label(), "4x4");
    assert_eq!(BLOCK_64X16.label(), "64x16");
    assert_eq!(BLOCK_128X128.label(), "128x128");
    assert_eq!(InvalidBlockSize.label(), "invalid block size");
}
