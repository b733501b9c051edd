use rav1e_core::block_size::BlockSize;
use rav1e_core::block_unit::{BlockOffset, TileBlockOffset};
use rav1e_core::frame::{PlaneConfig, PlaneOffset, PlaneRegion};
use rav1e_core::intra_edge::{get_intra_edges, IntraEdge, IntraParam, PredictionMode, MAX_TX_SIZE};
use rav1e_core::tx_size::TxSize;

fn flat_region(w: usize, h: usize, value: u16) -> PlaneRegion {
    PlaneRegion {
        data: vec![value; w * h],
        rect_w: w,
        rect_h: h,
        rect_x: 0,
        rect_y: 0,
        plane_cfg: PlaneConfig { width: w, height: h, xdec: 0, ydec: 0 },
    }
}

fn origin() -> TileBlockOffset {
    TileBlockOffset(BlockOffset { x: 0, y: 0 })
}

#[test]
fn top_left_at_picture_origin() {
    // With no prediction mode supplied, the corner at the picture's
    // top-left is the mid-grey base: exactly 128 at 8 bits.
    let dst = flat_region(32, 32, 77);
    let edge = get_intra_edges(
        &dst,
        origin(),
        0,
        0,
        BlockSize::BLOCK_8X8,
        PlaneOffset { x: 0, y: 0 },
        TxSize::TX_8X8,
        8,
        None,
        false,
        IntraParam::NoParam,
    );
    let (left, top_left, above) = edge.as_slices();
    assert_eq!(top_left, &[128]);
    // At the picture edges the spans are filled from the base value.
    assert_eq!(left, &[129; 8][..]);
    assert_eq!(above, &[127; 8][..]);
}

#[test]
fn top_left_at_origin_higher_depth() {
    let dst = flat_region(32, 32, 500);
    let edge = get_intra_edges(
        &dst,
        origin(),
        0,
        0,
        BlockSize::BLOCK_8X8,
        PlaneOffset { x: 0, y: 0 },
        TxSize::TX_8X8,
        10,
        None,
        false,
        IntraParam::NoParam,
    );
    let (_, top_left, _) = edge.as_slices();
    assert_eq!(top_left, &[512]);
}

#[test]
fn top_left_smoothing_blend() {
    // A filtered directional mode with width + height >= 24 blends the
    // corner as (5*left + 6*corner + 5*above + 8) >> 4.
    let mut dst = flat_region(64, 64, 0);
    let x = 16usize;
    let y = 16usize;
    dst.data[y * 64 + (x - 1)] = 10; // top-most left neighbour
    dst.data[(y - 1) * 64 + x] = 20; // first above neighbour
    dst.data[(y - 1) * 64 + (x - 1)] = 30; // raw corner
    let edge = get_intra_edges(
        &dst,
        TileBlockOffset(BlockOffset { x: 4, y: 4 }),
        0,
        0,
        BlockSize::BLOCK_16X16,
        PlaneOffset { x: x as isize, y: y as isize },
        TxSize::TX_16X16,
        8,
        Some(PredictionMode::D135_PRED),
        true,
        IntraParam::AngleDelta(0),
    );
    let (left, top_left, above) = edge.as_slices();
    assert_eq!(left[left.len() - 1], 10);
    assert_eq!(above[0], 20);
    assert_eq!(top_left, &[(5 * 10 + 6 * 30 + 5 * 20 + 8) >> 4]);
    assert_eq!(top_left, &[21]);
}

#[test]
fn left_and_above_copy_neighbours() {
    let mut dst = flat_region(32, 32, 0);
    let x = 8usize;
    let y = 8usize;
    for i in 0..8 {
        dst.data[(y + i) * 32 + (x - 1)] = 100 + i as u16;
        dst.data[(y - 1) * 32 + (x + i)] = 200 + i as u16;
    }
    let edge = get_intra_edges(
        &dst,
        TileBlockOffset(BlockOffset { x: 2, y: 2 }),
        0,
        0,
        BlockSize::BLOCK_8X8,
        PlaneOffset { x: x as isize, y: y as isize },
        TxSize::TX_8X8,
        8,
        None,
        false,
        IntraParam::NoParam,
    );
    let (left, _, above) = edge.as_slices();
    assert_eq!(left.len(), 8);
    assert_eq!(above.len(), 8);
    // Left samples are ordered bottom to top.
    for i in 0..8 {
        assert_eq!(left[7 - i], 100 + i as u16);
        assert_eq!(above[i], 200 + i as u16);
    }
}

#[test]
fn clipped_left_replicates_last_row() {
    // A block straddling the picture's bottom edge replicates the last
    // valid left neighbour downward.
    let mut dst = PlaneRegion {
        data: vec![0; 32 * 32],
        rect_w: 32,
        rect_h: 32,
        rect_x: 0,
        rect_y: 0,
        plane_cfg: PlaneConfig { width: 32, height: 20, xdec: 0, ydec: 0 },
    };
    let x = 8usize;
    let y = 16usize;
    for i in 0..4 {
        dst.data[(y + i) * 32 + (x - 1)] = 50 + i as u16;
    }
    let edge = get_intra_edges(
        &dst,
        TileBlockOffset(BlockOffset { x: 2, y: 4 }),
        0,
        0,
        BlockSize::BLOCK_8X8,
        PlaneOffset { x: x as isize, y: y as isize },
        TxSize::TX_8X8,
        8,
        None,
        false,
        IntraParam::NoParam,
    );
    let (left, _, _) = edge.as_slices();
    assert_eq!(left.len(), 8);
    // Rows 0..4 hold the genuine neighbours; rows 4..8 replicate row 3.
    for i in 0..4 {
        assert_eq!(left[7 - i], 50 + i as u16);
    }
    for i in 4..8 {
        assert_eq!(left[7 - i], 53);
    }
}

#[test]
fn directional_mode_gathers_top_right() {
    // A 45-degree mode on an even-aligned block extends the above span
    // with the top-right neighbours.
    let mut dst = flat_region(64, 64, 7);
    let x = 8usize;
    let y = 8usize;
    for i in 0..8 {
        dst.data[(y - 1) * 64 + (x + 8 + i)] = 300 + i as u16;
    }
    let edge = get_intra_edges(
        &dst,
        origin(),
        0,
        0,
        BlockSize::BLOCK_8X8,
        PlaneOffset { x: x as isize, y: y as isize },
        TxSize::TX_8X8,
        8,
        Some(PredictionMode::D45_PRED),
        false,
        IntraParam::AngleDelta(0),
    );
    let (_, _, above) = edge.as_slices();
    assert_eq!(above.len(), 16);
    for i in 0..8 {
        assert_eq!(above[8 + i], 300 + i as u16);
    }
}

#[test]
fn mock_splits_buffer() {
    let buf: Vec<u16> = (0..(4 * MAX_TX_SIZE as u16 + 1)).collect();
    let edge = IntraEdge::mock(&buf);
    let (left, top_left, above) = edge.as_slices();
    assert_eq!(left.len(), 2 * MAX_TX_SIZE);
    assert_eq!(top_left.len(), 1);
    assert_eq!(above.len(), 2 * MAX_TX_SIZE);
    assert_eq!(top_left[0], 128);
    assert_eq!(edge.top_left_ptr(), 128);
    assert_eq!(left[0], 0);
    assert_eq!(above[0], 129);
}

#[test]
fn dc_mode_corner_is_base() {
    // DC prediction needs no corner sample: the slot holds the base.
    let dst = flat_region(32, 32, 9);
    let edge = get_intra_edges(
        &dst,
        TileBlockOffset(BlockOffset { x: 2, y: 2 }),
        0,
        0,
        BlockSize::BLOCK_8X8,
        PlaneOffset { x: 8, y: 8 },
        TxSize::TX_8X8,
        8,
        Some(PredictionMode::DC_PRED),
        false,
        IntraParam::NoParam,
    );
    let (left, top_left, above) = edge.as_slices();
    assert_eq!(top_left, &[128]);
    assert_eq!(left.len(), 8);
    assert_eq!(above.len(), 8);
}

#[test]
fn paeth_remaps_at_edges() {
    // Paeth on the top row degenerates to horizontal prediction, whose
    // 180-degree angle needs no corner sample: the slot holds the base.
    let dst = flat_region(32, 32, 9);
    let edge = get_intra_edges(
        &dst,
        TileBlockOffset(BlockOffset { x: 2, y: 0 }),
        0,
        0,
        BlockSize::BLOCK_8X8,
        PlaneOffset { x: 8, y: 0 },
        TxSize::TX_8X8,
        8,
        Some(PredictionMode::PAETH_PRED),
        false,
        IntraParam::NoParam,
    );
    let (left, top_left, above) = edge.as_slices();
    assert_eq!(left.len(), 8);
    assert_eq!(above.len(), 8);
    assert_eq!(top_left, &[128]);
}
