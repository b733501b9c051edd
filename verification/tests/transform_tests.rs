use rav1e_core::transform::{
    av1_round_shift_array, clamp_value, get_rect_tx_log_ratio, get_valid_txfm_types, half_btf,
    valid_av1_transform, TxSizeExt, INV_SQRT2, SQRT2, SQRT2_BITS,
};
use rav1e_core::tx_size::TxSize;
use rav1e_core::tx_type::{TxType, TxType1D, HTX_TAB, VTX_TAB};

use TxSize::{
    TX_4X4, TX_8X8, TX_16X16, TX_32X32, TX_64X64, TX_4X8, TX_8X4, TX_8X16, TX_16X8, TX_16X32,
    TX_32X16, TX_32X64, TX_64X32, TX_4X16, TX_16X4, TX_8X32, TX_32X8, TX_16X64, TX_64X16,
};
use TxType::{
    DCT_DCT, ADST_DCT, DCT_ADST, ADST_ADST, FLIPADST_DCT, DCT_FLIPADST, FLIPADST_FLIPADST,
    ADST_FLIPADST, FLIPADST_ADST, IDTX, V_DCT, H_DCT, V_ADST, H_ADST, V_FLIPADST, H_FLIPADST,
    WHT_WHT,
};

#[test]
fn log_tx_ratios() {
    let combinations = [
        (TxSize::TX_4X4, 0),
        (TxSize::TX_8X8, 0),
        (TxSize::TX_16X16, 0),
        (TxSize::TX_32X32, 0),
        (TxSize::TX_64X64, 0),
        (TxSize::TX_4X8, -1),
        (TxSize::TX_8X4, 1),
        (TxSize::TX_8X16, -1),
        (TxSize::TX_16X8, 1),
        (TxSize::TX_16X32, -1),
        (TxSize::TX_32X16, 1),
        (TxSize::TX_32X64, -1),
        (TxSize::TX_64X32, 1),
        (TxSize::TX_4X16, -2),
        (TxSize::TX_16X4, 2),
        (TxSize::TX_8X32, -2),
        (TxSize::TX_32X8, 2),
        (TxSize::TX_16X64, -2),
        (TxSize::TX_64X16, 2),
    ];

    for &(tx_size, expected) in combinations.iter() {
        println!("Testing combination {:?}, {:?}", tx_size.width(), tx_size.height());
        assert!(get_rect_tx_log_ratio(tx_size.width(), tx_size.height()) == expected);
    }
}

const ALL_TX_SIZES: [TxSize; 19] = [
    TX_4X4, TX_8X8, TX_16X16, TX_32X32, TX_64X64, TX_4X8, TX_8X4, TX_8X16, TX_16X8, TX_16X32,
    TX_32X16, TX_32X64, TX_64X32, TX_4X16, TX_16X4, TX_8X32, TX_32X8, TX_16X64, TX_64X16,
];

const ALL_TX_TYPES: [TxType; 17] = [
    DCT_DCT,
    ADST_DCT,
    DCT_ADST,
    ADST_ADST,
    FLIPADST_DCT,
    DCT_FLIPADST,
    FLIPADST_FLIPADST,
    ADST_FLIPADST,
    FLIPADST_ADST,
    IDTX,
    V_DCT,
    H_DCT,
    V_ADST,
    H_ADST,
    V_FLIPADST,
    H_FLIPADST,
    WHT_WHT,
];

#[test]
fn sqr_bounds() {
    assert_eq!(TX_4X8.sqr_up(), TX_8X8);
    assert_eq!(TX_32X8.sqr_up(), TX_32X32);
    assert_eq!(TX_64X16.sqr(), TX_16X16);
    for &t in ALL_TX_SIZES.iter() {
        assert_eq!(t.area(), t.width() * t.height());
        assert_eq!(t.sqr().width(), t.sqr().height());
        assert_eq!(t.sqr_up().width(), t.sqr_up().height());
        assert!(t.sqr().width() <= t.width());
        assert!(t.sqr_up().width() >= t.width());
        assert_eq!(t.is_rect(), t.width() != t.height());
        assert_eq!(TxSize::by_dims(t.width(), t.height()), t);
        assert_eq!(t.block_size().width(), t.width());
        assert_eq!(t.block_size().height(), t.height());
        assert_eq!(t.width_mi(), t.width() >> 2);
        assert_eq!(t.height_mi(), t.height() >> 2);
    }
}

#[test]
fn transform_legality() {
    assert!(valid_av1_transform(TX_64X64, DCT_DCT));
    assert!(!valid_av1_transform(TX_64X64, IDTX));
    assert!(valid_av1_transform(TX_32X32, IDTX));
    assert!(!valid_av1_transform(TX_32X32, ADST_ADST));
    assert!(valid_av1_transform(TX_16X16, ADST_ADST));

    for &t in ALL_TX_SIZES.iter() {
        let list = get_valid_txfm_types(t);
        let expected = if t.sqr_up() == TX_64X64 {
            1
        } else if t.sqr_up() == TX_32X32 {
            2
        } else if t == TX_4X4 {
            17
        } else {
            16
        };
        assert_eq!(list.len(), expected);
        for &ty in list.iter() {
            assert!(valid_av1_transform(t, ty));
        }
    }
}

#[test]
fn table_slots_wrap_lossless() {
    // Tables with one slot per signalled type alias the lossless type
    // onto the first slot.
    assert_eq!(WHT_WHT.table_slot(), 0);
    assert_eq!(DCT_DCT.table_slot(), 0);
    assert_eq!(H_FLIPADST.table_slot(), 15);
    assert_eq!(IDTX.ordinal(), 9);
}

#[test]
fn one_dimensional_decomposition() {
    assert_eq!(ADST_DCT.into_1d_types(), (TxType1D::ADST, TxType1D::DCT));
    assert_eq!(V_DCT.into_1d_types(), (TxType1D::DCT, TxType1D::IDTX));
    assert_eq!(WHT_WHT.into_1d_types(), (TxType1D::WHT, TxType1D::WHT));
    for &ty in ALL_TX_TYPES.iter() {
        let (v, h) = ty.into_1d_types();
        assert_eq!(v, VTX_TAB[ty.ordinal()]);
        assert_eq!(h, HTX_TAB[ty.ordinal()]);
    }
}

#[test]
fn uv_inter_narrowing() {
    assert_eq!(ADST_ADST.uv_inter(TX_32X32), DCT_DCT);
    assert_eq!(IDTX.uv_inter(TX_32X32), IDTX);
    assert_eq!(IDTX.uv_inter(TX_16X32), IDTX);
    assert_eq!(ADST_DCT.uv_inter(TX_16X32), DCT_DCT);
    assert_eq!(V_ADST.uv_inter(TX_16X16), DCT_DCT);
    assert_eq!(ADST_ADST.uv_inter(TX_16X16), ADST_ADST);
    assert_eq!(H_FLIPADST.uv_inter(TX_16X32), DCT_DCT);
    assert_eq!(V_ADST.uv_inter(TX_8X8), V_ADST);
}

#[test]
fn fixed_point_primitives() {
    assert_eq!(SQRT2_BITS, 12);
    assert_eq!(SQRT2, 5793);
    assert_eq!(INV_SQRT2, 2896);

    // 5793 * 1024 = 5932032; rounded right by 12: 1448.
    assert_eq!(half_btf(SQRT2, 1024, 0, 0, 12), 1448);
    assert_eq!(half_btf(1, 5, 1, 3, 0), 8);
    assert_eq!(half_btf(1, 5, -1, 3, 1), 1);

    assert_eq!(clamp_value(70000, 16), 32767);
    assert_eq!(clamp_value(-70000, 16), -32768);
    assert_eq!(clamp_value(1234, 16), 1234);
    assert_eq!(clamp_value(300, 8), 127);
    assert_eq!(clamp_value(-300, 8), -128);
}

#[test]
fn round_shift_array() {
    let mut a: Vec<i32> = vec![5, -5, 8, 100, 7];
    av1_round_shift_array(&mut a, 4, 1);
    assert_eq!(a, vec![3, -2, 4, 50, 7]);

    let mut b: Vec<i32> = vec![3, -4, 9];
    av1_round_shift_array(&mut b, 3, -2);
    assert_eq!(b, vec![12, -16, 36]);

    let mut c: Vec<i32> = vec![3, -4, 9];
    av1_round_shift_array(&mut c, 3, 0);
    assert_eq!(c, vec![3, -4, 9]);
}
