use rav1e_core::entropy::build_cdf;
use rav1e_core::entropy_defaults::{
    default_intrabc_cdf, default_kf_y_mode_cdf, default_newmv_cdf,
    default_palette_y_color_index_cdf, default_partition_cdf, default_seg_tree_cdf,
    default_skip_cdfs, default_tx_size_cdf, default_wedge_idx_cdf,
};

#[test]
fn build_cdf_converts_breakpoints() {
    assert_eq!(build_cdf(&default_intrabc_cdf), Some(vec![32768 - 30531, 0]));
    assert_eq!(
        build_cdf(&default_seg_tree_cdf),
        Some(vec![28672, 24576, 20480, 16384, 12288, 8192, 4096, 0])
    );
}

#[test]
fn build_cdf_rejects_bad_rows() {
    assert_eq!(build_cdf(&[100, 50]), None);
    assert_eq!(build_cdf(&[32768]), None);
    assert_eq!(build_cdf(&[0, 0, 32767]), Some(vec![32768, 32768, 1, 0]));
}

#[test]
fn table_values_are_verbatim() {
    assert_eq!(default_kf_y_mode_cdf[0][0][0], 15588);
    assert_eq!(default_kf_y_mode_cdf[4][4][11], 32593);
    assert_eq!(default_partition_cdf[0][0], 15597);
    assert_eq!(default_skip_cdfs[2], [4576]);
    assert_eq!(default_newmv_cdf.len(), 6);
    assert_eq!(default_newmv_cdf[0], [24035]);
    assert_eq!(default_wedge_idx_cdf.len(), 22);
    assert_eq!(default_tx_size_cdf[0][0], [12272, 30172]);
}

#[test]
fn all_rows_convert() {
    for ctx in default_kf_y_mode_cdf.iter() {
        for row in ctx.iter() {
            assert!(build_cdf(row).is_some());
        }
    }
    for row in default_wedge_idx_cdf.iter() {
        assert!(build_cdf(row).is_some());
    }
}

#[test]
fn palette_color_tables_are_ragged() {
    let y = default_palette_y_color_index_cdf();
    assert_eq!(y.len(), 7);
    for (i, per_size) in y.iter().enumerate() {
        assert_eq!(per_size.len(), 5);
        for row in per_size.iter() {
            // Palette of size i+2 codes i+1 breakpoints per row.
            assert_eq!(row.len(), i + 1);
            assert!(build_cdf(row).is_some());
        }
    }
    assert_eq!(y[0][0], vec![28710]);
    assert_eq!(y[6][4][6], 32392);
}
