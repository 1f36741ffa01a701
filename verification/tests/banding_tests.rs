//! The banding algorithm.

use it8951_video::banding::{band_byte_range, compute_bands};
use it8951_video::errors::Error;

/// Every row in `[0, height)` lies in exactly one band, bands are
/// contiguous in order, and no band's byte size exceeds the transfer cap.
fn assert_tiling(
    bands: &[it8951_video::banding::Band],
    height: u32,
    width: u32,
    max_transfer: u32,
    header: u32,
) {
    let mut next_row = 0u32;
    for b in bands {
        assert_eq!(b.start_row, next_row);
        assert!(b.rows >= 1);
        assert!(b.rows as u64 * width as u64 + header as u64 <= max_transfer as u64);
        next_row += b.rows;
    }
    assert_eq!(next_row, height);
}

#[test]
fn bands_tile_the_rows() {
    let bands = compute_bands(100, 57, 1000, 24).expect("one row fits");
    // 976 / 100 = 9 rows per full band; 57 = 6 * 9 + 3.
    assert_eq!(bands.len(), 7);
    for b in &bands[..6] {
        assert_eq!(b.rows, 9);
    }
    assert_eq!(bands[6].rows, 3);
    assert_tiling(&bands, 57, 100, 1000, 24);
}

#[test]
fn bands_exact_fit() {
    let bands = compute_bands(64, 32, 512 + 16, 16).expect("rows fit");
    // 512 / 64 = 8 rows per band, 32 = 4 * 8: four equal bands.
    assert_eq!(bands.len(), 4);
    assert_tiling(&bands, 32, 64, 512 + 16, 16);
}

#[test]
fn bands_full_frame() {
    // A full 1856 x 1392 1bpp frame: 232 bytes per row, a 60 KiB cap.
    let bands = compute_bands(232, 1392, 60 * 1024, 0).expect("rows fit");
    assert_tiling(&bands, 1392, 232, 60 * 1024, 0);
}

#[test]
fn bands_empty_image() {
    let bands = compute_bands(100, 0, 1000, 0).expect("zero rows are fine");
    assert!(bands.is_empty());
}

#[test]
fn bands_refuse_row_wider_than_transfer() {
    assert_eq!(compute_bands(1000, 10, 500, 0), Err(Error::Precondition));
    assert_eq!(compute_bands(0, 10, 500, 0), Err(Error::Precondition));
    assert_eq!(compute_bands(10, 10, 500, 500), Err(Error::Precondition));
    assert_eq!(compute_bands(977, 10, 1000, 24), Err(Error::Precondition));
}

#[test]
fn band_byte_ranges_are_contiguous() {
    let width = 232u32;
    let bands = compute_bands(width, 1392, 60 * 1024, 0).expect("rows fit");
    let mut next = 0usize;
    for b in &bands {
        let (lo, hi) = band_byte_range(*b, width);
        assert_eq!(lo, next);
        assert!(hi > lo);
        next = hi;
    }
    assert_eq!(next, 232 * 1392);
}
