//! Threshold matrix and dither/pack stage.

use it8951_video::dither::{dither_and_pack, ThresholdMatrix};

#[test]
fn matrix_shape() {
    let tm = ThresholdMatrix::new();
    assert_eq!(tm.nx, 256);
    assert_eq!(tm.ny, 256);
    assert_eq!(tm.matrix.len(), 65536);
}

#[test]
fn look_up_is_periodic() {
    let tm = ThresholdMatrix::new();
    for &(x, y) in &[(0u32, 0u32), (1, 2), (17, 200), (255, 255), (300, 1000)] {
        let t = tm.look_up(x, y);
        assert_eq!(t, tm.look_up(x + 256, y));
        assert_eq!(t, tm.look_up(x, y + 256));
        assert_eq!(t, tm.look_up(x + 256, y + 256));
        assert_eq!(t, tm.look_up(x + 5 * 256, y + 9 * 256));
    }
}

#[test]
fn origin_threshold_is_zero() {
    // The cell for (0, 0) interleaves all-zero bits.
    let tm = ThresholdMatrix::new();
    assert_eq!(tm.look_up(0, 0), 0);
}

#[test]
fn dither_output_length() {
    let tm = ThresholdMatrix::new();
    for &(w, h) in &[(8u32, 1u32), (8, 3), (16, 2), (100, 4), (1856, 2)] {
        let gray = vec![128u8; (w * h) as usize];
        let out = dither_and_pack(&gray, w, h, &tm);
        assert_eq!(out.len(), (w * h / 8) as usize);
    }
}

#[test]
fn dither_all_white_and_all_black() {
    let tm = ThresholdMatrix::new();
    // 255 exceeds every threshold byte (they cannot reach 255), 0 exceeds none.
    let white = dither_and_pack(&vec![255u8; 32], 16, 2, &tm);
    assert_eq!(white, vec![0xff; 4]);
    let black = dither_and_pack(&vec![0u8; 32], 16, 2, &tm);
    assert_eq!(black, vec![0x00; 4]);
}

#[test]
fn dither_packs_lsb_first() {
    let tm = ThresholdMatrix::new();
    // Only pixel 0 is white: the cell at (0, 0) holds threshold 0 and the
    // sample 255 exceeds it, while samples of 0 never exceed anything.
    let mut gray = vec![0u8; 8];
    gray[0] = 255;
    let out = dither_and_pack(&gray, 8, 1, &tm);
    assert_eq!(out, vec![0b0000_0001]);
    // Only pixel 3 is white.
    let mut gray2 = vec![0u8; 8];
    gray2[3] = 255;
    let out2 = dither_and_pack(&gray2, 8, 1, &tm);
    assert_eq!(out2, vec![0b0000_1000]);
}

#[test]
fn dither_packs_across_row_boundaries() {
    // With 4-pixel rows the bits run on continuously: one output byte
    // covers two whole rows. Row 0 is all white, row 1 all black.
    let tm = ThresholdMatrix::new();
    let gray = vec![255, 255, 255, 255, 0, 0, 0, 0];
    let out = dither_and_pack(&gray, 4, 2, &tm);
    assert_eq!(out, vec![0b0000_1111]);
}

#[test]
fn dither_matches_per_pixel_rule() {
    let tm = ThresholdMatrix::new();
    let w: u32 = 24;
    let h: u32 = 3;
    let gray: Vec<u8> = (0..(w * h)).map(|i| (i * 7 % 256) as u8).collect();
    let out = dither_and_pack(&gray, w, h, &tm);
    for k in 0..(w * h) as usize {
        let x = (k as u32) % w;
        let y = (k as u32) / w;
        let white = gray[k] > tm.look_up(x, y);
        let bit = (out[k / 8] >> (k % 8)) & 1 == 1;
        assert_eq!(bit, white, "pixel {}", k);
    }
}
