//! Ordered dithering and 1-bit packing.
//!
//! A Bayer-style threshold matrix, generated once by bit-interleaving pixel
//! coordinates, turns an 8-bit grayscale frame into the packed
//! 1-bit-per-pixel format the controller draws: a pixel is white (bit 1)
//! exactly when its sample exceeds the matrix entry for its position, and
//! bits are packed eight per byte, least-significant bit first, row-major.

use vstd::arithmetic::div_mod::{
    lemma_fundamental_div_mod_converse, lemma_mod_add_multiples_vanish,
};
use vstd::prelude::*;

verus! {

/// Side length of the threshold matrix; a power of two.
pub const MATRIX_SIDE: u32 = 256;

/// The 16-bit pattern value of a matrix cell: the bits of `xc` and `yc`
/// interleaved, most significant bit of each landing lowest, `xc` on the
/// odd positions.
pub open spec fn spec_interleave(xc: u32, yc: u32) -> u32 {
    (((yc >> 7) & 1) << 0) | (((xc >> 7) & 1) << 1) | (((yc >> 6) & 1) << 2) | (((xc >> 6) & 1)
        << 3) | (((yc >> 5) & 1) << 4) | (((xc >> 5) & 1) << 5) | (((yc >> 4) & 1) << 6) | (((xc
        >> 4) & 1) << 7) | (((yc >> 3) & 1) << 8) | (((xc >> 3) & 1) << 9) | (((yc >> 2) & 1)
        << 10) | (((xc >> 2) & 1) << 11) | (((yc >> 1) & 1) << 12) | (((xc >> 1) & 1) << 13) | (((
    yc >> 0) & 1) << 14) | (((xc >> 0) & 1) << 15)
}

/// The interleaved pattern uses 16 bits.
pub proof fn lemma_interleave_bounds(xc: u32, yc: u32)
    ensures
        spec_interleave(xc, yc) <= 0xffff,
{
    assert(spec_interleave(xc, yc) <= 0xffff) by (bit_vector);
}

/// Compute the interleaved pattern value.
pub fn interleave_bits(xc: u32, yc: u32) -> (v: u32)
    ensures
        v == spec_interleave(xc, yc),
{
    (((yc >> 7) & 1) << 0) | (((xc >> 7) & 1) << 1) | (((yc >> 6) & 1) << 2) | (((xc >> 6) & 1)
        << 3) | (((yc >> 5) & 1) << 4) | (((xc >> 5) & 1) << 5) | (((yc >> 4) & 1) << 6) | (((xc
        >> 4) & 1) << 7) | (((yc >> 3) & 1) << 8) | (((xc >> 3) & 1) << 9) | (((yc >> 2) & 1)
        << 10) | (((xc >> 2) & 1) << 11) | (((yc >> 1) & 1) << 12) | (((xc >> 1) & 1) << 13) | (((
    yc >> 0) & 1) << 14) | (((xc >> 0) & 1) << 15)
}

/// The threshold byte of the matrix cell generated for coordinates
/// `(a, b)`: the interleaved pattern of `a ^ b` and `b`, normalized from
/// 16 bits down to a byte.
pub open spec fn spec_threshold(a: u32, b: u32) -> u8 {
    ((spec_interleave(a ^ b, b) * 255) / 65536) as u8
}

/// The threshold that dithering compares the sample at `(x, y)` against:
/// the matrix is indexed by the coordinates modulo its side length, row
/// index first.
pub open spec fn spec_look_up(x: u32, y: u32) -> u8 {
    spec_threshold((y % 256) as u32, (x % 256) as u32)
}

/// The precomputed ordered-dithering threshold matrix: one byte per cell
/// of a 256 x 256 grid, generated once per process and immutable after.
pub struct ThresholdMatrix {
    /// Side length of the grid in x.
    pub nx: u32,
    /// Side length of the grid in y.
    pub ny: u32,
    /// The grid, row-major: the cell generated for `(a, b)` sits at
    /// `a * 256 + b`.
    pub matrix: Vec<u8>,
}

impl ThresholdMatrix {
    /// What holds of every generated matrix: the full 256 x 256 grid is
    /// present and each cell carries its threshold value.
    pub open spec fn wf(self) -> bool {
        &&& self.nx == 256
        &&& self.ny == 256
        &&& self.matrix@.len() == 65536
        &&& forall|k: int|
            0 <= k < 65536 ==> self.matrix@[k] == spec_threshold(
                (k / 256) as u32,
                (k % 256) as u32,
            )
    }

    /// Generate the matrix.
    pub fn new() -> (m: ThresholdMatrix)
        ensures
            m.wf(),
    {
        let side: u32 = MATRIX_SIDE;
        let mut matrix: Vec<u8> = Vec::new();
        let mut a: u32 = 0;
        while a < side
            invariant
                side == 256,
                a <= 256,
                matrix@.len() == a * 256,
                forall|k: int|
                    0 <= k < matrix@.len() ==> matrix@[k] == spec_threshold(
                        (k / 256) as u32,
                        (k % 256) as u32,
                    ),
            decreases 256 - a,
        {
            let mut b: u32 = 0;
            while b < side
                invariant
                    side == 256,
                    a < 256,
                    b <= 256,
                    matrix@.len() == a * 256 + b,
                    forall|k: int|
                        0 <= k < matrix@.len() ==> matrix@[k] == spec_threshold(
                            (k / 256) as u32,
                            (k % 256) as u32,
                        ),
                decreases 256 - b,
            {
                let v = interleave_bits(a ^ b, b);
                proof {
                    lemma_interleave_bounds(a ^ b, b);
                }
                let t = ((v * 255) / 65536) as u8;
                proof {
                    assert(v <= 0xffff ==> (v * 255) / 65536 < 256) by (bit_vector);
                }
                matrix.push(t);
                proof {
                    let n = a * 256 + b;
                    lemma_fundamental_div_mod_converse(n as int, 256, a as int, b as int);
                    assert(matrix@[n as int] == spec_threshold(a, b));
                    assert((v * 255) / 65536 < 256);
                    assert(t == spec_threshold(a, b));
                }
                b = b + 1;
            }
            a = a + 1;
        }
        ThresholdMatrix { nx: side, ny: side, matrix }
    }

    /// Look up the threshold for the pixel at `(x, y)`; the matrix repeats
    /// with period 256 in both directions.
    pub fn look_up(&self, x: u32, y: u32) -> (t: u8)
        requires
            self.wf(),
        ensures
            t == spec_look_up(x, y),
    {
        let j = x % self.nx;
        let i = y % self.ny;
        let idx: usize = (i * self.nx + j) as usize;
        proof {
            lemma_fundamental_div_mod_converse((i * 256 + j) as int, 256, i as int, j as int);
        }
        self.matrix[idx]
    }
}

/// Whether the pixel with row-major index `k` of a `width`-pixel-wide
/// grayscale frame dithers to white: its sample strictly exceeds the
/// threshold for its position.
pub open spec fn spec_white(gray: Seq<u8>, width: u32, k: int) -> bool {
    gray[k] > spec_look_up((k % (width as int)) as u32, (k / (width as int)) as u32)
}

/// The packed output byte covering pixels `[k, k + 8)`: one bit per white
/// pixel, least-significant bit first.
pub open spec fn spec_packed_byte(gray: Seq<u8>, width: u32, k: int) -> u8 {
    (if spec_white(gray, width, k) {
        1u8
    } else {
        0u8
    }) | (if spec_white(gray, width, k + 1) {
        2u8
    } else {
        0u8
    }) | (if spec_white(gray, width, k + 2) {
        4u8
    } else {
        0u8
    }) | (if spec_white(gray, width, k + 3) {
        8u8
    } else {
        0u8
    }) | (if spec_white(gray, width, k + 4) {
        16u8
    } else {
        0u8
    }) | (if spec_white(gray, width, k + 5) {
        32u8
    } else {
        0u8
    }) | (if spec_white(gray, width, k + 6) {
        64u8
    } else {
        0u8
    }) | (if spec_white(gray, width, k + 7) {
        128u8
    } else {
        0u8
    })
}

/// Bit `k` of the packed output, eight bits per byte, least-significant
/// bit first.
pub open spec fn spec_packed_bit(out: Seq<u8>, k: int) -> bool {
    (out[k / 8] >> ((k % 8) as u32)) & 1 == 1
}

/// A packed byte hands each of its pixels back: bit `k % 8` of byte
/// `k / 8` is set exactly when pixel `k` dithered to white.
pub proof fn lemma_packed_byte_bit(gray: Seq<u8>, width: u32, out: Seq<u8>, k: int)
    requires
        forall|b: int| 0 <= b < out.len() ==> out[b] == spec_packed_byte(gray, width, 8 * b),
        0 <= k < 8 * out.len(),
    ensures
        spec_packed_bit(out, k) == spec_white(gray, width, k),
{
    let b = k / 8;
    let t = (k % 8) as u32;
    vstd::arithmetic::div_mod::lemma_fundamental_div_mod(k, 8);
    vstd::arithmetic::div_mod::lemma_multiply_divide_lt(k, 8, out.len() as int);
    let byte = out[b];
    assert(byte == spec_packed_byte(gray, width, 8 * b));
    let m0: u8 = if spec_white(gray, width, 8 * b) { 1u8 } else { 0u8 };
    let m1: u8 = if spec_white(gray, width, 8 * b + 1) { 2u8 } else { 0u8 };
    let m2: u8 = if spec_white(gray, width, 8 * b + 2) { 4u8 } else { 0u8 };
    let m3: u8 = if spec_white(gray, width, 8 * b + 3) { 8u8 } else { 0u8 };
    let m4: u8 = if spec_white(gray, width, 8 * b + 4) { 16u8 } else { 0u8 };
    let m5: u8 = if spec_white(gray, width, 8 * b + 5) { 32u8 } else { 0u8 };
    let m6: u8 = if spec_white(gray, width, 8 * b + 6) { 64u8 } else { 0u8 };
    let m7: u8 = if spec_white(gray, width, 8 * b + 7) { 128u8 } else { 0u8 };
    assert(byte == (m0 | m1 | m2 | m3 | m4 | m5 | m6 | m7));
    assert((((m0 | m1 | m2 | m3 | m4 | m5 | m6 | m7) >> t) & 1 == 1) == (if t == 0 {
        m0 == 1
    } else if t == 1 {
        m1 == 2
    } else if t == 2 {
        m2 == 4
    } else if t == 3 {
        m3 == 8
    } else if t == 4 {
        m4 == 16
    } else if t == 5 {
        m5 == 32
    } else if t == 6 {
        m6 == 64
    } else {
        m7 == 128
    })) by (bit_vector)
        requires
            (m0 == 0 || m0 == 1) && (m1 == 0 || m1 == 2) && (m2 == 0 || m2 == 4) && (m3 == 0 || m3
                == 8) && (m4 == 0 || m4 == 16) && (m5 == 0 || m5 == 32) && (m6 == 0 || m6 == 64)
                && (m7 == 0 || m7 == 128),
            t < 8,
    ;
}

/// One pixel's contribution to its packed byte: `mask` when the pixel at
/// row-major index `k` dithers to white, 0 otherwise.
fn pixel_mask(gray: &[u8], width: u32, k: usize, tm: &ThresholdMatrix, mask: u8) -> (r: u8)
    requires
        tm.wf(),
        width > 0,
        k < gray@.len(),
        k as int / (width as int) < 0x1_0000_0000,
    ensures
        r == (if spec_white(gray@, width, k as int) {
            mask
        } else {
            0u8
        }),
{
    let w = width as usize;
    let x = (k % w) as u32;
    let y = (k / w) as u32;
    if gray[k] > tm.look_up(x, y) {
        mask
    } else {
        0
    }
}

/// Dither a grayscale frame against the threshold matrix and pack it into
/// the 1-bit-per-pixel format the controller draws.
///
/// For every pixel the output bit is 1 (white) exactly when the sample
/// exceeds the threshold for its position; bits are packed eight per
/// byte, least-significant bit first, row-major, so the output holds
/// exactly `width * height / 8` bytes. The pixel count must be divisible
/// by 8, a constraint on the resolutions this player accepts.
pub fn dither_and_pack(gray: &[u8], width: u32, height: u32, tm: &ThresholdMatrix) -> (out: Vec<
    u8,
>)
    requires
        tm.wf(),
        gray@.len() == width * height,
        (width * height) % 8 == 0,
    ensures
        out@.len() == (width * height) as int / 8,
        forall|b: int| 0 <= b < out@.len() ==> out@[b] == spec_packed_byte(gray@, width, 8 * b),
        forall|k: int|
            0 <= k < width * height ==> spec_packed_bit(out@, k) == spec_white(gray@, width, k),
{
    let total = gray.len();
    let mut out: Vec<u8> = Vec::new();
    let mut k: usize = 0;
    while k < total
        invariant
            tm.wf(),
            total == gray@.len(),
            total == width * height,
            total % 8 == 0,
            k <= total,
            k % 8 == 0,
            out@.len() * 8 == k,
            forall|b: int|
                0 <= b < out@.len() ==> out@[b] == spec_packed_byte(gray@, width, 8 * b),
        decreases total - k,
    {
        proof {
            assert(width > 0) by (nonlinear_arith)
                requires
                    width * height > 0,
            ;
            assert(k + 8 <= total);
            vstd::arithmetic::div_mod::lemma_multiply_divide_lt(k as int, width as int, height as int);
            vstd::arithmetic::div_mod::lemma_multiply_divide_lt(k + 1, width as int, height as int);
            vstd::arithmetic::div_mod::lemma_multiply_divide_lt(k + 2, width as int, height as int);
            vstd::arithmetic::div_mod::lemma_multiply_divide_lt(k + 3, width as int, height as int);
            vstd::arithmetic::div_mod::lemma_multiply_divide_lt(k + 4, width as int, height as int);
            vstd::arithmetic::div_mod::lemma_multiply_divide_lt(k + 5, width as int, height as int);
            vstd::arithmetic::div_mod::lemma_multiply_divide_lt(k + 6, width as int, height as int);
            vstd::arithmetic::div_mod::lemma_multiply_divide_lt(k + 7, width as int, height as int);
        }
        let m0 = pixel_mask(gray, width, k, tm, 1);
        let m1 = pixel_mask(gray, width, k + 1, tm, 2);
        let m2 = pixel_mask(gray, width, k + 2, tm, 4);
        let m3 = pixel_mask(gray, width, k + 3, tm, 8);
        let m4 = pixel_mask(gray, width, k + 4, tm, 16);
        let m5 = pixel_mask(gray, width, k + 5, tm, 32);
        let m6 = pixel_mask(gray, width, k + 6, tm, 64);
        let m7 = pixel_mask(gray, width, k + 7, tm, 128);
        let byte = m0 | m1 | m2 | m3 | m4 | m5 | m6 | m7;
        proof {
            assert(byte == spec_packed_byte(gray@, width, k as int));
        }
        out.push(byte);
        k = k + 8;
    }
    proof {
        assert(out@.len() == total as int / 8);
        assert forall|k: int| 0 <= k < width * height implies spec_packed_bit(out@, k)
            == spec_white(gray@, width, k) by {
            lemma_packed_byte_bit(gray@, width, out@, k);
        }
    }
    out
}

/// Threshold-matrix lookup is periodic: moving one full side length in
/// either direction lands on the same cell.
pub proof fn lemma_look_up_periodic(x: u32, y: u32)
    requires
        x + 256 <= u32::MAX,
        y + 256 <= u32::MAX,
    ensures
        spec_look_up((x + 256) as u32, y) == spec_look_up(x, y),
        spec_look_up(x, (y + 256) as u32) == spec_look_up(x, y),
{
    lemma_mod_add_multiples_vanish(x as int, 256);
    lemma_mod_add_multiples_vanish(y as int, 256);
    assert((x + 256) as u32 % 256 == x % 256);
    assert((y + 256) as u32 % 256 == y % 256);
}

} // verus!
