//! The banding algorithm.
//!
//! A full frame is larger than the transport's maximum transfer size, so an
//! image load has to be split into horizontal bands. Each band carries as
//! many whole rows as fit beside the per-band header; the final band is
//! shrunk so that nothing past the end of the buffer is read. The bands
//! tile the row range exactly: every row of the image lands in exactly one
//! band.

use vstd::prelude::*;

use crate::errors::Error;

verus! {

/// One horizontal band of an image load: `rows` rows starting at row
/// `start_row`.
#[derive(Clone, Copy, Debug, PartialEq, Eq, Structural)]
pub struct Band {
    /// First row of the band.
    pub start_row: u32,
    /// Number of rows in the band; always at least 1.
    pub rows: u32,
}

/// Whether `row` lies inside band `b`.
pub open spec fn band_contains(b: Band, row: int) -> bool {
    b.start_row <= row < b.start_row + b.rows
}

/// Whether `bands` tiles the row range `[lo, hi)`: the first band starts at
/// `lo`, every band is non-empty and begins exactly where its predecessor
/// ended, and the last band ends at `hi`.
pub open spec fn bands_tile(bands: Seq<Band>, lo: int, hi: int) -> bool {
    &&& (bands.len() == 0 ==> lo == hi)
    &&& (bands.len() > 0 ==> bands[0].start_row == lo)
    &&& (forall|i: int| 0 <= i < bands.len() ==> (#[trigger] bands[i].rows) > 0)
    &&& (forall|i: int|
        0 <= i < bands.len() - 1 ==> (#[trigger] bands[i].start_row) + bands[i].rows == bands[i
            + 1].start_row)
    &&& (bands.len() > 0 ==> bands[bands.len() - 1].start_row + bands[bands.len() - 1].rows == hi)
}

/// Every band of a tiling stays inside the tiled range.
pub proof fn lemma_band_bounds(bands: Seq<Band>, lo: int, hi: int)
    requires
        bands_tile(bands, lo, hi),
    ensures
        forall|i: int|
            0 <= i < bands.len() ==> lo <= (#[trigger] bands[i].start_row) && bands[i].start_row
                + bands[i].rows <= hi,
    decreases bands.len(),
{
    if bands.len() > 0 {
        let rest = bands.subrange(1, bands.len() as int);
        let mid = bands[0].start_row + bands[0].rows;
        assert forall|i: int| 0 <= i < rest.len() implies rest[i] == bands[i + 1] by {}
        assert(bands_tile(rest, mid, hi));
        lemma_band_bounds(rest, mid, hi);
        assert forall|i: int|
            0 <= i < bands.len() implies lo <= (#[trigger] bands[i].start_row)
            && bands[i].start_row + bands[i].rows <= hi by {
            if i >= 1 {
                assert(bands[i] == rest[i - 1]);
            }
        }
    }
}

/// The banding invariant: in a tiling of `[lo, hi)` every row of the range
/// lies in exactly one band.
pub proof fn lemma_bands_cover_each_row_once(bands: Seq<Band>, lo: int, hi: int, row: int)
    requires
        bands_tile(bands, lo, hi),
        lo <= row < hi,
    ensures
        exists|i: int| 0 <= i < bands.len() && #[trigger] band_contains(bands[i], row),
        forall|i: int, j: int|
            0 <= i < bands.len() && 0 <= j < bands.len() && #[trigger] band_contains(bands[i], row)
                && #[trigger] band_contains(bands[j], row) ==> i == j,
    decreases bands.len(),
{
    let b0 = bands[0];
    let mid = b0.start_row + b0.rows;
    let rest = bands.subrange(1, bands.len() as int);
    assert forall|i: int| 0 <= i < rest.len() implies rest[i] == bands[i + 1] by {}
    assert(bands_tile(rest, mid, hi));
    if row < mid {
        assert(band_contains(bands[0], row));
        lemma_band_bounds(rest, mid, hi);
        assert forall|i: int, j: int|
            0 <= i < bands.len() && 0 <= j < bands.len() && #[trigger] band_contains(bands[i], row)
                && #[trigger] band_contains(bands[j], row) implies i == j by {
            if i >= 1 {
                assert(bands[i] == rest[i - 1]);
                assert(bands[i].start_row >= mid);
            }
            if j >= 1 {
                assert(bands[j] == rest[j - 1]);
                assert(bands[j].start_row >= mid);
            }
        }
    } else {
        lemma_bands_cover_each_row_once(rest, mid, hi, row);
        let k = choose|k: int| 0 <= k < rest.len() && #[trigger] band_contains(rest[k], row);
        assert(bands[k + 1] == rest[k]);
        assert(band_contains(bands[k + 1], row));
        assert forall|i: int, j: int|
            0 <= i < bands.len() && 0 <= j < bands.len() && #[trigger] band_contains(bands[i], row)
                && #[trigger] band_contains(bands[j], row) implies i == j by {
            if i >= 1 && j >= 1 {
                assert(band_contains(rest[i - 1], row));
                assert(band_contains(rest[j - 1], row));
            }
        }
    }
}

/// Split `height` rows of `width` bytes each into bands whose byte size,
/// header included, never exceeds `max_transfer`.
///
/// The row count of a full band is `(max_transfer - header_size) / width`;
/// the last band is shrunk to the rows that remain. The call is refused
/// before any I/O when not even one row fits beside the header.
pub fn compute_bands(width: u32, height: u32, max_transfer: u32, header_size: u32) -> (r: Result<
    Vec<Band>,
    Error,
>)
    ensures
        match r {
            Ok(bands) => {
                &&& width > 0
                &&& header_size < max_transfer
                &&& width <= max_transfer - header_size
                &&& bands_tile(bands@, 0, height as int)
                &&& forall|i: int|
                    0 <= i < bands@.len() ==> (#[trigger] bands@[i].rows) * width + header_size
                        <= max_transfer
            },
            Err(e) => {
                &&& e == Error::Precondition
                &&& !(width > 0 && header_size < max_transfer && width <= max_transfer
                    - header_size)
            },
        },
{
    if width == 0 || header_size >= max_transfer || width > max_transfer - header_size {
        return Err(Error::Precondition);
    }
    let budget = max_transfer - header_size;
    let rows_per_band = budget / width;
    proof {
        let q = budget as int / width as int;
        let m = budget as int % width as int;
        vstd::arithmetic::div_mod::lemma_fundamental_div_mod(budget as int, width as int);
        vstd::arithmetic::div_mod::lemma_mod_division_less_than_divisor(budget as int, width as int);
        assert(q >= 1) by (nonlinear_arith)
            requires
                budget >= width,
                budget == width * q + m,
                0 <= m < width,
                width > 0,
        ;
        assert(q * width <= budget) by (nonlinear_arith)
            requires
                budget == width * q + m,
                0 <= m,
        ;
        assert(rows_per_band == q);
        assert(rows_per_band >= 1);
        assert(rows_per_band * width <= budget);
    }
    let mut bands: Vec<Band> = Vec::new();
    let mut start: u32 = 0;
    while start < height
        invariant
            start <= height,
            rows_per_band >= 1,
            rows_per_band * width <= max_transfer - header_size,
            bands@.len() == 0 ==> start == 0,
            bands@.len() > 0 ==> bands@[0].start_row == 0,
            bands@.len() > 0 ==> bands@[bands@.len() - 1].start_row + bands@[bands@.len()
                - 1].rows == start,
            forall|i: int| 0 <= i < bands@.len() ==> (#[trigger] bands@[i].rows) > 0,
            forall|i: int|
                0 <= i < bands@.len() - 1 ==> (#[trigger] bands@[i].start_row) + bands@[i].rows
                    == bands@[i + 1].start_row,
            forall|i: int|
                0 <= i < bands@.len() ==> (#[trigger] bands@[i].rows) * width + header_size
                    <= max_transfer,
        decreases height - start,
    {
        let rows = if height - start < rows_per_band {
            height - start
        } else {
            rows_per_band
        };
        proof {
            assert(rows * width <= rows_per_band * width) by (nonlinear_arith)
                requires
                    rows <= rows_per_band,
                    width >= 0,
            ;
        }
        bands.push(Band { start_row: start, rows });
        start = start + rows;
    }
    Ok(bands)
}

/// The byte range of the image buffer that one band of a `width`-bytes-per-
/// row image covers: rows `[start_row, start_row + rows)` occupy bytes
/// `[start_row * width, (start_row + rows) * width)`.
pub fn band_byte_range(b: Band, width: u32) -> (r: (usize, usize))
    requires
        b.start_row + b.rows <= u32::MAX,
        (b.start_row + b.rows) * width <= usize::MAX,
    ensures
        r.0 == b.start_row * width,
        r.1 == (b.start_row + b.rows) * width,
        r.0 <= r.1,
{
    proof {
        assert(b.start_row * width <= (b.start_row + b.rows) * width) by (nonlinear_arith)
            requires
                b.rows >= 0,
                width >= 0,
                b.start_row >= 0,
        ;
    }
    let lo = b.start_row as usize * width as usize;
    let hi = (b.start_row as usize + b.rows as usize) * width as usize;
    (lo, hi)
}

} // verus!
