//! Storage layout of general banded matrices used by the penalized-spline
//! solver: diagonal `d = col - row` is stored as band `d + bandwidth`.

use vstd::prelude::*;

verus! {

/// The band that holds entry `(row, col)` of a general banded matrix, when the
/// entry lies within `bandwidth` of the diagonal.
pub open spec fn general_band(bandwidth: int, row: int, col: int) -> Option<int> {
    if -bandwidth <= col - row <= bandwidth {
        Some(col - row + bandwidth)
    } else {
        None
    }
}

/// Returns the band of entry `(row, col)`, or `None` when it lies outside the
/// band.
pub fn general_band_index(bandwidth: usize, row: usize, col: usize) -> (res: Option<usize>)
    requires
        row <= isize::MAX,
        col <= isize::MAX,
        2 * bandwidth <= isize::MAX,
    ensures
        match res {
            Some(band) => general_band(bandwidth as int, row as int, col as int) == Some(band as int),
            None => general_band(bandwidth as int, row as int, col as int) is None,
        },
{
    let offset = col as isize - row as isize;
    let distance: usize = if offset < 0 { (-offset) as usize } else { offset as usize };
    if distance <= bandwidth {
        Some((offset + bandwidth as isize) as usize)
    } else {
        None
    }
}

/// In-band entries land in one of the `2 * bandwidth + 1` stored bands, and
/// distinct columns of one row land in distinct bands.
pub proof fn lemma_general_band_layout(bandwidth: int, row: int, col1: int, col2: int)
    requires
        bandwidth >= 0,
        general_band(bandwidth, row, col1) is Some,
        general_band(bandwidth, row, col2) is Some,
    ensures
        0 <= general_band(bandwidth, row, col1)->0 < 2 * bandwidth + 1,
        general_band(bandwidth, row, col1) == general_band(bandwidth, row, col2) ==> col1 == col2,
{
}


/// The main diagonal is stored as band `bandwidth`, and the next column of
/// a row is stored in the next band: entry `(row, col)` lies in band
/// `bandwidth + col - row` exactly when it is within `bandwidth` of the
/// diagonal.
pub proof fn lemma_general_band_follows_diagonals(bandwidth: int, row: int, col: int)
    requires
        bandwidth >= 0,
    ensures
        general_band(bandwidth, row, row) == Some(bandwidth),
        general_band(bandwidth, row, col) is Some && general_band(bandwidth, row, col + 1) is Some ==> general_band(
            bandwidth,
            row,
            col + 1,
        )->0 == general_band(bandwidth, row, col)->0 + 1,
        general_band(bandwidth, row, col) is Some <==> (row - bandwidth <= col && col <= row + bandwidth),
{
}

} // verus!
