//! Storage layout of symmetric banded matrices: band `offset` holds the
//! entries `(lower + offset, lower)` and is stored contiguously.

use vstd::prelude::*;

verus! {

/// The position of the entry at band `offset` and lower-index coordinate
/// `lower` in the flat band storage of an `n` by `n` system.
pub fn band_index(n: usize, offset: usize, lower: usize) -> (index: usize)
    requires
        offset * n + lower <= usize::MAX,
    ensures
        index == offset * n + lower,
{
    offset * n + lower
}

/// Distinct entries of a symmetric banded matrix occupy distinct storage
/// positions: for lower-index coordinates below `n`, the band offset and the
/// coordinate are recovered from the position.
pub proof fn lemma_band_index_injective(n: int, offset1: int, lower1: int, offset2: int, lower2: int)
    requires
        0 <= lower1 < n,
        0 <= lower2 < n,
        0 <= offset1,
        0 <= offset2,
        offset1 * n + lower1 == offset2 * n + lower2,
    ensures
        offset1 == offset2,
        lower1 == lower2,
{
    vstd::arithmetic::div_mod::lemma_fundamental_div_mod_converse(offset1 * n + lower1, n, offset1, lower1);
    vstd::arithmetic::div_mod::lemma_fundamental_div_mod_converse(offset2 * n + lower2, n, offset2, lower2);
}

/// Storage for `bandwidth + 1` bands of an `n` by `n` system holds every
/// in-band entry: each position lies below `(bandwidth + 1) * n`.
pub proof fn lemma_band_index_in_storage(n: int, bandwidth: int, offset: int, lower: int)
    requires
        0 <= lower < n,
        0 <= offset <= bandwidth,
    ensures
        0 <= offset * n + lower < (bandwidth + 1) * n,
{
    assert(offset * n + lower < (bandwidth + 1) * n) by (nonlinear_arith)
        requires
            0 <= lower < n,
            0 <= offset <= bandwidth,
    ;
    assert(0 <= offset * n) by (nonlinear_arith)
        requires
            0 <= offset,
            0 < n,
    ;
}

} // verus!
