//! Mask logic of the classification-style baseline methods: which samples
//! are baseline and which belong to peaks, widening of peak regions, removal
//! of short baseline runs, and the segments spanned by peak regions. Also the
//! mirrored index maps used to pad signals at their edges.

use vstd::prelude::*;

verus! {

/// Parameters for classification-style baseline methods.
#[derive(Debug, Clone, Copy, PartialEq, Eq, Structural)]
pub struct ClassificationParams {
    /// Smoothing window used while identifying the lower envelope.
    pub window_size: usize,
}

impl Default for ClassificationParams {
    fn default() -> (p: Self)
        ensures
            p.window_size == 31,
    {
        ClassificationParams { window_size: 31 }
    }
}

/// Parameters for continuous-wavelet-transform baseline classification.
///
/// The thresholds are real numbers of the number type `R`, which the numeric
/// code instantiates with `f64`.
#[derive(Debug, Clone, PartialEq)]
pub struct CwtBrParams<R> {
    /// Polynomial order of the baseline fitted through the classified points.
    pub poly_order: usize,
    /// Wavelet scales; `None` selects them from the signal length.
    pub scales: Option<Vec<usize>>,
    /// Number of standard deviations above which a sample is a peak.
    pub num_std: R,
    /// Minimum length of a baseline run that is kept.
    pub min_length: usize,
    /// Maximum number of refinement iterations.
    pub max_iter: usize,
    /// Convergence tolerance.
    pub tol: R,
    /// Whether the peaks are symmetric about their centres.
    pub symmetric: bool,
}

/// Whether a set sample of `mask` lies within `radius` samples of `i`.
pub open spec fn near_set(mask: Seq<bool>, i: int, radius: int) -> bool {
    exists|j: int| 0 <= j < mask.len() && #[trigger] mask[j] && i - radius <= j <= i + radius
}

/// Whether a set sample among the first `upto` of `mask` lies within `radius` of `i`.
pub open spec fn near_set_before(mask: Seq<bool>, upto: int, i: int, radius: int) -> bool {
    exists|j: int| 0 <= j < upto && #[trigger] mask[j] && i - radius <= j <= i + radius
}

/// Widens every set sample of `mask` to the `radius` samples on either side.
pub fn dilate_mask(mask: &[bool], radius: usize) -> (output: Vec<bool>)
    requires
        forall|i: int| 0 <= i < mask@.len() && #[trigger] mask@[i] ==> i + radius + 1 <= usize::MAX,
    ensures
        output@.len() == mask@.len(),
        forall|i: int| 0 <= i < mask@.len() ==> #[trigger] output@[i] == near_set(mask@, i, radius as int),
{
    let n = mask.len();
    let mut output: Vec<bool> = vec![false; n];
    let mut index: usize = 0;
    while index < n
        invariant
            n == mask@.len(),
            forall|i: int| 0 <= i < n && #[trigger] mask@[i] ==> i + radius + 1 <= usize::MAX,
            index <= n,
            output@.len() == n,
            forall|i: int| 0 <= i < n ==> #[trigger] output@[i] == near_set_before(mask@, index as int, i, radius as int),
        decreases n - index,
    {
        if mask[index] {
            let start = if index >= radius { index - radius } else { 0 };
            let end = if index + radius + 1 < n { index + radius + 1 } else { n };
            let mut k = start;
            while k < end
                invariant
                    n == mask@.len(),
                    index < n,
                    mask@[index as int],
                    start <= k <= end <= n,
                    start == (if index >= radius { index - radius } else { 0 }),
                    end == (if index + radius + 1 < n { (index + radius + 1) as int } else { n as int }),
                    output@.len() == n,
                    forall|i: int| 0 <= i < start ==> #[trigger] output@[i] == near_set_before(mask@, index as int, i, radius as int),
                    forall|i: int| start <= i < k ==> #[trigger] output@[i],
                    forall|i: int| k <= i < n ==> #[trigger] output@[i] == near_set_before(mask@, index as int, i, radius as int),
                decreases end - k,
            {
                output.set(k, true);
                k = k + 1;
            }
            assert forall|i: int| 0 <= i < n implies #[trigger] output@[i] == near_set_before(mask@, index + 1, i, radius as int) by {
                if start <= i < end {
                    assert(mask@[index as int]);
                } else if near_set_before(mask@, index + 1, i, radius as int) {
                    let j = choose|j: int| 0 <= j < index + 1 && #[trigger] mask@[j] && i - radius <= j <= i + radius;
                    assert(j != index);
                }
            }
        } else {
            assert forall|i: int| 0 <= i < n implies #[trigger] output@[i] == near_set_before(mask@, index + 1, i, radius as int) by {
                if near_set_before(mask@, index + 1, i, radius as int) {
                    let j = choose|j: int| 0 <= j < index + 1 && #[trigger] mask@[j] && i - radius <= j <= i + radius;
                    assert(j != index);
                }
            }
        }
        index = index + 1;
    }
    output
}

} // verus!

verus! {

/// Whether every sample of `mask` in `[a, b)` is set.
pub open spec fn all_set(mask: Seq<bool>, a: int, b: int) -> bool {
    forall|k: int| a <= k < b ==> #[trigger] mask[k]
}

/// Whether sample `i` lies in a run of set samples at least `min_len` long.
pub open spec fn in_long_set_run(mask: Seq<bool>, i: int, min_len: int) -> bool {
    exists|a: int, b: int|
        0 <= a <= i < b <= mask.len() && b - a >= min_len && #[trigger] all_set(mask, a, b)
}

/// The shortest run length that survives pruning: `min_length`, or one when it is zero.
pub open spec fn effective_min_length(min_length: int) -> int {
    if min_length < 1 { 1 } else { min_length }
}

/// Pruning clears only runs strictly shorter than `min_length`: a sample of
/// a run of set samples at least `min_length` long stays set after
/// refinement.
pub proof fn lemma_long_runs_survive(mask: Seq<bool>, min_length: int, i: int, a: int, b: int)
    requires
        0 <= a <= i < b <= mask.len(),
        b - a >= min_length,
        all_set(mask, a, b),
    ensures
        pruned(mask, min_length, i),
        refined(mask, min_length, i),
{
    assert(b - a >= effective_min_length(min_length));
}

/// Refinement sets a sample whose two neighbours each lie in a run of set
/// samples at least `min_length` long.
pub proof fn lemma_gap_between_long_runs_filled(
    mask: Seq<bool>,
    min_length: int,
    i: int,
    a: int,
    b: int,
    c: int,
    d: int,
)
    requires
        0 <= a <= i - 1 < b <= mask.len(),
        b - a >= min_length,
        all_set(mask, a, b),
        0 <= c <= i + 1 < d <= mask.len(),
        d - c >= min_length,
        all_set(mask, c, d),
    ensures
        refined(mask, min_length, i),
{
    lemma_long_runs_survive(mask, min_length, i - 1, a, b);
    lemma_long_runs_survive(mask, min_length, i + 1, c, d);
}

/// Sample `i` after set runs shorter than `min_length` are cleared.
pub open spec fn pruned(mask: Seq<bool>, min_length: int, i: int) -> bool {
    in_long_set_run(mask, i, effective_min_length(min_length))
}

/// Sample `i` after pruning and after single cleared samples between two set
/// samples are set again (only for masks of at least three samples).
pub open spec fn refined(mask: Seq<bool>, min_length: int, i: int) -> bool {
    ||| pruned(mask, min_length, i)
    ||| (mask.len() >= 3 && 0 < i < mask.len() - 1 && pruned(mask, min_length, i - 1)
        && pruned(mask, min_length, i + 1))
}

/// Clears set runs shorter than `min_length` and then sets every single
/// cleared sample whose two neighbours are set.
pub fn refine_mask(mask: &mut [bool], min_length: usize)
    ensures
        final(mask)@.len() == old(mask)@.len(),
        forall|i: int| 0 <= i < old(mask)@.len() ==> #[trigger] final(mask)@[i] == refined(old(mask)@, min_length as int, i),
        forall|i: int, a: int, b: int|
            #![trigger final(mask)@[i], all_set(old(mask)@, a, b)]
            0 <= a <= i < b <= old(mask)@.len() && b - a >= min_length && all_set(old(mask)@, a, b) ==> final(mask)@[i],
        forall|i: int, a: int, b: int, c: int, d: int|
            #![trigger final(mask)@[i], all_set(old(mask)@, a, b), all_set(old(mask)@, c, d)]
            0 <= a <= i - 1 < b <= old(mask)@.len() && b - a >= min_length && all_set(old(mask)@, a, b) && 0 <= c <= i + 1
                < d <= old(mask)@.len() && d - c >= min_length && all_set(old(mask)@, c, d) ==> final(mask)@[i],
{
    proof {
        assert forall|i: int, a: int, b: int|
            0 <= a <= i < b <= mask@.len() && b - a >= min_length && all_set(mask@, a, b) implies refined(
            mask@,
            min_length as int,
            i,
        ) by {
            lemma_long_runs_survive(mask@, min_length as int, i, a, b);
        }
        assert forall|i: int, a: int, b: int, c: int, d: int|
            0 <= a <= i - 1 < b <= mask@.len() && b - a >= min_length && all_set(mask@, a, b) && 0 <= c <= i + 1 < d
                <= mask@.len() && d - c >= min_length && all_set(mask@, c, d) implies refined(mask@, min_length as int, i) by {
            lemma_gap_between_long_runs_filled(mask@, min_length as int, i, a, b, c, d);
        }
    }
    let ghost orig = mask@;
    let ghost requested = min_length as int;
    let min_length = if min_length < 1 { 1 } else { min_length };
    assert(min_length as int == effective_min_length(requested));
    let n = mask.len();
    let mut index: usize = 0;
    while index < n
        invariant
            n == mask@.len(),
            orig.len() == n,
            min_length >= 1,
            index <= n,
            0 < index < n ==> orig[index - 1] != orig[index as int],
            forall|k: int| index <= k < n ==> #[trigger] mask@[k] == orig[k],
            forall|k: int| 0 <= k < index ==> #[trigger] mask@[k] == in_long_set_run(orig, k, min_length as int),
        decreases n - index,
    {
        let value = mask[index];
        let start = index;
        while index < n && mask[index] == value
            invariant
                n == mask@.len(),
                orig.len() == n,
                start <= index <= n,
                start < n,
                value == orig[start as int],
                forall|k: int| start <= k < n ==> #[trigger] mask@[k] == orig[k],
                forall|k: int| start <= k < index ==> #[trigger] orig[k] == value,
            decreases n - index,
        {
            index = index + 1;
        }
        assert(index == n || orig[index as int] != value);
        assert(index > start);
        let ghost before = mask@;
        let clear = value && index - start < min_length;
        if clear {
            let mut k = start;
            while k < index
                invariant
                    n == mask@.len(),
                    before.len() == n,
                    start <= k <= index <= n,
                    forall|j: int| 0 <= j < start ==> #[trigger] mask@[j] == before[j],
                    forall|j: int| start <= j < k ==> !#[trigger] mask@[j],
                    forall|j: int| k <= j < n ==> #[trigger] mask@[j] == before[j],
                decreases index - k,
            {
                mask[k] = false;
                k = k + 1;
            }
        }
        assert forall|j: int| start <= j < index implies #[trigger] mask@[j] == in_long_set_run(orig, j, min_length as int) by {
            if in_long_set_run(orig, j, min_length as int) {
                let (a, b) = choose|a: int, b: int|
                    0 <= a <= j < b <= orig.len() && b - a >= min_length && #[trigger] all_set(orig, a, b);
                assert(orig[j]);
                if a < start {
                    assert(orig[start - 1]);
                }
                if b > index {
                    assert(orig[index as int]);
                }
            } else if value && !clear {
                assert(all_set(orig, start as int, index as int));
            }
        }
    }
    assert(forall|k: int| 0 <= k < n ==> #[trigger] mask@[k] == pruned(orig, requested, k));
    if n < 3 {
        return;
    }
    let ghost first = mask@;
    let mut output: Vec<bool> = Vec::new();
    let mut k: usize = 0;
    while k < n
        invariant
            n == mask@.len(),
            mask@ == first,
            output@.len() == k,
            k <= n,
            forall|j: int| 0 <= j < k ==> #[trigger] output@[j] == first[j],
        decreases n - k,
    {
        output.push(mask[k]);
        k = k + 1;
    }
    let mut index: usize = 1;
    while index < n - 1
        invariant
            n == mask@.len(),
            n >= 3,
            mask@ == first,
            output@.len() == n,
            1 <= index <= n - 1,
            forall|j: int| 0 <= j < n ==> #[trigger] output@[j] == (first[j] || (0 < j < index
                && first[j - 1] && first[j + 1])),
        decreases n - 1 - index,
    {
        if !mask[index] && mask[index - 1] && mask[index + 1] {
            output.set(index, true);
        }
        index = index + 1;
    }
    let mut k: usize = 0;
    while k < n
        invariant
            n == mask@.len(),
            n >= 3,
            output@.len() == n,
            k <= n,
            forall|j: int| 0 <= j < k ==> #[trigger] mask@[j] == output@[j],
            forall|j: int| 0 <= j < n ==> #[trigger] output@[j] == (first[j] || (0 < j < n - 1
                && first[j - 1] && first[j + 1])),
        decreases n - k,
    {
        mask[k] = output[k];
        k = k + 1;
    }
}

} // verus!

verus! {

/// Whether `[a, b)` is a maximal run of cleared samples of `mask`.
pub open spec fn is_cleared_run(mask: Seq<bool>, a: int, b: int) -> bool {
    &&& 0 <= a < b <= mask.len()
    &&& forall|k: int| a <= k < b ==> !#[trigger] mask[k]
    &&& a == 0 || mask[a - 1]
    &&& b == mask.len() || mask[b]
}

/// The first sample of the cleared run that a segment starting at `start` spans:
/// a segment starts one sample before its run, except at the start of the signal.
pub open spec fn segment_run_start(mask: Seq<bool>, start: int) -> int {
    if start == 0 && mask.len() > 0 && !mask[0] {
        0
    } else {
        start + 1
    }
}

/// One past the last sample of the cleared run that a segment ending at `end`
/// spans: a segment ends at the set sample after its run, or at the last
/// sample when the run reaches the end of the signal.
pub open spec fn segment_run_end(mask: Seq<bool>, end: int) -> int {
    if end == mask.len() - 1 && !mask[end] {
        mask.len() as int
    } else {
        end
    }
}

/// Whether the segment `(start, end)` spans the maximal cleared run `[a, b)`:
/// it reaches from the sample before the run (or the first sample) to the
/// sample after it (or the last sample).
pub open spec fn segment_spans_run(mask: Seq<bool>, start: int, end: int, a: int, b: int) -> bool {
    &&& is_cleared_run(mask, a, b)
    &&& start == (if a == 0 { 0 } else { a - 1 })
    &&& end == (if b < mask.len() { b } else { mask.len() - 1 })
}

/// Lists, from left to right, one segment `(start, end)` for each maximal run
/// of cleared samples; the segment reaches from the set sample before the run
/// (or the first sample) to the set sample after it (or the last sample).
pub fn peak_segments(mask: &[bool]) -> (segments: Vec<(usize, usize)>)
    ensures
        forall|k: int| 0 <= k < segments@.len() ==> segment_spans_run(mask@,
            #[trigger] segments@[k].0 as int, segments@[k].1 as int,
            segment_run_start(mask@, segments@[k].0 as int), segment_run_end(mask@, segments@[k].1 as int)),
        forall|k: int| 0 <= k < segments@.len() - 1 ==>
            segment_run_end(mask@, #[trigger] segments@[k].1 as int) < segment_run_start(mask@, segments@[k + 1].0 as int),
        forall|i: int| 0 <= i < mask@.len() && !#[trigger] mask@[i] ==> exists|k: int| 0 <= k < segments@.len()
            && segment_run_start(mask@, #[trigger] segments@[k].0 as int) <= i < segment_run_end(mask@, segments@[k].1 as int),
{
    let n = mask.len();
    let mut segments: Vec<(usize, usize)> = Vec::new();
    let mut index: usize = 0;
    while index < n
        invariant
            n == mask@.len(),
            index <= n,
            index > 0 && !mask@[index - 1] ==> index == n || mask@[index as int],
            forall|k: int| 0 <= k < segments@.len() ==> segment_spans_run(mask@,
                #[trigger] segments@[k].0 as int, segments@[k].1 as int,
                segment_run_start(mask@, segments@[k].0 as int), segment_run_end(mask@, segments@[k].1 as int)),
            forall|k: int| 0 <= k < segments@.len() - 1 ==>
                segment_run_end(mask@, #[trigger] segments@[k].1 as int) < segment_run_start(mask@, segments@[k + 1].0 as int),
            forall|k: int| 0 <= k < segments@.len() ==> segment_run_end(mask@, #[trigger] segments@[k].1 as int) <= index,
            forall|i: int| 0 <= i < index && !#[trigger] mask@[i] ==> exists|k: int| 0 <= k < segments@.len()
                && segment_run_start(mask@, #[trigger] segments@[k].0 as int) <= i < segment_run_end(mask@, segments@[k].1 as int),
        decreases n - index,
    {
        if mask[index] {
            index = index + 1;
            continue;
        }
        let ghost a = index as int;
        let start = if index >= 1 { index - 1 } else { 0 };
        while index < n && !mask[index]
            invariant
                n == mask@.len(),
                a <= index <= n,
                forall|k: int| a <= k < index ==> !#[trigger] mask@[k],
            decreases n - index,
        {
            index = index + 1;
        }
        let end = if index < n { index } else { if n >= 1 { n - 1 } else { 0 } };
        let ghost b = index as int;
        assert(is_cleared_run(mask@, a, b));
        assert(segment_run_start(mask@, start as int) == a);
        assert(segment_run_end(mask@, end as int) == b);
        let ghost old_segments = segments@;
        proof {
            if old_segments.len() > 0 {
                let last = old_segments[old_segments.len() - 1];
                assert(segment_spans_run(mask@, last.0 as int, last.1 as int,
                    segment_run_start(mask@, last.0 as int), segment_run_end(mask@, last.1 as int)));
                assert(segment_run_end(mask@, last.1 as int) < a);
            }
        }
        segments.push((start, end));
        assert(segments@[segments@.len() - 1] == (start, end));
        assert forall|i: int| 0 <= i < index && !#[trigger] mask@[i] implies exists|k: int| 0 <= k < segments@.len()
            && segment_run_start(mask@, #[trigger] segments@[k].0 as int) <= i < segment_run_end(mask@, segments@[k].1 as int) by {
            if i >= a {
                let k = segments@.len() - 1;
                assert(segment_run_start(mask@, segments@[k].0 as int) <= i < segment_run_end(mask@, segments@[k].1 as int));
            } else {
                let k = choose|k: int| 0 <= k < old_segments.len()
                    && segment_run_start(mask@, #[trigger] old_segments[k].0 as int) <= i < segment_run_end(mask@, old_segments[k].1 as int);
                assert(segments@[k] == old_segments[k]);
            }
        }
    }
    segments
}

} // verus!

verus! {

/// The sample that position `index` maps to when a signal of `len` samples is
/// extended by mirroring it about its edges with the edge samples repeated
/// (`... 1 0 | 0 1 2 ... n-1 | n-1 n-2 ...`): the pattern has period `2 * len`.
pub open spec fn mirror_index(index: int, len: int) -> int {
    if len <= 1 {
        0
    } else {
        let v = index % (2 * len);
        if v >= len {
            2 * len - v - 1
        } else {
            v
        }
    }
}

/// The sample that position `index` maps to when a signal of `len` samples is
/// extended by reflecting it about its edge samples without repeating them
/// (`... 2 1 | 0 1 2 ... n-1 | n-2 n-3 ...`): the pattern has period `2 * len - 2`.
pub open spec fn reflect_pad(index: int, len: int) -> int {
    if len <= 1 {
        0
    } else {
        let v = index % (2 * len - 2);
        if v >= len {
            2 * len - 2 - v
        } else {
            v
        }
    }
}

/// Maps `index` into `[0, len)` by mirroring about the edges, repeating the
/// edge samples.
pub fn reflect_index(index: isize, len: usize) -> (r: usize)
    requires
        2 * len <= isize::MAX,
    ensures
        r == mirror_index(index as int, len as int),
        len >= 1 ==> r < len,
{
    if len <= 1 {
        return 0;
    }
    let period = 2 * (len as isize);
    let mut value = match index.checked_rem_euclid(period) {
        Some(v) => v,
        None => 0,
    };
    proof {
        vstd::arithmetic::div_mod::lemma_mod_bound(index as int, period as int);
    }
    if value >= len as isize {
        value = period - value - 1;
    }
    value as usize
}

/// Maps `index` into `[0, len)` by reflecting about the edge samples without
/// repeating them.
pub fn reflect_pad_index(index: isize, len: usize) -> (r: usize)
    requires
        2 * len <= isize::MAX,
    ensures
        r == reflect_pad(index as int, len as int),
        len >= 1 ==> r < len,
{
    if len <= 1 {
        return 0;
    }
    let period = 2 * (len as isize) - 2;
    let mut value = match index.checked_rem_euclid(period) {
        Some(v) => v,
        None => 0,
    };
    proof {
        vstd::arithmetic::div_mod::lemma_mod_bound(index as int, period as int);
    }
    if value >= len as isize {
        value = period - value;
    }
    value as usize
}

/// Positions inside the signal map to themselves under both edge extensions.
pub proof fn lemma_reflection_identity_inside(index: int, len: int)
    requires
        0 <= index < len,
    ensures
        mirror_index(index, len) == (if len <= 1 { 0 } else { index }),
        reflect_pad(index, len) == (if len <= 1 { 0 } else { index }),
{
    if len > 1 {
        vstd::arithmetic::div_mod::lemma_small_mod(index as nat, (2 * len) as nat);
        vstd::arithmetic::div_mod::lemma_small_mod(index as nat, (2 * len - 2) as nat);
    }
}

/// Every position maps inside the signal under both edge extensions.
pub proof fn lemma_reflection_in_bounds(index: int, len: int)
    requires
        len >= 1,
    ensures
        0 <= mirror_index(index, len) < len,
        0 <= reflect_pad(index, len) < len,
{
    if len > 1 {
        vstd::arithmetic::div_mod::lemma_mod_bound(index, 2 * len);
        vstd::arithmetic::div_mod::lemma_mod_bound(index, 2 * len - 2);
    }
}

/// Mirroring with repeated edges is symmetric about the left edge: position
/// `-1 - i` maps to the same sample as `i`.
pub proof fn lemma_mirror_index_symmetric(index: int, len: int)
    ensures
        mirror_index(-1 - index, len) == mirror_index(index, len),
{
    if len > 1 {
        let p = 2 * len;
        let q = index % p;
        let k = index / p;
        vstd::arithmetic::div_mod::lemma_fundamental_div_mod(index, p);
        vstd::arithmetic::div_mod::lemma_mod_bound(index, p);
        assert(-1 - index == (-k - 1) * p + (p - 1 - q)) by (nonlinear_arith)
            requires
                index == p * k + q,
        ;
        vstd::arithmetic::div_mod::lemma_fundamental_div_mod_converse_mod(-1 - index, p, -k - 1, p - 1 - q);
    }
}

/// Mirroring with repeated edges has period `2 * len`.
pub proof fn lemma_mirror_index_periodic(index: int, len: int)
    ensures
        mirror_index(index + 2 * len, len) == mirror_index(index, len),
{
    if len > 1 {
        vstd::arithmetic::div_mod::lemma_mod_add_multiples_vanish(index, 2 * len);
    }
}

/// Reflection without repeated edges is symmetric about the left edge:
/// position `-i` maps to the same sample as `i`.
pub proof fn lemma_reflect_pad_symmetric(index: int, len: int)
    ensures
        reflect_pad(-index, len) == reflect_pad(index, len),
{
    if len > 1 {
        let p = 2 * len - 2;
        let q = index % p;
        let k = index / p;
        vstd::arithmetic::div_mod::lemma_fundamental_div_mod(index, p);
        vstd::arithmetic::div_mod::lemma_mod_bound(index, p);
        if q == 0 {
            assert(-index == (-k) * p + 0) by (nonlinear_arith)
                requires
                    index == p * k + q,
                    q == 0,
            ;
            vstd::arithmetic::div_mod::lemma_fundamental_div_mod_converse_mod(-index, p, -k, 0);
        } else {
            assert(-index == (-k - 1) * p + (p - q)) by (nonlinear_arith)
                requires
                    index == p * k + q,
            ;
            vstd::arithmetic::div_mod::lemma_fundamental_div_mod_converse_mod(-index, p, -k - 1, p - q);
        }
    }
}

/// Reflection without repeated edges has period `2 * len - 2`.
pub proof fn lemma_reflect_pad_periodic(index: int, len: int)
    ensures
        reflect_pad(index + 2 * len - 2, len) == reflect_pad(index, len),
{
    if len > 1 {
        vstd::arithmetic::div_mod::lemma_mod_add_multiples_vanish(index, 2 * len - 2);
    }
}

} // verus!

verus! {

/// Dilation keeps every set sample set.
pub proof fn lemma_dilation_contains_mask(mask: Seq<bool>, i: int, radius: int)
    requires
        0 <= i < mask.len(),
        mask[i],
        radius >= 0,
    ensures
        near_set(mask, i, radius),
{
}

/// Dilation with a zero radius leaves the mask unchanged.
pub proof fn lemma_dilation_zero_radius(mask: Seq<bool>, i: int)
    requires
        0 <= i < mask.len(),
    ensures
        near_set(mask, i, 0) == mask[i],
{
}

/// Dilating a mask with one set sample `j` sets exactly the samples within
/// `radius` of `j`.
pub proof fn lemma_dilation_of_single_sample(mask: Seq<bool>, j: int, i: int, radius: int)
    requires
        0 <= j < mask.len(),
        mask[j],
        forall|k: int| 0 <= k < mask.len() && k != j ==> !#[trigger] mask[k],
        0 <= i < mask.len(),
    ensures
        near_set(mask, i, radius) <==> (i - radius <= j && j <= i + radius),
{
    if i - radius <= j && j <= i + radius {
        assert(mask[j]);
    }
}


/// Dilation grows with its radius.
pub proof fn lemma_dilation_monotone(mask: Seq<bool>, i: int, r1: int, r2: int)
    requires
        0 <= r1 <= r2,
        near_set(mask, i, r1),
    ensures
        near_set(mask, i, r2),
{
    let j = choose|j: int| 0 <= j < mask.len() && #[trigger] mask[j] && i - r1 <= j <= i + r1;
    assert(i - r2 <= j <= i + r2);
}

/// Pruning only clears samples: a sample kept after pruning was set.
pub proof fn lemma_pruning_only_clears(mask: Seq<bool>, min_length: int, i: int)
    requires
        pruned(mask, min_length, i),
    ensures
        0 <= i < mask.len(),
        mask[i],
{
    let (a, b) = choose|a: int, b: int|
        0 <= a <= i < b <= mask.len() && b - a >= effective_min_length(min_length) && #[trigger] all_set(mask, a, b);
    assert(mask[i]);
}

/// With a minimum run length of at most one, pruning keeps every set sample.
pub proof fn lemma_pruning_trivial_length(mask: Seq<bool>, min_length: int, i: int)
    requires
        min_length <= 1,
        0 <= i < mask.len(),
    ensures
        pruned(mask, min_length, i) == mask[i],
{
    if mask[i] {
        assert(all_set(mask, i, i + 1));
    } else if pruned(mask, min_length, i) {
        lemma_pruning_only_clears(mask, min_length, i);
    }
}

/// A sample that survives pruning lies in a run of set samples at least the
/// minimum length long, in the original mask.
pub proof fn lemma_pruned_run_length(mask: Seq<bool>, min_length: int, i: int)
    requires
        pruned(mask, min_length, i),
    ensures
        exists|a: int, b: int| 0 <= a <= i < b <= mask.len() && b - a >= min_length && #[trigger] all_set(mask, a, b),
{
}

/// Refinement only adds samples to the pruned mask, and what it adds are
/// single cleared samples between two kept samples.
pub proof fn lemma_refinement_fills_single_gaps(mask: Seq<bool>, min_length: int, i: int)
    requires
        refined(mask, min_length, i),
        !pruned(mask, min_length, i),
    ensures
        0 < i < mask.len() - 1,
        pruned(mask, min_length, i - 1),
        pruned(mask, min_length, i + 1),
{
}

} // verus!
