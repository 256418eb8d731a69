use baselines::classification::{
    dilate_mask, peak_segments, refine_mask, reflect_index, reflect_pad_index, ClassificationParams,
};

#[test]
fn classification_defaults() {
    assert_eq!(ClassificationParams::default().window_size, 31);
}

#[test]
fn dilate_mask_widens_set_samples() {
    let mask = [false, false, true, false, false, false, true];
    assert_eq!(
        dilate_mask(&mask, 1),
        vec![false, true, true, true, false, true, true]
    );
    assert_eq!(dilate_mask(&mask, 0), mask.to_vec());
    assert_eq!(dilate_mask(&mask, 10), vec![true; 7]);
    assert_eq!(dilate_mask(&[], 3), Vec::<bool>::new());
    assert_eq!(dilate_mask(&[false; 4], 2), vec![false; 4]);
}

#[test]
fn refine_mask_drops_short_runs_and_fills_gaps() {
    let mut mask = [true, false, true, true, true, false, true, true, true, true];
    refine_mask(&mut mask, 2);
    // the isolated first sample is cleared; the single gap at 5 is filled
    assert_eq!(mask, [false, false, true, true, true, true, true, true, true, true]);

    let mut mask = [true, true, false, true, false, true, true];
    refine_mask(&mut mask, 3);
    assert_eq!(mask, [false; 7]);

    let mut mask = [true, false, true];
    refine_mask(&mut mask, 0);
    assert_eq!(mask, [true, true, true]);

    let mut short = [true, false];
    refine_mask(&mut short, 1);
    assert_eq!(short, [true, false]);
}

#[test]
fn peak_segments_span_cleared_runs() {
    let mask = [true, false, false, true, true, false, true];
    assert_eq!(peak_segments(&mask), vec![(0, 3), (4, 6)]);

    let mask = [false, false, true, true, false];
    assert_eq!(peak_segments(&mask), vec![(0, 2), (3, 4)]);

    assert_eq!(peak_segments(&[true, true]), Vec::<(usize, usize)>::new());
    assert_eq!(peak_segments(&[false]), vec![(0, 0)]);
    assert_eq!(peak_segments(&[]), Vec::<(usize, usize)>::new());
}

#[test]
fn reflections_cover_the_signal() {
    // repeated edges: ... 1 0 | 0 1 2 3 | 3 2 ...
    let mirrored: Vec<usize> = (-3..8).map(|i| reflect_index(i, 4)).collect();
    assert_eq!(mirrored, vec![2, 1, 0, 0, 1, 2, 3, 3, 2, 1, 0]);
    // edges not repeated: ... 2 1 | 0 1 2 3 | 2 1 ...
    let reflected: Vec<usize> = (-3..8).map(|i| reflect_pad_index(i, 4)).collect();
    assert_eq!(reflected, vec![3, 2, 1, 0, 1, 2, 3, 2, 1, 0, 1]);
    assert_eq!(reflect_index(-100, 1), 0);
    assert_eq!(reflect_pad_index(57, 0), 0);
    assert_eq!(reflect_index(isize::MIN, 3), reflect_index(isize::MIN % 6 + 6, 3));
}

#[test]
fn reflection_is_symmetric_and_periodic() {
    for len in 2..7usize {
        for i in -20..20isize {
            assert_eq!(reflect_index(-1 - i, len), reflect_index(i, len));
            assert_eq!(reflect_index(i + 2 * len as isize, len), reflect_index(i, len));
            assert_eq!(reflect_pad_index(-i, len), reflect_pad_index(i, len));
            assert_eq!(reflect_pad_index(i + 2 * len as isize - 2, len), reflect_pad_index(i, len));
            assert!(reflect_index(i, len) < len);
            assert!(reflect_pad_index(i, len) < len);
        }
    }
}

#[test]
fn dilate_mask_accepts_radii_that_reach_no_further_than_usize() {
    assert_eq!(dilate_mask(&[false; 3], usize::MAX), vec![false; 3]);
    assert_eq!(dilate_mask(&[true, false, false], usize::MAX - 1), vec![true; 3]);
}
