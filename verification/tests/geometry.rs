use neocrystal::geometry::{blob_fit, in_range_range, in_range_single, overlap};

#[test]
fn intervals_meet_only_where_they_share_a_cell() {
    assert!(overlap(0, 5, 4, 8));
    assert!(!overlap(0, 5, 5, 8));
    assert!(!overlap(5, 8, 0, 5));
    assert!(overlap(2, 3, 0, 10));
    assert!(!overlap(3, 3, 3, 4));
}

#[test]
fn rectangles_meet_only_on_both_axes() {
    assert!(in_range_range((0, 5), (0, 5), (4, 5), (4, 5)));
    assert!(!in_range_range((0, 5), (0, 5), (5, 5), (0, 5)));
    assert!(!in_range_range((0, 5), (0, 5), (0, 5), (5, 5)));
    assert!(!in_range_range((0, 5), (0, 1), (2, 2), (1, 1)));
    assert!(in_range_range((2, 2), (1, 1), (0, 5), (0, 2)));
}

#[test]
fn rectangles_at_the_end_of_the_number_line_are_compared_exactly() {
    let far = (usize::MAX - 1, usize::MAX);
    assert!(in_range_range(far, (0, 1), (usize::MAX, 1), (0, 1)));
    assert!(!in_range_range((0, usize::MAX - 1), (0, 1), far, (0, 1)));
    assert!(in_range_range((0, usize::MAX), (0, 1), far, (0, 1)));
}

#[test]
fn a_cell_on_the_far_edge_counts_as_inside() {
    assert!(in_range_single(2, 3, (2, 4), (3, 1)));
    assert!(in_range_single(6, 4, (2, 4), (3, 1)));
    assert!(!in_range_single(7, 4, (2, 4), (3, 1)));
    assert!(!in_range_single(6, 5, (2, 4), (3, 1)));
    assert!(!in_range_single(1, 3, (2, 4), (3, 1)));
    assert!(!in_range_single(2, 2, (2, 4), (3, 1)));
    assert!(in_range_single(usize::MAX, 0, (1, usize::MAX), (0, 0)));
}

#[test]
fn a_span_fits_up_to_the_edge_and_no_further() {
    assert!(blob_fit(3, 5, (3, 5)));
    assert!(blob_fit(5, 3, (3, 5)));
    assert!(!blob_fit(5, 4, (3, 5)));
    assert!(!blob_fit(2, 1, (3, 5)));
    assert!(blob_fit(8, 0, (3, 5)));
    assert!(!blob_fit(9, 0, (3, 5)));
    assert!(!blob_fit(usize::MAX, usize::MAX, (3, 5)));
}
