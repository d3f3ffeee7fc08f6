use voice_direction_finder::peak::{peak_candidate, PeakError};

#[test]
fn rejects_fewer_than_three_points() {
    assert_eq!(peak_candidate(&vec![]), Err(PeakError::TooFewPoints));
    assert_eq!(peak_candidate(&vec![7]), Err(PeakError::TooFewPoints));
    assert_eq!(peak_candidate(&vec![7, 9]), Err(PeakError::TooFewPoints));
}

#[test]
fn rejects_maximum_at_first_index() {
    assert_eq!(peak_candidate(&vec![9, 2, 1]), Err(PeakError::PeakAtBoundary));
}

#[test]
fn rejects_maximum_at_last_index() {
    assert_eq!(peak_candidate(&vec![1, 2, 9]), Err(PeakError::PeakAtBoundary));
}

#[test]
fn rejects_plateau_next_to_maximum() {
    // The right neighbour equals the maximum: not a strict local maximum.
    assert_eq!(peak_candidate(&vec![1, 5, 5, 1]), Err(PeakError::NotALocalMaximum));
}

#[test]
fn rejects_flat_sequence() {
    // All values equal: the first occurrence is the boundary.
    assert_eq!(peak_candidate(&vec![4, 4, 4, 4]), Err(PeakError::PeakAtBoundary));
}

#[test]
fn accepts_strict_interior_maximum() {
    assert_eq!(peak_candidate(&vec![1, 5, 2]), Ok(1));
    assert_eq!(peak_candidate(&vec![-9, -1, 0, 8, 3, 3]), Ok(3));
}
