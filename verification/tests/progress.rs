use rwall::progress::{clone_percent, move_percent, percent_fits};

#[test]
fn clone_percent_rounds_down() {
    assert_eq!(clone_percent(50, 200), 25);
    assert_eq!(clone_percent(1, 3), 33);
    assert_eq!(clone_percent(2, 3), 66);
    assert_eq!(clone_percent(199, 200), 99);
    assert_eq!(clone_percent(0, 7), 0);
    assert_eq!(clone_percent(7, 7), 100);
}

#[test]
fn clone_percent_is_zero_without_a_total() {
    assert_eq!(clone_percent(0, 0), 0);
    assert_eq!(clone_percent(12, 0), 0);
    assert_eq!(clone_percent(usize::MAX, 0), 0);
}

#[test]
fn clone_percent_of_large_counts() {
    assert_eq!(clone_percent(usize::MAX, usize::MAX), 100);
    assert_eq!(clone_percent(usize::MAX / 2, usize::MAX), 49);
    assert_eq!(clone_percent(usize::MAX / 100, 1), (usize::MAX / 100) * 100);
}

#[test]
fn percent_fits_tells_when_the_percentage_can_be_told() {
    assert!(percent_fits(0, 0));
    assert!(percent_fits(usize::MAX, 0));
    assert!(percent_fits(3, 4));
    assert!(percent_fits(usize::MAX, usize::MAX));
    assert!(percent_fits(usize::MAX, 100));
    assert!(!percent_fits(usize::MAX, 99));
    assert!(!percent_fits(usize::MAX, 1));
    assert!(percent_fits(usize::MAX / 100, 1));
    assert!(!percent_fits(usize::MAX / 100 + 1, 1));
}

#[test]
fn move_percent_counts_files_against_entries() {
    assert_eq!(move_percent(0, 1), 0);
    assert_eq!(move_percent(3, 4), 75);
    assert_eq!(move_percent(1, 3), 33);
    assert_eq!(move_percent(5, 5), 100);
    assert_eq!(move_percent(usize::MAX, usize::MAX), 100);
}
