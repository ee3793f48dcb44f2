use intervals::{Interval, IntervalType};

fn check(interval: Interval<i32>, other: Interval<i32>, expected: bool) {
    let actual = interval.overlaps(&other);
    assert_eq!(actual, expected, "{:?} overlaps {:?}: got {}, expected {}", interval, other, actual, expected);
    assert_eq!(other.overlaps(&interval), actual, "overlap is not symmetric");
}

#[test]
fn overlaps_both_open_identical() {
    check(
        Interval::from_to(0, 3, IntervalType::Open).unwrap(),
        Interval::from_to(0, 3, IntervalType::Open).unwrap(),
        true,
    );
}

#[test]
fn overlaps_both_open_nested() {
    check(
        Interval::from_to(0, 3, IntervalType::Open).unwrap(),
        Interval::from_to(1, 2, IntervalType::Open).unwrap(),
        true,
    );
}

#[test]
fn overlaps_both_open_touch_start() {
    check(
        Interval::from_to(0, 3, IntervalType::Open).unwrap(),
        Interval::from_to(-1, 0, IntervalType::Open).unwrap(),
        false,
    );
}

#[test]
fn overlaps_both_open_disjoint() {
    check(
        Interval::from_to(0, 3, IntervalType::Open).unwrap(),
        Interval::from_to(-2, -1, IntervalType::Open).unwrap(),
        false,
    );
}

#[test]
fn overlaps_both_open_touch_end() {
    check(
        Interval::from_to(0, 3, IntervalType::Open).unwrap(),
        Interval::from_to(3, 4, IntervalType::Open).unwrap(),
        false,
    );
}

#[test]
fn overlaps_both_open_partial() {
    check(
        Interval::from_to(0, 3, IntervalType::Open).unwrap(),
        Interval::from_to(-1, 2, IntervalType::Open).unwrap(),
        true,
    );
}

#[test]
fn overlaps_close_open_identical() {
    check(
        Interval::from_to(0, 3, IntervalType::Close).unwrap(),
        Interval::from_to(0, 3, IntervalType::Open).unwrap(),
        true,
    );
}

#[test]
fn overlaps_close_open_nested() {
    check(
        Interval::from_to(0, 3, IntervalType::Close).unwrap(),
        Interval::from_to(1, 2, IntervalType::Open).unwrap(),
        true,
    );
}

#[test]
fn overlaps_close_open_touch_start() {
    check(
        Interval::from_to(0, 3, IntervalType::Close).unwrap(),
        Interval::from_to(-1, 0, IntervalType::Open).unwrap(),
        false,
    );
}

#[test]
fn overlaps_close_open_disjoint() {
    check(
        Interval::from_to(0, 3, IntervalType::Close).unwrap(),
        Interval::from_to(-2, -1, IntervalType::Open).unwrap(),
        false,
    );
}

#[test]
fn overlaps_close_open_touch_end() {
    check(
        Interval::from_to(0, 3, IntervalType::Close).unwrap(),
        Interval::from_to(3, 4, IntervalType::Open).unwrap(),
        false,
    );
}

#[test]
fn overlaps_close_open_partial() {
    check(
        Interval::from_to(0, 3, IntervalType::Close).unwrap(),
        Interval::from_to(-1, 2, IntervalType::Open).unwrap(),
        true,
    );
}

#[test]
fn overlaps_both_close_identical() {
    check(
        Interval::from_to(0, 3, IntervalType::Close).unwrap(),
        Interval::from_to(0, 3, IntervalType::Close).unwrap(),
        true,
    );
}

#[test]
fn overlaps_both_close_nested() {
    check(
        Interval::from_to(0, 3, IntervalType::Close).unwrap(),
        Interval::from_to(1, 2, IntervalType::Close).unwrap(),
        true,
    );
}

#[test]
fn overlaps_both_close_touch_start() {
    check(
        Interval::from_to(0, 3, IntervalType::Close).unwrap(),
        Interval::from_to(-1, 0, IntervalType::Close).unwrap(),
        true,
    );
}

#[test]
fn overlaps_both_close_disjoint() {
    check(
        Interval::from_to(0, 3, IntervalType::Close).unwrap(),
        Interval::from_to(-2, -1, IntervalType::Close).unwrap(),
        false,
    );
}

#[test]
fn overlaps_both_close_touch_end() {
    check(
        Interval::from_to(0, 3, IntervalType::Close).unwrap(),
        Interval::from_to(3, 4, IntervalType::Close).unwrap(),
        true,
    );
}

#[test]
fn overlaps_both_close_partial() {
    check(
        Interval::from_to(0, 3, IntervalType::Close).unwrap(),
        Interval::from_to(-1, 2, IntervalType::Close).unwrap(),
        true,
    );
}

#[test]
fn overlaps_unbounded() {
    assert!(Interval::until_inclusive(1).overlaps(&Interval::since_inclusive(1)));
    assert!(!Interval::until_exclusive(1).overlaps(&Interval::since_inclusive(1)));
    assert!(!Interval::until_inclusive(1).overlaps(&Interval::since_exclusive(1)));
    assert!(Interval::until_exclusive(5).overlaps(&Interval::since_exclusive(1)));
    assert!(Interval::until_exclusive(5).overlaps(&Interval::until_exclusive(-5)));
}

#[test]
fn overlaps_empty_open_interval_with_itself() {
    let i = Interval::from_to(2, 2, IntervalType::Open).unwrap();
    assert!(!i.overlaps(&i));
}
