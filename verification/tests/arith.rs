use molten::add;

#[test]
fn add_small_pair() {
    assert_eq!(add(2, 3), 5);
}

#[test]
fn add_negative_pair() {
    assert_eq!(add(-2, -3), -5);
}

#[test]
fn add_mixed_signs() {
    assert_eq!(add(10, -4), 6);
}

#[test]
fn add_wraps_on_overflow() {
    assert_eq!(add(i64::MAX, 1), i64::MIN);
}

#[test]
fn add_wraps_on_underflow() {
    assert_eq!(add(i64::MIN, -1), i64::MAX);
}
