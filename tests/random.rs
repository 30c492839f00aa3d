use raylib::checked_random_value;

#[test]
fn draws_between_zero_and_ten_are_accepted() {
    for n in 0..=10 {
        assert_eq!(checked_random_value(0, 10, n), Some(n));
    }
}

#[test]
fn draws_outside_zero_and_ten_are_refused() {
    for n in [-1000, -1, 11, 12, 1000, i32::MIN, i32::MAX] {
        assert_eq!(checked_random_value(0, 10, n), None);
    }
}

#[test]
fn accepted_values_stay_in_range_over_many_draws() {
    for k in 0..1000i32 {
        let drawn = k.wrapping_mul(7919) % 23 - 6;
        match checked_random_value(0, 10, drawn) {
            Some(n) => assert!((0..=10).contains(&n)),
            None => assert!(!(0..=10).contains(&drawn)),
        }
    }
}

#[test]
fn equal_bounds_accept_only_that_value() {
    assert_eq!(checked_random_value(5, 5, 5), Some(5));
    assert_eq!(checked_random_value(5, 5, 4), None);
    assert_eq!(checked_random_value(5, 5, 6), None);
    assert_eq!(checked_random_value(-3, -3, -3), Some(-3));
}

#[test]
fn swapped_bounds_give_same_range() {
    assert_eq!(checked_random_value(10, 0, 7), Some(7));
    assert_eq!(checked_random_value(10, 0, 10), Some(10));
    assert_eq!(checked_random_value(10, 0, -1), None);
}

#[test]
fn extreme_bounds() {
    assert_eq!(checked_random_value(i32::MIN, i32::MAX, 0), Some(0));
    assert_eq!(checked_random_value(i32::MAX, i32::MIN, i32::MIN), Some(i32::MIN));
    assert_eq!(checked_random_value(i32::MAX, i32::MAX, i32::MAX - 1), None);
}
