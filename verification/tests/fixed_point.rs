use e170_systems::fixed::{abs, at_least, at_most, clamp, minus, negate, over, plus, times, SCALE};

#[test]
fn product_of_two_and_three_is_six() {
    assert_eq!(times(2 * SCALE, 3 * SCALE), 6 * SCALE);
}

#[test]
fn product_rounds_toward_zero() {
    assert_eq!(times(1, 999_999), 0);
    assert_eq!(times(-1, 999_999), 0);
    assert_eq!(times(3, 500_000), 1);
    assert_eq!(times(-3, 500_000), -1);
}

#[test]
fn product_saturates_at_both_ends() {
    assert_eq!(times(i64::MAX, 2 * SCALE), i64::MAX);
    assert_eq!(times(i64::MIN, 2 * SCALE), i64::MIN);
    assert_eq!(times(i64::MIN, -2 * SCALE), i64::MAX);
}

#[test]
fn quotient_of_one_by_three_has_six_places() {
    assert_eq!(over(SCALE, 3 * SCALE), 333_333);
    assert_eq!(over(-SCALE, 3 * SCALE), -333_333);
    assert_eq!(over(SCALE, -3 * SCALE), -333_333);
    assert_eq!(over(-SCALE, -3 * SCALE), 333_333);
}

#[test]
fn division_by_zero_saturates_with_the_sign_of_the_dividend() {
    assert_eq!(over(5, 0), i64::MAX);
    assert_eq!(over(-5, 0), i64::MIN);
    assert_eq!(over(0, 0), 0);
}

#[test]
fn quotient_saturates() {
    assert_eq!(over(i64::MAX, 1), i64::MAX);
    assert_eq!(over(i64::MIN, 1), i64::MIN);
    assert_eq!(over(i64::MIN, -1), i64::MAX);
}

#[test]
fn sum_and_difference_saturate() {
    assert_eq!(plus(i64::MAX, 1), i64::MAX);
    assert_eq!(plus(i64::MIN, -1), i64::MIN);
    assert_eq!(minus(i64::MIN, 1), i64::MIN);
    assert_eq!(minus(i64::MAX, -1), i64::MAX);
    assert_eq!(plus(2, 3), 5);
    assert_eq!(minus(2, 3), -1);
}

#[test]
fn negation_and_magnitude_of_the_least_value_saturate() {
    assert_eq!(negate(i64::MIN), i64::MAX);
    assert_eq!(abs(i64::MIN), i64::MAX);
    assert_eq!(negate(7), -7);
    assert_eq!(abs(-7), 7);
    assert_eq!(abs(7), 7);
}

#[test]
fn bounds_hold_a_value_in_range() {
    assert_eq!(clamp(5, 0, 3), 3);
    assert_eq!(clamp(-5, 0, 3), 0);
    assert_eq!(clamp(2, 0, 3), 2);
    assert_eq!(at_most(2, 3), 2);
    assert_eq!(at_least(2, 3), 3);
}
