use gamepad_engine::fixed::{abs_value, round_div};

#[test]
fn absolute_values() {
    assert_eq!(abs_value(0), 0);
    assert_eq!(abs_value(7), 7);
    assert_eq!(abs_value(-7), 7);
    assert_eq!(abs_value(i32::MAX), 2_147_483_647);
    assert_eq!(abs_value(i32::MIN), 2_147_483_648);
}

#[test]
fn rounding_goes_to_the_nearest() {
    assert_eq!(round_div(0, 5), 0);
    assert_eq!(round_div(7, 3), 2);
    assert_eq!(round_div(8, 3), 3);
    assert_eq!(round_div(1, 3), 0);
    assert_eq!(round_div(-7, 3), -2);
    assert_eq!(round_div(-8, 3), -3);
    assert_eq!(round_div(9, 3), 3);
}

#[test]
fn halves_round_away_from_zero() {
    assert_eq!(round_div(1, 2), 1);
    assert_eq!(round_div(-1, 2), -1);
    assert_eq!(round_div(5, 2), 3);
    assert_eq!(round_div(-5, 2), -3);
    assert_eq!(round_div(25, 10), 3);
    assert_eq!(round_div(24, 10), 2);
    assert_eq!(round_div(-25, 10), -3);
}

#[test]
fn rounding_large_numbers() {
    let scale: u128 = 1_000_000_000_000_000_000_000_000;
    assert_eq!(round_div(2_500_000_000_000_000_000_000_000, scale), 3);
    assert_eq!(round_div(-2_499_999_999_999_999_999_999_999, scale), -2);
    assert_eq!(round_div(42_959_672_950_000_000_000_000_000_000, scale), 42_960);
}
