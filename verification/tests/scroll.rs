use gamepad_engine::{
    calc_scroll_direction, calc_scroll_interval, scroll_mouse, Coords, HidAction, ScrollDirection,
    FAST_SCROLL_INTERVAL, SCROLL_ZERO_ZONE_X, SLOW_SCROLL_INTERVAL,
};

#[test]
fn scroll_constants() {
    assert_eq!(FAST_SCROLL_INTERVAL, 50);
    assert_eq!(SLOW_SCROLL_INTERVAL, 250);
    assert_eq!(SCROLL_ZERO_ZONE_X, 300_000);
}

#[test]
fn vertical_direction_opposes_the_deflection() {
    assert_eq!(calc_scroll_direction(500_000, ScrollDirection::Vertical), -1);
    assert_eq!(calc_scroll_direction(-500_000, ScrollDirection::Vertical), 1);
    assert_eq!(calc_scroll_direction(1, ScrollDirection::Vertical), -1);
    assert_eq!(calc_scroll_direction(-1, ScrollDirection::Vertical), 1);
    assert_eq!(calc_scroll_direction(0, ScrollDirection::Vertical), 0);
}

#[test]
fn horizontal_direction_needs_more_than_the_dead_zone() {
    assert_eq!(calc_scroll_direction(0, ScrollDirection::Horizontal), 0);
    assert_eq!(calc_scroll_direction(200_000, ScrollDirection::Horizontal), 0);
    assert_eq!(calc_scroll_direction(300_000, ScrollDirection::Horizontal), 0);
    assert_eq!(calc_scroll_direction(-300_000, ScrollDirection::Horizontal), 0);
    assert_eq!(calc_scroll_direction(300_001, ScrollDirection::Horizontal), -1);
    assert_eq!(calc_scroll_direction(-300_001, ScrollDirection::Horizontal), 1);
    assert_eq!(calc_scroll_direction(1_000_000, ScrollDirection::Horizontal), -1);
}

#[test]
fn direction_of_the_extreme_values() {
    assert_eq!(calc_scroll_direction(i32::MIN, ScrollDirection::Horizontal), 1);
    assert_eq!(calc_scroll_direction(i32::MAX, ScrollDirection::Vertical), -1);
}

#[test]
fn idle_stick_only_flushes() {
    for _ in 0..50 {
        assert_eq!(scroll_mouse(&Coords { x: 0, y: 0 }), vec![HidAction::Synchronize]);
    }
}

#[test]
fn diagonal_noise_does_not_scroll_sideways() {
    assert_eq!(
        scroll_mouse(&Coords { x: 100_000, y: 500_000 }),
        vec![HidAction::Scroll(ScrollDirection::Vertical, -1), HidAction::Synchronize]
    );
}

#[test]
fn both_wheels_turn_on_a_strong_diagonal() {
    assert_eq!(
        scroll_mouse(&Coords { x: 500_000, y: -1_000_000 }),
        vec![
            HidAction::Scroll(ScrollDirection::Horizontal, -1),
            HidAction::Scroll(ScrollDirection::Vertical, 1),
            HidAction::Synchronize,
        ]
    );
}

#[test]
fn sideways_alone() {
    assert_eq!(
        scroll_mouse(&Coords { x: -400_000, y: 0 }),
        vec![HidAction::Scroll(ScrollDirection::Horizontal, 1), HidAction::Synchronize]
    );
}

#[test]
fn interval_at_the_ends() {
    assert_eq!(calc_scroll_interval(0), 250);
    assert_eq!(calc_scroll_interval(1_000_000), 50);
    assert_eq!(calc_scroll_interval(-1_000_000), 50);
}

#[test]
fn interval_in_between() {
    assert_eq!(calc_scroll_interval(500_000), 150);
    assert_eq!(calc_scroll_interval(-500_000), 150);
    assert_eq!(calc_scroll_interval(250_000), 200);
    assert_eq!(calc_scroll_interval(10_000), 248);
    assert_eq!(calc_scroll_interval(990_000), 52);
}

#[test]
fn interval_rounds_to_the_nearest_hundredth() {
    assert_eq!(calc_scroll_interval(4_999), 250);
    assert_eq!(calc_scroll_interval(5_000), 248);
    assert_eq!(calc_scroll_interval(-5_000), 248);
    assert_eq!(calc_scroll_interval(14_999), 248);
    assert_eq!(calc_scroll_interval(15_000), 246);
    assert_eq!(calc_scroll_interval(994_999), 52);
    assert_eq!(calc_scroll_interval(995_000), 50);
}

#[test]
fn interval_never_grows_with_deflection() {
    let mut last = calc_scroll_interval(0);
    let mut y = 0;
    while y <= 1_000_000 {
        let interval = calc_scroll_interval(y);
        assert!(interval <= last);
        assert!((50..=250).contains(&interval));
        assert_eq!(calc_scroll_interval(-y), interval);
        last = interval;
        y += 1_250;
    }
    assert_eq!(last, 50);
}
