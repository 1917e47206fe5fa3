use gamepad_engine::{
    calc_mouse_speed, exponential_speed, get_sign, move_mouse, Coords, HidAction, MoveInfo,
    PointerAxis, MOUSE_ACCEL_STEP, MOUSE_SPEED_MULTIPLIER, UNIT,
};

fn ramp(cur_accel: u32) -> MoveInfo {
    MoveInfo {
        prev_coords: Coords { x: 0, y: 0 },
        cur_accel,
        accel_step: MOUSE_ACCEL_STEP,
        zero_zone: Coords { x: 0, y: 0 },
    }
}

#[test]
fn design_constants() {
    assert_eq!(UNIT, 1_000_000);
    assert_eq!(MOUSE_ACCEL_STEP, 40_000);
    assert_eq!(MOUSE_SPEED_MULTIPLIER, UNIT);
}

#[test]
fn sign_of_a_value() {
    assert_eq!(get_sign(0), 0);
    assert_eq!(get_sign(1), 1);
    assert_eq!(get_sign(-1), -1);
    assert_eq!(get_sign(i32::MAX), 1);
    assert_eq!(get_sign(i32::MIN), -1);
}

#[test]
fn curve_is_linear_up_to_the_knee() {
    assert_eq!(exponential_speed(0), 0);
    assert_eq!(exponential_speed(50_000), 50_000_000_000);
    assert_eq!(exponential_speed(100_000), 100_000_000_000);
    assert_eq!(exponential_speed(-100_000), -100_000_000_000);
}

#[test]
fn curve_squares_beyond_the_knee() {
    assert_eq!(exponential_speed(100_001), 100_002_000_010);
    assert_eq!(exponential_speed(500_000), 2_500_000_000_000);
    assert_eq!(exponential_speed(1_000_000), 10_000_000_000_000);
}

#[test]
fn curve_is_odd() {
    for value in [0, 1, 99_999, 100_000, 100_001, 333_333, 500_000, 999_999, 1_000_000] {
        assert_eq!(exponential_speed(-value), -exponential_speed(value));
    }
}

#[test]
fn speed_without_acceleration() {
    let info = ramp(0);
    assert_eq!(calc_mouse_speed(1_000_000, &info), 10);
    assert_eq!(calc_mouse_speed(500_000, &info), 3);
    assert_eq!(calc_mouse_speed(300_000, &info), 1);
    assert_eq!(calc_mouse_speed(200_000, &info), 0);
    assert_eq!(calc_mouse_speed(50_000, &info), 0);
    assert_eq!(calc_mouse_speed(0, &info), 0);
    assert_eq!(calc_mouse_speed(-500_000, &info), -3);
    assert_eq!(calc_mouse_speed(-1_000_000, &info), -10);
}

#[test]
fn speed_rounds_halves_away_from_zero() {
    let info = ramp(0);
    assert_eq!(calc_mouse_speed(223_606, &info), 0);
    assert_eq!(calc_mouse_speed(223_607, &info), 1);
    assert_eq!(calc_mouse_speed(500_000, &info), 3);
    assert_eq!(calc_mouse_speed(-500_000, &info), -3);
}

#[test]
fn speed_grows_with_acceleration() {
    assert_eq!(calc_mouse_speed(1_000_000, &ramp(160_000)), 12);
    assert_eq!(calc_mouse_speed(1_000_000, &ramp(1_000_000)), 20);
    assert_eq!(calc_mouse_speed(500_000, &ramp(1_000_000)), 5);
    assert_eq!(calc_mouse_speed(-1_000_000, &ramp(40_000)), -10);
    assert_eq!(calc_mouse_speed(-1_000_000, &ramp(50_000)), -11);
}

#[test]
fn speed_at_the_largest_acceleration() {
    assert_eq!(calc_mouse_speed(1_000_000, &ramp(u32::MAX)), 42_960);
    assert_eq!(calc_mouse_speed(-1_000_000, &ramp(u32::MAX)), -42_960);
}

#[test]
fn fresh_ramp() {
    let info = MoveInfo::new(MOUSE_ACCEL_STEP, None);
    assert_eq!(info, ramp(0));
    let zoned = MoveInfo::new(7, Some(Coords { x: 300_000, y: 0 }));
    assert_eq!(zoned.zero_zone, Coords { x: 300_000, y: 0 });
    assert_eq!(zoned.accel_step, 7);
    assert_eq!(zoned.cur_accel, 0);
    assert_eq!(zoned.prev_coords, Coords::default());
}

#[test]
fn direction_change_is_a_change_of_sign() {
    let info = ramp(0);
    assert!(info.is_accel_stop(1, -1));
    assert!(info.is_accel_stop(1, 0));
    assert!(info.is_accel_stop(0, -5));
    assert!(!info.is_accel_stop(0, 0));
    assert!(!info.is_accel_stop(3, 900_000));
    assert!(!info.is_accel_stop(-3, -900_000));
}

#[test]
fn stop_watches_both_axes_unless_told_otherwise() {
    let mut info = ramp(0);
    info.prev_coords = Coords { x: 500_000, y: 500_000 };
    assert!(!info.calc_accel_stop(Coords { x: 1, y: 1 }, false));
    assert!(info.calc_accel_stop(Coords { x: -1, y: 1 }, false));
    assert!(!info.calc_accel_stop(Coords { x: -1, y: 1 }, true));
    assert!(info.calc_accel_stop(Coords { x: 1, y: -1 }, false));
    assert!(info.calc_accel_stop(Coords { x: 1, y: -1 }, true));
}

#[test]
fn zero_zone_is_component_wise_and_closed() {
    let info = MoveInfo::new(MOUSE_ACCEL_STEP, Some(Coords { x: 300_000, y: -100_000 }));
    assert!(info.in_zero_zone(Coords { x: 300_000, y: 100_000 }));
    assert!(info.in_zero_zone(Coords { x: -300_000, y: -100_000 }));
    assert!(info.in_zero_zone(Coords { x: 0, y: 0 }));
    assert!(!info.in_zero_zone(Coords { x: 300_001, y: 0 }));
    assert!(!info.in_zero_zone(Coords { x: 0, y: -100_001 }));
}

#[test]
fn acceleration_ramps_while_direction_is_held() {
    let mut info = MoveInfo::new(40_000, None);
    let mut seen = Vec::new();
    for _ in 0..5 {
        info.update_accel(Coords { x: 500_000, y: 0 }, false);
        seen.push(info.cur_accel);
    }
    assert_eq!(seen, vec![0, 40_000, 80_000, 120_000, 160_000]);
}

#[test]
fn acceleration_ramps_while_magnitude_varies() {
    let mut info = ramp(0);
    info.prev_coords = Coords { x: 1, y: -1 };
    let run = [
        Coords { x: 500_000, y: -1 },
        Coords { x: 2, y: -1_000_000 },
        Coords { x: 1_000_000, y: -900_000 },
    ];
    let mut last = info.cur_accel;
    for coords in run {
        info.update_accel(coords, false);
        assert!(info.cur_accel >= last);
        last = info.cur_accel;
        assert_eq!(info.prev_coords, coords);
    }
    assert_eq!(last, 120_000);
}

#[test]
fn acceleration_resets_on_reversal() {
    let mut info = ramp(120_000);
    info.prev_coords = Coords { x: 500_000, y: 0 };
    info.update_accel(Coords { x: -500_000, y: 0 }, false);
    assert_eq!(info.cur_accel, 0);
    assert_eq!(info.prev_coords, Coords { x: -500_000, y: 0 });
}

#[test]
fn acceleration_resets_inside_the_zero_zone() {
    let mut info = MoveInfo::new(40_000, Some(Coords { x: 100_000, y: 100_000 }));
    info.prev_coords = Coords { x: 50_000, y: 50_000 };
    info.cur_accel = 80_000;
    info.update_accel(Coords { x: 60_000, y: 100_000 }, false);
    assert_eq!(info.cur_accel, 0);
    info.update_accel(Coords { x: 60_000, y: 100_001 }, false);
    assert_eq!(info.cur_accel, 40_000);
}

#[test]
fn acceleration_stays_at_the_largest_value() {
    let mut info = ramp(u32::MAX - 10);
    info.prev_coords = Coords { x: 1, y: 0 };
    info.update_accel(Coords { x: 1, y: 0 }, false);
    assert_eq!(info.cur_accel, u32::MAX);
    info.update_accel(Coords { x: 1, y: 0 }, false);
    assert_eq!(info.cur_accel, u32::MAX);
}

#[test]
fn acceleration_scales_a_speed() {
    assert_eq!(ramp(0).apply_accel(2_500_000_000_000), 2_500_000_000_000_000_000);
    assert_eq!(ramp(160_000).apply_accel(-10), -11_600_000);
    assert_eq!(ramp(u32::MAX).apply_accel(i64::MIN), i64::MIN as i128 * 4_295_967_295);
}

#[test]
fn idle_stick_sends_nothing() {
    let mut info = MoveInfo::new(MOUSE_ACCEL_STEP, None);
    for _ in 0..50 {
        assert_eq!(move_mouse(&Coords { x: 0, y: 0 }, &mut info), Vec::new());
        assert_eq!(info.cur_accel, 0);
    }
}

#[test]
fn idle_stick_sends_nothing_after_motion() {
    let mut info = MoveInfo::new(MOUSE_ACCEL_STEP, None);
    for _ in 0..3 {
        move_mouse(&Coords { x: 1_000_000, y: 1_000_000 }, &mut info);
    }
    assert_eq!(info.cur_accel, 80_000);
    assert_eq!(move_mouse(&Coords { x: 0, y: 0 }, &mut info), Vec::new());
    assert_eq!(info.cur_accel, 0);
    assert_eq!(info.prev_coords, Coords { x: 0, y: 0 });
}

#[test]
fn rest_inside_a_zero_zone_still_updates_the_ramp() {
    let mut info = MoveInfo::new(MOUSE_ACCEL_STEP, Some(Coords { x: 100_000, y: 100_000 }));
    info.cur_accel = 200_000;
    let actions = move_mouse(&Coords { x: 90_000, y: -90_000 }, &mut info);
    assert_eq!(actions, Vec::new());
    assert_eq!(info.cur_accel, 0);
    assert_eq!(info.prev_coords, Coords { x: 90_000, y: -90_000 });
}

#[test]
fn motion_turns_the_vertical_axis() {
    let mut info = MoveInfo::new(MOUSE_ACCEL_STEP, None);
    let actions = move_mouse(&Coords { x: 500_000, y: 1_000_000 }, &mut info);
    assert_eq!(
        actions,
        vec![
            HidAction::MoveRelative(PointerAxis::X, 3),
            HidAction::MoveRelative(PointerAxis::Y, -10),
            HidAction::Synchronize,
        ]
    );
}

#[test]
fn motion_skips_an_axis_that_does_not_move() {
    let mut info = MoveInfo::new(MOUSE_ACCEL_STEP, None);
    assert_eq!(
        move_mouse(&Coords { x: 0, y: -500_000 }, &mut info),
        vec![HidAction::MoveRelative(PointerAxis::Y, 3), HidAction::Synchronize]
    );
    assert_eq!(
        move_mouse(&Coords { x: 1_000_000, y: -100_000 }, &mut info),
        vec![HidAction::MoveRelative(PointerAxis::X, 10), HidAction::Synchronize]
    );
}

#[test]
fn slight_deflection_only_flushes() {
    let mut info = MoveInfo::new(MOUSE_ACCEL_STEP, None);
    assert_eq!(move_mouse(&Coords { x: 100_000, y: 100_000 }, &mut info), vec![
        HidAction::Synchronize
    ]);
}

#[test]
fn motion_uses_the_acceleration_of_the_same_tick() {
    let mut info = MoveInfo::new(MOUSE_ACCEL_STEP, None);
    let held = Coords { x: 1_000_000, y: 0 };
    let mut steps = Vec::new();
    for _ in 0..5 {
        let actions = move_mouse(&held, &mut info);
        assert_eq!(actions.len(), 2);
        steps.push(actions[0]);
    }
    let expected: Vec<HidAction> =
        [10, 10, 11, 11, 12].iter().map(|d| HidAction::MoveRelative(PointerAxis::X, *d)).collect();
    assert_eq!(steps, expected);
    assert_eq!(info.cur_accel, 160_000);
}
