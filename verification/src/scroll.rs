//! Scrolling from the other analog stick: one tick per axis, at a rate that
//! follows the vertical deflection.

use vstd::prelude::*;
use crate::fixed::{abs_value, get_sign, magnitude, round_half_away, sign, UNIT};
use crate::hid::{is_motionless, HidAction, ScrollDirection};
use crate::mouse_move::Coords;

verus! {

/// Horizontal deflection that has to be exceeded before the wheel turns sideways: 0.3.
pub const SCROLL_ZERO_ZONE_X: i32 = 300_000;

/// Milliseconds between two scroll ticks at full vertical deflection.
pub const FAST_SCROLL_INTERVAL: u64 = 50;

/// Milliseconds between two scroll ticks with the stick centred.
pub const SLOW_SCROLL_INTERVAL: u64 = 250;

/// Number of equal steps between the slow and the fast interval.
pub const SCROLL_INTERVAL_STEPS: u64 = 100;

/// Wheel ticks for the deflection `v` along `axis`: one tick against the
/// deflection, and none sideways unless the deflection exceeds the dead zone.
pub open spec fn scroll_direction(v: int, axis: ScrollDirection) -> int {
    if axis == ScrollDirection::Horizontal && magnitude(v) <= SCROLL_ZERO_ZONE_X {
        0
    } else {
        -sign(v)
    }
}

/// Sink calls for `across` ticks sideways and `along` ticks up or down: one per
/// wheel that turns, then a flush.
pub open spec fn scroll_actions(across: i32, along: i32) -> Seq<HidAction> {
    let sideways = if across != 0 {
        seq![HidAction::Scroll(ScrollDirection::Horizontal, across)]
    } else {
        Seq::<HidAction>::empty()
    };
    let upright = if along != 0 {
        seq![HidAction::Scroll(ScrollDirection::Vertical, along)]
    } else {
        Seq::<HidAction>::empty()
    };
    sideways + upright + seq![HidAction::Synchronize]
}

/// Sink calls of a scroll tick that reads `coords`.
pub open spec fn scroll_tick(coords: Coords) -> Seq<HidAction> {
    scroll_actions(
        scroll_direction(coords.x as int, ScrollDirection::Horizontal) as i32,
        scroll_direction(coords.y as int, ScrollDirection::Vertical) as i32,
    )
}

/// Hundredths of full deflection in `y`, rounded to the nearest: the size of `y`
/// times 100, over `UNIT`.
pub open spec fn deflection_steps(y: int) -> int {
    round_half_away(magnitude(y) * SCROLL_INTERVAL_STEPS, 1_000_000)
}

/// Milliseconds to wait before the next scroll tick at vertical deflection `y`:
/// the slow interval, shortened by one step for every hundredth of deflection.
pub open spec fn scroll_interval(y: int) -> int {
    SLOW_SCROLL_INTERVAL - ((SLOW_SCROLL_INTERVAL - FAST_SCROLL_INTERVAL)
        / SCROLL_INTERVAL_STEPS as int) * deflection_steps(y)
}

/// Wheel ticks for one component of the stick.
pub fn calc_scroll_direction(value: i32, scroll_direction: ScrollDirection) -> (ticks: i32)
    ensures
        ticks == self::scroll_direction(value as int, scroll_direction),
{
    if scroll_direction == ScrollDirection::Horizontal && abs_value(value)
        <= SCROLL_ZERO_ZONE_X as i64 {
        0
    } else {
        -get_sign(value)
    }
}

/// One scroll tick: the sink calls that turn the wheels for the deflection read.
pub fn scroll_mouse(coords: &Coords) -> (actions: Vec<HidAction>)
    ensures
        actions@ == scroll_tick(*coords),
{
    let x_force: i32 = calc_scroll_direction(coords.x, ScrollDirection::Horizontal);
    let y_force: i32 = calc_scroll_direction(coords.y, ScrollDirection::Vertical);
    let mut actions: Vec<HidAction> = Vec::new();
    if x_force != 0 {
        actions.push(HidAction::Scroll(ScrollDirection::Horizontal, x_force));
    }
    if y_force != 0 {
        actions.push(HidAction::Scroll(ScrollDirection::Vertical, y_force));
    }
    actions.push(HidAction::Synchronize);
    actions
}

/// Milliseconds to sleep before the next scroll tick, from the vertical deflection.
pub fn calc_scroll_interval(value: i32) -> (interval: u64)
    requires
        -UNIT <= value <= UNIT,
    ensures
        interval == scroll_interval(value as int),
        FAST_SCROLL_INTERVAL <= interval <= SLOW_SCROLL_INTERVAL,
{
    let output_start: u64 = FAST_SCROLL_INTERVAL;
    let output_end: u64 = SLOW_SCROLL_INTERVAL;
    let precision: u64 = SCROLL_INTERVAL_STEPS;
    let step: u64 = (output_end - output_start) / precision;
    let size: u64 = abs_value(value) as u64;
    let steps: u64 = (2 * (size * precision) + UNIT as u64) / (2 * UNIT as u64);
    proof {
        lemma_deflection_steps_bounds(value as int);
        assert(size * precision == magnitude(value as int) * SCROLL_INTERVAL_STEPS);
        assert(steps == deflection_steps(value as int));
        assert(step == 2);
    }
    output_end - step * steps
}

/// A deflection within range amounts to between 0 and 100 hundredths.
pub proof fn lemma_deflection_steps_bounds(y: int)
    requires
        -UNIT <= y <= UNIT,
    ensures
        0 <= deflection_steps(y) <= SCROLL_INTERVAL_STEPS,
        y == 0 ==> deflection_steps(y) == 0,
        magnitude(y) == UNIT ==> deflection_steps(y) == SCROLL_INTERVAL_STEPS,
{
    let num = magnitude(y) * SCROLL_INTERVAL_STEPS;
    crate::fixed::lemma_round_is_nearest(num, UNIT as int);
    let r = deflection_steps(y);
    assert(r >= 0);
    assert(magnitude(r) == r);
    assert(r <= 100 && (magnitude(y) == UNIT ==> r >= 100)) by (nonlinear_arith)
        requires
            2 * num - 1_000_000 < 2 * (r * 1_000_000),
            2 * (r * 1_000_000) <= 2 * num + 1_000_000,
            0 <= num <= 100_000_000,
            magnitude(y) == UNIT ==> num == 100_000_000,
    ;
}

/// The scroll interval lies between the fast and the slow interval, is the slow
/// one for a centred stick and the fast one at full deflection either way.
pub proof fn lemma_scroll_interval_bounds(y: int)
    requires
        -UNIT <= y <= UNIT,
    ensures
        FAST_SCROLL_INTERVAL <= scroll_interval(y) <= SLOW_SCROLL_INTERVAL,
        y == 0 ==> scroll_interval(y) == SLOW_SCROLL_INTERVAL,
        y == UNIT || y == -UNIT ==> scroll_interval(y) == FAST_SCROLL_INTERVAL,
{
    lemma_deflection_steps_bounds(y);
}

/// A larger vertical deflection, up or down, never gives a longer scroll interval.
pub proof fn lemma_scroll_interval_decreases(y1: int, y2: int)
    requires
        magnitude(y1) <= magnitude(y2),
    ensures
        scroll_interval(y2) <= scroll_interval(y1),
        scroll_interval(-y1) == scroll_interval(y1),
{
    crate::fixed::lemma_round_is_monotonic(
        magnitude(y1) * SCROLL_INTERVAL_STEPS,
        magnitude(y2) * SCROLL_INTERVAL_STEPS,
        UNIT as int,
    );
}

/// A centred stick turns no wheel: the tick only flushes.
pub proof fn lemma_centred_stick_scrolls_nothing()
    ensures
        scroll_tick(Coords::centre()) == seq![HidAction::Synchronize],
        is_motionless(scroll_tick(Coords::centre())),
{
}

/// A scroll tick never moves the pointer, turns a wheel only by the direction of
/// its own axis and never by zero, and always ends with a flush.
pub proof fn lemma_scroll_tick_shape(coords: Coords)
    ensures
        forall|i: int|
            0 <= i < scroll_tick(coords).len() ==> !(#[trigger] scroll_tick(coords)[i]
                is MoveRelative),
        forall|i: int|
            0 <= i < scroll_tick(coords).len() ==> (#[trigger] scroll_tick(coords)[i]
                matches HidAction::Scroll(axis, ticks) ==> ticks != 0 && ticks == scroll_direction(
                match axis {
                    ScrollDirection::Horizontal => coords.x as int,
                    ScrollDirection::Vertical => coords.y as int,
                },
                axis,
            )),
        scroll_tick(coords).last() == HidAction::Synchronize,
{
}

} // verus!
