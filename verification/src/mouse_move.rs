//! Pointer motion from one analog stick: ramped acceleration over an exponential
//! response curve.

use vstd::prelude::*;
use crate::fixed::{
    abs_value, get_sign, lemma_round_is_nearest, magnitude, round_div, round_half_away, sign,
    UNIT,
};
use crate::hid::{HidAction, PointerAxis};

verus! {

/// Factor applied to every pointer speed: 1.0.
pub const MOUSE_SPEED_MULTIPLIER: i32 = 1_000_000;

/// Acceleration gained per tick of sustained deflection: 0.04.
pub const MOUSE_ACCEL_STEP: u32 = 40_000;

/// Deflection up to which the response is linear: 0.1.
pub const CURVE_KNEE: i32 = 100_000;

/// Milliseconds between two motion ticks.
pub const MOTION_TICK_MS: u64 = 25;

/// `UNIT` to the fourth power: the scale of a curved, accelerated, multiplied speed.
pub const SPEED_SCALE: u128 = 1_000_000_000_000_000_000_000_000;

/// Position of one analog stick, each component in `-UNIT ..= UNIT`.
#[derive(Clone, Copy, Debug, PartialEq, Eq, Structural)]
pub struct Coords {
    pub x: i32,
    pub y: i32,
}

impl Coords {
    /// True when both components lie in `-UNIT ..= UNIT`.
    pub open spec fn in_range(&self) -> bool {
        &&& -UNIT <= self.x <= UNIT
        &&& -UNIT <= self.y <= UNIT
    }

    /// The centred stick.
    pub open spec fn centre() -> Coords {
        Coords { x: 0, y: 0 }
    }
}

impl Default for Coords {
    fn default() -> (coords: Coords)
        ensures
            coords == Coords::centre(),
    {
        Coords { x: 0, y: 0 }
    }
}

/// Ramp state of one stick: the last deflection seen and the acceleration built up.
#[derive(Clone, Copy, Debug, PartialEq, Eq, Structural)]
pub struct MoveInfo {
    pub prev_coords: Coords,
    pub cur_accel: u32,
    pub accel_step: u32,
    pub zero_zone: Coords,
}

/// Acceleration after one more step, held at the largest value that fits.
pub open spec fn ramped(accel: u32, step: u32) -> u32 {
    if accel + step > u32::MAX {
        u32::MAX
    } else {
        (accel + step) as u32
    }
}

impl MoveInfo {
    /// True when either watched axis points another way than on the previous tick.
    pub open spec fn direction_changed(&self, coords: Coords, ignore_x: bool) -> bool {
        let changed_x = sign(coords.x as int) != sign(self.prev_coords.x as int);
        let changed_y = sign(coords.y as int) != sign(self.prev_coords.y as int);
        if ignore_x {
            changed_y
        } else {
            changed_x || changed_y
        }
    }

    /// True when both components of `coords` lie within the zero-zone.
    pub open spec fn at_rest(&self, coords: Coords) -> bool {
        &&& magnitude(coords.x as int) <= magnitude(self.zero_zone.x as int)
        &&& magnitude(coords.y as int) <= magnitude(self.zero_zone.y as int)
    }

    /// The ramp state after a tick that read `coords`.
    pub open spec fn after_tick(self, coords: Coords, ignore_x: bool) -> MoveInfo {
        MoveInfo {
            prev_coords: coords,
            cur_accel: if self.direction_changed(coords, ignore_x) || self.at_rest(coords) {
                0
            } else {
                ramped(self.cur_accel, self.accel_step)
            },
            accel_step: self.accel_step,
            zero_zone: self.zero_zone,
        }
    }

    /// The ramp state after one tick for each deflection of `run`, in order.
    pub open spec fn after_run(self, run: Seq<Coords>, ignore_x: bool) -> MoveInfo
        decreases run.len(),
    {
        if run.len() == 0 {
            self
        } else {
            self.after_run(run.drop_last(), ignore_x).after_tick(run.last(), ignore_x)
        }
    }

    /// Fresh ramp: centred, no acceleration, and the centre as zero-zone unless one is given.
    pub fn new(accel_step: u32, zero_zone: Option<Coords>) -> (info: MoveInfo)
        ensures
            info.prev_coords == Coords::centre(),
            info.cur_accel == 0,
            info.accel_step == accel_step,
            info.zero_zone == match zero_zone {
                Some(zone) => zone,
                None => Coords::centre(),
            },
    {
        MoveInfo {
            prev_coords: Coords { x: 0, y: 0 },
            cur_accel: 0,
            accel_step,
            zero_zone: match zero_zone {
                Some(zone) => zone,
                None => Coords { x: 0, y: 0 },
            },
        }
    }

    /// True when `value` points another way than `prev_value`.
    pub fn is_accel_stop(&self, value: i32, prev_value: i32) -> (stop: bool)
        ensures
            stop == (sign(value as int) != sign(prev_value as int)),
    {
        get_sign(value) != get_sign(prev_value)
    }

    /// True when the direction changed on a watched axis since the previous tick.
    pub fn calc_accel_stop(&self, coords: Coords, ignore_x: bool) -> (stop: bool)
        ensures
            stop == self.direction_changed(coords, ignore_x),
    {
        let is_stop_x = self.is_accel_stop(coords.x, self.prev_coords.x);
        let is_stop_y = self.is_accel_stop(coords.y, self.prev_coords.y);
        if ignore_x {
            is_stop_y
        } else {
            is_stop_x || is_stop_y
        }
    }

    /// True when `value` is no larger in size than `zero_zone_value`.
    fn _in_zero_zone(&self, value: i32, zero_zone_value: i32) -> (inside: bool)
        ensures
            inside == (magnitude(value as int) <= magnitude(zero_zone_value as int)),
    {
        abs_value(value) <= abs_value(zero_zone_value)
    }

    /// True when both components of `coords` lie within the zero-zone.
    pub fn in_zero_zone(&self, coords: Coords) -> (inside: bool)
        ensures
            inside == self.at_rest(coords),
    {
        self._in_zero_zone(coords.x, self.zero_zone.x) && self._in_zero_zone(
            coords.y,
            self.zero_zone.y,
        )
    }

    /// Advances the ramp by one tick: acceleration drops to zero when the direction
    /// changed or the stick is at rest, and grows by one step otherwise.
    pub fn update_accel(&mut self, coords: Coords, ignore_x: bool)
        ensures
            *final(self) == old(self).after_tick(coords, ignore_x),
    {
        let is_stop = self.calc_accel_stop(coords, ignore_x);
        if is_stop || self.in_zero_zone(coords) {
            self.cur_accel = 0;
        } else {
            self.cur_accel = self.cur_accel.saturating_add(self.accel_step);
        }
        self.prev_coords = coords;
    }

    /// Scales `speed` by one plus the acceleration; the result counts in units
    /// `UNIT` times finer than `speed` does.
    pub fn apply_accel(&self, speed: i64) -> (boosted: i128)
        ensures
            boosted == speed * (UNIT + self.cur_accel),
    {
        let factor: i128 = UNIT as i128 + self.cur_accel as i128;
        assert(-0x1_0000_0000_0000_0000_0000_0000 <= speed * factor
            <= 0x1_0000_0000_0000_0000_0000_0000) by (nonlinear_arith)
            requires
                -0x8000_0000_0000_0000 <= speed <= 0x8000_0000_0000_0000,
                0 <= factor <= 0x2_0000_0000,
        ;
        speed as i128 * factor
    }
}

/// Response to a deflection of size `size`, in `UNIT * UNIT`ths: linear up to the
/// knee, and ten times the square beyond it.
pub open spec fn curve(size: int) -> int {
    if size > CURVE_KNEE {
        10 * (size * size)
    } else {
        size * UNIT
    }
}

/// Signed response to the deflection `v`, in `UNIT * UNIT`ths.
pub open spec fn shaped(v: int) -> int {
    sign(v) * curve(magnitude(v))
}

/// Pointer steps for the deflection `v` under the acceleration `accel`: the
/// response, scaled by one plus the acceleration and by the speed multiplier,
/// over [`SPEED_SCALE`], rounded to the nearest step.
pub open spec fn mouse_speed(v: int, accel: int) -> int {
    round_half_away(
        shaped(v) * (UNIT + accel) * MOUSE_SPEED_MULTIPLIER,
        1_000_000_000_000_000_000_000_000,
    )
}

/// Sink calls for a pointer move of `dx` and `dy` steps: one per axis that moves,
/// then a flush.
pub open spec fn motion_actions(dx: i32, dy: i32) -> Seq<HidAction> {
    let along_x = if dx != 0 {
        seq![HidAction::MoveRelative(PointerAxis::X, dx)]
    } else {
        Seq::<HidAction>::empty()
    };
    let along_y = if dy != 0 {
        seq![HidAction::MoveRelative(PointerAxis::Y, dy)]
    } else {
        Seq::<HidAction>::empty()
    };
    along_x + along_y + seq![HidAction::Synchronize]
}

/// Sink calls of a motion tick that reads `coords` in ramp state `info`: none while
/// the stick is at rest, else the move under the acceleration of this very tick,
/// with the vertical axis turned to screen coordinates.
pub open spec fn motion_tick(info: MoveInfo, coords: Coords) -> Seq<HidAction> {
    let accel = info.after_tick(coords, false).cur_accel as int;
    if info.at_rest(coords) {
        Seq::empty()
    } else {
        motion_actions(
            mouse_speed(coords.x as int, accel) as i32,
            (-mouse_speed(coords.y as int, accel)) as i32,
        )
    }
}

/// Exponential response curve: leaves small deflections as they are and squares
/// larger ones. The result counts in `UNIT * UNIT`ths.
pub fn exponential_speed(value: i32) -> (speed: i64)
    requires
        -UNIT <= value <= UNIT,
    ensures
        speed == shaped(value as int),
{
    let direction: i64 = get_sign(value) as i64;
    let size: i64 = abs_value(value);
    assert(0 <= size * size <= 1_000_000_000_000 && size * UNIT == 1_000_000 * size)
        by (nonlinear_arith)
        requires
            0 <= size <= 1_000_000,
            UNIT == 1_000_000,
    ;
    let curved: i64 = if size > CURVE_KNEE as i64 {
        10 * (size * size)
    } else {
        size * (UNIT as i64)
    };
    assert(direction * curved == sign(value as int) * curve(size as int)) by (nonlinear_arith)
        requires
            direction == sign(value as int),
            curved == curve(size as int),
    ;
    assert(-curved <= direction * curved <= curved) by (nonlinear_arith)
        requires
            -1 <= direction <= 1,
            curved >= 0,
    ;
    direction * curved
}

/// The response never exceeds ten, and the speed stays within what an `i32` holds.
pub proof fn lemma_speed_bounds(v: int, accel: int)
    requires
        -UNIT <= v <= UNIT,
        0 <= accel <= u32::MAX,
    ensures
        magnitude(shaped(v)) <= 10 * UNIT * UNIT,
        magnitude(shaped(v) * (UNIT + accel) * MOUSE_SPEED_MULTIPLIER)
            <= 43_000_000_000_000_000_000_000_000_000,
        magnitude(mouse_speed(v, accel)) <= 43_001,
{
    let size = magnitude(v);
    assert(0 <= size * size <= 1_000_000_000_000 && size * UNIT == 1_000_000 * size)
        by (nonlinear_arith)
        requires
            0 <= size <= 1_000_000,
            UNIT == 1_000_000,
    ;
    let s = shaped(v);
    assert(s == curve(size) || s == -curve(size) || s == 0) by (nonlinear_arith)
        requires
            s == sign(v) * curve(size),
            -1 <= sign(v) <= 1,
    ;
    let factor = UNIT + accel;
    let boosted = s * factor;
    assert(magnitude(boosted) <= 43_000_000_000_000_000_000_000) by (nonlinear_arith)
        requires
            boosted == s * factor,
            -10_000_000_000_000 <= s <= 10_000_000_000_000,
            0 <= factor <= 4_300_000_000,
    ;
    let scaled = boosted * MOUSE_SPEED_MULTIPLIER;
    lemma_round_is_nearest(scaled, SPEED_SCALE as int);
    let r = magnitude(round_half_away(scaled, SPEED_SCALE as int));
    assert(r <= 43_001) by (nonlinear_arith)
        requires
            2 * (r * 1_000_000_000_000_000_000_000_000) <= 2
                * 43_000_000_000_000_000_000_000_000_000 + 1_000_000_000_000_000_000_000_000,
            r >= 0,
    ;
}

/// Pointer steps for one axis: the curved deflection, scaled by the acceleration
/// and the speed multiplier, rounded to the nearest step.
pub fn calc_mouse_speed(value: i32, move_info: &MoveInfo) -> (steps: i32)
    requires
        -UNIT <= value <= UNIT,
    ensures
        steps == mouse_speed(value as int, move_info.cur_accel as int),
        -43_001 <= steps <= 43_001,
{
    proof {
        lemma_speed_bounds(value as int, move_info.cur_accel as int);
    }
    let curved: i64 = exponential_speed(value);
    let boosted: i128 = move_info.apply_accel(curved);
    let scaled: i128 = boosted * (MOUSE_SPEED_MULTIPLIER as i128);
    let steps: i128 = round_div(scaled, SPEED_SCALE);
    steps as i32
}

/// One motion tick: advances the ramp with the deflection read, then gives the
/// sink calls that move the pointer. While the stick is at rest the ramp still
/// advances and nothing is sent.
pub fn move_mouse(coords: &Coords, move_info: &mut MoveInfo) -> (actions: Vec<HidAction>)
    requires
        coords.in_range(),
    ensures
        *final(move_info) == old(move_info).after_tick(*coords, false),
        actions@ == motion_tick(*old(move_info), *coords),
{
    let mut actions: Vec<HidAction> = Vec::new();
    move_info.update_accel(*coords, false);
    if move_info.in_zero_zone(*coords) {
        return actions;
    }
    let x_force: i32 = calc_mouse_speed(coords.x, move_info);
    let y_force: i32 = -calc_mouse_speed(coords.y, move_info);
    if x_force != 0 {
        actions.push(HidAction::MoveRelative(PointerAxis::X, x_force));
    }
    if y_force != 0 {
        actions.push(HidAction::MoveRelative(PointerAxis::Y, y_force));
    }
    actions.push(HidAction::Synchronize);
    actions
}

/// The response curve is odd: mirroring the deflection mirrors the response.
pub proof fn lemma_curve_is_odd(v: int)
    ensures
        shaped(-v) == -shaped(v),
{
    let size = magnitude(v);
    assert(-(sign(v) * curve(size)) == (-sign(v)) * curve(size)) by (nonlinear_arith);
}

/// The pointer speed is odd in the deflection as well.
pub proof fn lemma_speed_is_odd(v: int, accel: int)
    ensures
        mouse_speed(-v, accel) == -mouse_speed(v, accel),
{
    lemma_curve_is_odd(v);
    let s = shaped(v);
    let factor = UNIT + accel;
    assert((-s) * factor * MOUSE_SPEED_MULTIPLIER == -(s * factor * MOUSE_SPEED_MULTIPLIER))
        by (nonlinear_arith);
    crate::fixed::lemma_round_is_odd(
        s * factor * MOUSE_SPEED_MULTIPLIER,
        SPEED_SCALE as int,
    );
}

/// One tick either resets the acceleration to zero, when the direction changed
/// or the stick is at rest, or leaves it no smaller than it was.
pub proof fn lemma_tick_ramps_or_resets(info: MoveInfo, coords: Coords, ignore_x: bool)
    ensures
        info.direction_changed(coords, ignore_x) || info.at_rest(coords) ==> info.after_tick(
            coords,
            ignore_x,
        ).cur_accel == 0,
        !info.direction_changed(coords, ignore_x) && !info.at_rest(coords) ==> info.after_tick(
            coords,
            ignore_x,
        ).cur_accel >= info.cur_accel && info.after_tick(coords, ignore_x).cur_accel == ramped(
            info.cur_accel,
            info.accel_step,
        ),
{
}

/// The deflection that `run[i]` is held against.
pub open spec fn coords_before(info: MoveInfo, run: Seq<Coords>, i: int) -> Coords {
    if i == 0 {
        info.prev_coords
    } else {
        run[i - 1]
    }
}

/// True when every deflection of `run` lies outside the zero-zone and points the
/// way the one before it did.
pub open spec fn holds_direction(info: MoveInfo, run: Seq<Coords>, ignore_x: bool) -> bool {
    forall|i: int|
        0 <= i < run.len() ==> {
            let before = coords_before(info, run, i);
            &&& !info.at_rest(#[trigger] run[i])
            &&& sign(run[i].y as int) == sign(before.y as int)
            &&& ignore_x || sign(run[i].x as int) == sign(before.x as int)
        }
}

/// `total`, held at the largest acceleration that fits.
pub open spec fn capped(total: int) -> int {
    if total > u32::MAX {
        u32::MAX as int
    } else {
        total
    }
}

/// A run leaves the step and the zero-zone alone and remembers its last deflection.
pub proof fn lemma_run_keeps_settings(info: MoveInfo, run: Seq<Coords>, ignore_x: bool)
    ensures
        info.after_run(run, ignore_x).accel_step == info.accel_step,
        info.after_run(run, ignore_x).zero_zone == info.zero_zone,
        info.after_run(run, ignore_x).prev_coords == coords_before(info, run, run.len() as int),
    decreases run.len(),
{
    if run.len() > 0 {
        lemma_run_keeps_settings(info, run.drop_last(), ignore_x);
    }
}

/// While the stick keeps its direction outside the zero-zone, every tick adds one
/// step to the acceleration, up to the largest value that fits.
pub proof fn lemma_held_direction_adds_steps(info: MoveInfo, run: Seq<Coords>, ignore_x: bool)
    requires
        holds_direction(info, run, ignore_x),
    ensures
        info.after_run(run, ignore_x).cur_accel == capped(
            info.cur_accel + run.len() * info.accel_step,
        ),
    decreases run.len(),
{
    if run.len() > 0 {
        let earlier = run.drop_last();
        let n = earlier.len() as int;
        assert forall|i: int| 0 <= i < earlier.len() implies {
            let before = coords_before(info, earlier, i);
            &&& !info.at_rest(#[trigger] earlier[i])
            &&& sign(earlier[i].y as int) == sign(before.y as int)
            &&& ignore_x || sign(earlier[i].x as int) == sign(before.x as int)
        } by {
            assert(earlier[i] == run[i]);
            assert(coords_before(info, earlier, i) == coords_before(info, run, i));
        }
        lemma_held_direction_adds_steps(info, earlier, ignore_x);
        lemma_run_keeps_settings(info, earlier, ignore_x);
        let state = info.after_run(earlier, ignore_x);
        assert(state.prev_coords == coords_before(info, run, n));
        assert(!info.at_rest(run[n]));
        assert(!state.direction_changed(run.last(), ignore_x));
        assert(!state.at_rest(run.last()));
        assert((n + 1) * info.accel_step == n * info.accel_step + info.accel_step)
            by (nonlinear_arith);
        assert(n * info.accel_step >= 0) by (nonlinear_arith)
            requires
                n >= 0,
                info.accel_step >= 0,
        ;
    } else {
        assert(0 * info.accel_step == 0);
    }
}

/// While the stick keeps its direction outside the zero-zone, the acceleration
/// never decreases from one tick to a later one.
pub proof fn lemma_held_direction_never_slows(
    info: MoveInfo,
    run: Seq<Coords>,
    ignore_x: bool,
    i: int,
    j: int,
)
    requires
        holds_direction(info, run, ignore_x),
        0 <= i <= j <= run.len(),
    ensures
        info.after_run(run.take(i), ignore_x).cur_accel <= info.after_run(
            run.take(j),
            ignore_x,
        ).cur_accel,
{
    lemma_prefix_holds_direction(info, run, ignore_x, i);
    lemma_prefix_holds_direction(info, run, ignore_x, j);
    lemma_held_direction_adds_steps(info, run.take(i), ignore_x);
    lemma_held_direction_adds_steps(info, run.take(j), ignore_x);
    assert(i * info.accel_step <= j * info.accel_step) by (nonlinear_arith)
        requires
            0 <= i <= j,
            info.accel_step >= 0,
    ;
}

/// A run that holds its direction does so up to every tick of it.
pub proof fn lemma_prefix_holds_direction(
    info: MoveInfo,
    run: Seq<Coords>,
    ignore_x: bool,
    n: int,
)
    requires
        holds_direction(info, run, ignore_x),
        0 <= n <= run.len(),
    ensures
        holds_direction(info, run.take(n), ignore_x),
{
    let prefix = run.take(n);
    assert forall|i: int| 0 <= i < prefix.len() implies {
        let before = coords_before(info, prefix, i);
        &&& !info.at_rest(#[trigger] prefix[i])
        &&& sign(prefix[i].y as int) == sign(before.y as int)
        &&& ignore_x || sign(prefix[i].x as int) == sign(before.x as int)
    } by {
        assert(prefix[i] == run[i]);
        assert(coords_before(info, prefix, i) == coords_before(info, run, i));
    }
}

/// A centred stick sends nothing and clears the acceleration, whatever the ramp
/// state.
pub proof fn lemma_centred_stick_sends_nothing(info: MoveInfo)
    ensures
        motion_tick(info, Coords::centre()) == Seq::<HidAction>::empty(),
        info.after_tick(Coords::centre(), false).cur_accel == 0,
{
}

/// A run of `ticks` ticks that all read the centred stick.
pub open spec fn idle_run(ticks: nat) -> Seq<Coords> {
    Seq::new(ticks, |i: int| Coords::centre())
}

/// However long the stick stays centred, the next tick sends nothing, whatever
/// state the run started in.
pub proof fn lemma_idle_run_sends_nothing(info: MoveInfo, ticks: nat)
    ensures
        motion_tick(info.after_run(idle_run(ticks), false), Coords::centre()) == Seq::<
            HidAction,
        >::empty(),
        ticks > 0 ==> info.after_run(idle_run(ticks), false).cur_accel == 0,
{
    lemma_centred_stick_sends_nothing(info.after_run(idle_run(ticks), false));
    if ticks > 0 {
        lemma_centred_stick_sends_nothing(
            info.after_run(idle_run(ticks).drop_last(), false),
        );
    }
}

} // verus!
