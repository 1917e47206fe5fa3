//! Turning an analog trigger into press and release edges.

use vstd::prelude::*;

verus! {

/// Level an analog trigger has to pass to count as pressed: 0.3.
pub const TRIGGER_BTN_THRESHOLD: i32 = 300_000;

/// Edge reported for one reading of an analog trigger.
#[derive(Clone, Copy, Debug, PartialEq, Eq, Structural)]
pub enum TriggerState {
    Pressed,
    Released,
    NoChange,
}

/// Last reading of each analog trigger.
#[derive(Clone, Copy, Debug, PartialEq, Eq, Structural)]
pub struct TriggerButtons {
    pub left: i32,
    pub right: i32,
}

impl Default for TriggerButtons {
    fn default() -> (triggers: TriggerButtons)
        ensures
            triggers == (TriggerButtons { left: 0, right: 0 }),
    {
        TriggerButtons { left: 0, right: 0 }
    }
}

/// Edge for a reading `value` that follows the reading `prev`: a press when the
/// reading rose and stands above the threshold, a release when it fell and stands
/// below it.
pub open spec fn trigger_transition(value: int, prev: int) -> TriggerState {
    if value > prev && value > TRIGGER_BTN_THRESHOLD {
        TriggerState::Pressed
    } else if value < prev && value < TRIGGER_BTN_THRESHOLD {
        TriggerState::Released
    } else {
        TriggerState::NoChange
    }
}

/// Edges reported for `values` fed one after the other, starting from the stored
/// reading `prev`.
pub open spec fn trigger_trace(prev: int, values: Seq<int>) -> Seq<TriggerState>
    decreases values.len(),
{
    if values.len() == 0 {
        Seq::empty()
    } else {
        seq![trigger_transition(values[0], prev)] + trigger_trace(values[0], values.skip(1))
    }
}

/// The reading that `values[i]` is judged against.
pub open spec fn reading_before(prev: int, values: Seq<int>, i: int) -> int {
    if i == 0 {
        prev
    } else {
        values[i - 1]
    }
}

/// True when no reading of `values` lies below the one before it.
pub open spec fn never_falls(prev: int, values: Seq<int>) -> bool {
    forall|i: int| 0 <= i < values.len() ==> reading_before(prev, values, i) <= #[trigger] values[i]
}

/// Reports the edge for a new trigger reading and stores the reading.
pub fn detect_trigger_state(value: i32, prev_value: &mut i32) -> (state: TriggerState)
    ensures
        state == trigger_transition(value as int, *old(prev_value) as int),
        *final(prev_value) == value,
{
    let state = if value > *prev_value && value > TRIGGER_BTN_THRESHOLD {
        TriggerState::Pressed
    } else if value < *prev_value && value < TRIGGER_BTN_THRESHOLD {
        TriggerState::Released
    } else {
        TriggerState::NoChange
    };
    *prev_value = value;
    state
}

/// Each reading of a run is judged against the reading just before it.
pub proof fn lemma_trace_by_index(prev: int, values: Seq<int>)
    ensures
        trigger_trace(prev, values).len() == values.len(),
        forall|i: int|
            0 <= i < values.len() ==> #[trigger] trigger_trace(prev, values)[i]
                == trigger_transition(values[i], reading_before(prev, values, i)),
    decreases values.len(),
{
    if values.len() > 0 {
        let rest = values.skip(1);
        lemma_trace_by_index(values[0], rest);
        assert forall|i: int| 0 <= i < values.len() implies #[trigger] trigger_trace(
            prev,
            values,
        )[i] == trigger_transition(values[i], reading_before(prev, values, i)) by {
            if i > 0 {
                assert(trigger_trace(prev, values)[i] == trigger_trace(values[0], rest)[i - 1]);
                assert(rest[i - 1] == values[i]);
                assert(reading_before(values[0], rest, i - 1) == reading_before(prev, values, i));
            }
        }
    }
}

/// A run of readings that never falls reports no release, and reports a press
/// exactly for the readings that rose and stand above the threshold.
pub proof fn lemma_rising_run_never_releases(prev: int, values: Seq<int>)
    requires
        never_falls(prev, values),
    ensures
        trigger_trace(prev, values).len() == values.len(),
        forall|i: int|
            0 <= i < values.len() ==> #[trigger] trigger_trace(prev, values)[i]
                != TriggerState::Released,
        forall|i: int|
            0 <= i < values.len() ==> (#[trigger] trigger_trace(prev, values)[i]
                == TriggerState::Pressed <==> values[i] > reading_before(prev, values, i)
                && values[i] > TRIGGER_BTN_THRESHOLD),
{
    lemma_trace_by_index(prev, values);
    assert forall|i: int| 0 <= i < values.len() implies #[trigger] trigger_trace(prev, values)[i]
        != TriggerState::Released by {
        assert(reading_before(prev, values, i) <= values[i]);
    }
}

/// A run of readings that never falls, passes the threshold at position `crossing`
/// and keeps that level afterwards reports exactly one press, at `crossing`, and
/// no release.
pub proof fn lemma_single_crossing_presses_once(prev: int, values: Seq<int>, crossing: int)
    requires
        never_falls(prev, values),
        0 <= crossing < values.len(),
        reading_before(prev, values, crossing) <= TRIGGER_BTN_THRESHOLD < values[crossing],
        forall|i: int| crossing < i < values.len() ==> values[i] == values[crossing],
    ensures
        trigger_trace(prev, values).len() == values.len(),
        forall|i: int|
            0 <= i < values.len() ==> (#[trigger] trigger_trace(prev, values)[i]
                == TriggerState::Pressed <==> i == crossing),
        forall|i: int|
            0 <= i < values.len() ==> #[trigger] trigger_trace(prev, values)[i]
                != TriggerState::Released,
{
    lemma_rising_run_never_releases(prev, values);
    assert forall|i: int| 0 <= i < values.len() implies (#[trigger] trigger_trace(
        prev,
        values,
    )[i] == TriggerState::Pressed <==> i == crossing) by {
        if i < crossing {
            lemma_never_falls_is_ordered(prev, values, i, crossing - 1);
            if crossing - 1 >= 0 && i <= crossing - 1 {
                assert(values[i] <= values[crossing - 1]);
            }
        } else if i > crossing {
            assert(values[i] == values[crossing]);
            if i - 1 > crossing {
                assert(values[i - 1] == values[crossing]);
            }
        }
    }
}

/// In a run that never falls, an earlier reading is no larger than a later one.
pub proof fn lemma_never_falls_is_ordered(prev: int, values: Seq<int>, i: int, j: int)
    requires
        never_falls(prev, values),
        0 <= i <= j < values.len(),
    ensures
        values[i] <= values[j],
    decreases j - i,
{
    if i < j {
        lemma_never_falls_is_ordered(prev, values, i, j - 1);
        assert(reading_before(prev, values, j) <= values[j]);
    }
}

} // verus!
