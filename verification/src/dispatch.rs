//! The decision taken for each gamepad event: which keys to actuate, which stick
//! register to overwrite, or when to stop.

use vstd::prelude::*;
use crate::fixed::UNIT;
use crate::hid::{
    press_actions, press_sequence, release_actions, release_sequence, HidAction, Key,
};
use crate::match_events::{Axis, EventType};
use crate::mode_table::{LogicalButton, Mode, ModeTable};
use crate::mouse_move::Coords;
use crate::trigger::{detect_trigger_state, trigger_transition, TriggerButtons, TriggerState};

verus! {

/// Milliseconds the dispatch loop sleeps after draining the pending events.
pub const POLL_INTERVAL_MS: u64 = 25;

/// What the dispatch loop remembers between events: the last reading of each
/// analog trigger and the last known position of each stick.
#[derive(Clone, Copy, Debug, PartialEq, Eq, Structural)]
pub struct DispatchState {
    pub triggers: TriggerButtons,
    pub motion: Coords,
    pub scroll: Coords,
}

/// What the dispatch loop has to do for one event.
#[derive(Debug, PartialEq, Eq)]
pub enum Effect {
    /// Perform these sink calls, in order.
    Actuate(Vec<HidAction>),
    /// Nothing is bound to this control; worth a note when debugging, no more.
    Unmapped(LogicalButton),
    /// Overwrite the register that feeds pointer motion.
    StoreMotion(Coords),
    /// Overwrite the register that feeds scrolling.
    StoreScroll(Coords),
    /// Nothing to do.
    Ignore,
    /// The gamepad is gone: leave the loop.
    Stop,
}

/// An [`Effect`] with its sink calls as a sequence.
pub enum EffectView {
    Actuate(Seq<HidAction>),
    Unmapped(LogicalButton),
    StoreMotion(Coords),
    StoreScroll(Coords),
    Ignore,
    Stop,
}

impl View for Effect {
    type V = EffectView;

    open spec fn view(&self) -> EffectView {
        match *self {
            Effect::Actuate(actions) => EffectView::Actuate(actions@),
            Effect::Unmapped(button) => EffectView::Unmapped(button),
            Effect::StoreMotion(coords) => EffectView::StoreMotion(coords),
            Effect::StoreScroll(coords) => EffectView::StoreScroll(coords),
            Effect::Ignore => EffectView::Ignore,
            Effect::Stop => EffectView::Stop,
        }
    }
}

/// Pressing (`down`) or releasing the chord bound to `button`, or the remark
/// that none is bound.
pub open spec fn chord_effect(
    table: Map<LogicalButton, Seq<Key>>,
    button: LogicalButton,
    down: bool,
) -> EffectView {
    if !table.contains_key(button) {
        EffectView::Unmapped(button)
    } else if down {
        EffectView::Actuate(press_actions(table[button]))
    } else {
        EffectView::Actuate(release_actions(table[button]))
    }
}

/// The stored reading that an analog button is debounced against, if it is one
/// of the two analog triggers.
pub open spec fn stored_reading(button: LogicalButton, triggers: TriggerButtons) -> Option<int> {
    match button {
        LogicalButton::LeftTrigger2 => Some(triggers.left as int),
        LogicalButton::RightTrigger2 => Some(triggers.right as int),
        _ => None,
    }
}

/// What an event asks for, given the bindings and what the loop remembers.
pub open spec fn effect_of(
    table: Map<LogicalButton, Seq<Key>>,
    event: EventType,
    state: DispatchState,
) -> EffectView {
    match event {
        EventType::ButtonPressed(button, _) => chord_effect(table, button, true),
        EventType::ButtonReleased(button, _) => chord_effect(table, button, false),
        EventType::ButtonChanged(button, value, _) => match stored_reading(
            button,
            state.triggers,
        ) {
            Some(prev) => match trigger_transition(value as int, prev) {
                TriggerState::Pressed => chord_effect(table, button, true),
                TriggerState::Released => chord_effect(table, button, false),
                TriggerState::NoChange => EffectView::Ignore,
            },
            None => EffectView::Ignore,
        },
        EventType::AxisChanged(axis, _, _) => match axis {
            Axis::LeftStickX | Axis::LeftStickY => EffectView::StoreMotion(
                state_after(event, state).motion,
            ),
            Axis::RightStickX | Axis::RightStickY => EffectView::StoreScroll(
                state_after(event, state).scroll,
            ),
            _ => EffectView::Ignore,
        },
        EventType::Disconnected => EffectView::Stop,
        _ => EffectView::Ignore,
    }
}

/// What the loop remembers after an event: a trigger's reading replaces the stored
/// one, the left stick writes one component of the motion position and the right
/// stick one of the scroll position; nothing else changes.
pub open spec fn state_after(event: EventType, state: DispatchState) -> DispatchState {
    match event {
        EventType::ButtonChanged(LogicalButton::LeftTrigger2, value, _) => DispatchState {
            triggers: TriggerButtons { left: value, right: state.triggers.right },
            ..state
        },
        EventType::ButtonChanged(LogicalButton::RightTrigger2, value, _) => DispatchState {
            triggers: TriggerButtons { left: state.triggers.left, right: value },
            ..state
        },
        EventType::AxisChanged(Axis::LeftStickX, value, _) => DispatchState {
            motion: Coords { x: value, y: state.motion.y },
            ..state
        },
        EventType::AxisChanged(Axis::LeftStickY, value, _) => DispatchState {
            motion: Coords { x: state.motion.x, y: value },
            ..state
        },
        EventType::AxisChanged(Axis::RightStickX, value, _) => DispatchState {
            scroll: Coords { x: value, y: state.scroll.y },
            ..state
        },
        EventType::AxisChanged(Axis::RightStickY, value, _) => DispatchState {
            scroll: Coords { x: state.scroll.x, y: value },
            ..state
        },
        _ => state,
    }
}

impl DispatchState {
    /// Triggers released and both sticks centred.
    pub fn new() -> (state: DispatchState)
        ensures
            state == (DispatchState {
                triggers: TriggerButtons { left: 0, right: 0 },
                motion: Coords::centre(),
                scroll: Coords::centre(),
            }),
    {
        DispatchState {
            triggers: TriggerButtons { left: 0, right: 0 },
            motion: Coords { x: 0, y: 0 },
            scroll: Coords { x: 0, y: 0 },
        }
    }
}

/// Presses or releases the chord bound to `button`, if there is one.
fn actuate_chord(table: &ModeTable, mode: Mode, button: LogicalButton, down: bool) -> (effect:
    Effect)
    ensures
        effect@ == chord_effect(table@, button, down),
{
    match table.lookup(mode, button) {
        Some(sequence) => {
            if down {
                Effect::Actuate(press_sequence(sequence))
            } else {
                Effect::Actuate(release_sequence(sequence))
            }
        },
        None => Effect::Unmapped(button),
    }
}

/// Feeds one reading of an analog trigger to its debouncer and acts on the edge.
fn debounce_trigger(
    table: &ModeTable,
    mode: Mode,
    button: LogicalButton,
    value: i32,
    prev_value: &mut i32,
) -> (effect: Effect)
    ensures
        *final(prev_value) == value,
        effect@ == match trigger_transition(value as int, *old(prev_value) as int) {
            TriggerState::Pressed => chord_effect(table@, button, true),
            TriggerState::Released => chord_effect(table@, button, false),
            TriggerState::NoChange => EffectView::Ignore,
        },
{
    match detect_trigger_state(value, prev_value) {
        TriggerState::Pressed => actuate_chord(table, mode, button, true),
        TriggerState::Released => actuate_chord(table, mode, button, false),
        TriggerState::NoChange => Effect::Ignore,
    }
}

/// Decides what one event asks for and updates what the loop remembers. Digital
/// presses and releases actuate the chord bound to the button in the active
/// mode; readings of the two analog triggers are debounced into such presses and
/// releases; the sticks overwrite one component of their register.
pub fn dispatch_event(
    table: &ModeTable,
    mode: Mode,
    event: &EventType,
    state: &mut DispatchState,
) -> (effect: Effect)
    ensures
        effect@ == effect_of(table@, *event, *old(state)),
        *final(state) == state_after(*event, *old(state)),
{
    match event {
        EventType::ButtonPressed(button, _) => actuate_chord(table, mode, *button, true),
        EventType::ButtonReleased(button, _) => actuate_chord(table, mode, *button, false),
        EventType::ButtonChanged(button, value, _) => match button {
            LogicalButton::LeftTrigger2 => {
                let mut reading: i32 = state.triggers.left;
                let effect = debounce_trigger(table, mode, *button, *value, &mut reading);
                state.triggers.left = reading;
                effect
            },
            LogicalButton::RightTrigger2 => {
                let mut reading: i32 = state.triggers.right;
                let effect = debounce_trigger(table, mode, *button, *value, &mut reading);
                state.triggers.right = reading;
                effect
            },
            _ => Effect::Ignore,
        },
        EventType::AxisChanged(axis, value, _) => match axis {
            Axis::LeftStickX => {
                state.motion.x = *value;
                Effect::StoreMotion(state.motion)
            },
            Axis::LeftStickY => {
                state.motion.y = *value;
                Effect::StoreMotion(state.motion)
            },
            Axis::RightStickX => {
                state.scroll.x = *value;
                Effect::StoreScroll(state.scroll)
            },
            Axis::RightStickY => {
                state.scroll.y = *value;
                Effect::StoreScroll(state.scroll)
            },
            _ => Effect::Ignore,
        },
        EventType::Disconnected => Effect::Stop,
        _ => Effect::Ignore,
    }
}

/// True when the analog value of an event, if it has one, lies in the range of
/// its kind: `0 ..= UNIT` for a button and `-UNIT ..= UNIT` for an axis.
pub open spec fn carries_valid_value(event: EventType) -> bool {
    match event {
        EventType::ButtonChanged(_, value, _) => 0 <= value <= UNIT,
        EventType::AxisChanged(_, value, _) => -UNIT <= value <= UNIT,
        _ => true,
    }
}

/// A button press followed by the release of the same button presses the chord
/// bound to it front to back and then releases it back to front, whatever the
/// mode and the names the device gave; neither event changes what the loop
/// remembers.
pub proof fn lemma_button_round_trip(
    table: Map<LogicalButton, Seq<Key>>,
    button: LogicalButton,
    down_code: String,
    up_code: String,
    state: DispatchState,
)
    requires
        table.contains_key(button),
    ensures
        effect_of(table, EventType::ButtonPressed(button, down_code), state)
            == EffectView::Actuate(press_actions(table[button])),
        effect_of(table, EventType::ButtonReleased(button, up_code), state)
            == EffectView::Actuate(release_actions(table[button])),
        state_after(EventType::ButtonPressed(button, down_code), state) == state,
        state_after(EventType::ButtonReleased(button, up_code), state) == state,
{
}

/// No event reaches the sink for a control that nothing is bound to.
pub proof fn lemma_unbound_control_actuates_nothing(
    table: Map<LogicalButton, Seq<Key>>,
    event: EventType,
    state: DispatchState,
)
    requires
        match event {
            EventType::ButtonPressed(button, _) => !table.contains_key(button),
            EventType::ButtonReleased(button, _) => !table.contains_key(button),
            EventType::ButtonChanged(button, _, _) => !table.contains_key(button),
            _ => true,
        },
    ensures
        !(effect_of(table, event, state) is Actuate),
{
}

/// Stick positions stay within range as long as the events carry values within
/// range, and a stored position is always the one remembered.
pub proof fn lemma_registers_stay_in_range(
    table: Map<LogicalButton, Seq<Key>>,
    event: EventType,
    state: DispatchState,
)
    requires
        carries_valid_value(event),
        state.motion.in_range(),
        state.scroll.in_range(),
    ensures
        state_after(event, state).motion.in_range(),
        state_after(event, state).scroll.in_range(),
        effect_of(table, event, state) matches EffectView::StoreMotion(coords) ==> coords
            == state_after(event, state).motion,
        effect_of(table, event, state) matches EffectView::StoreScroll(coords) ==> coords
            == state_after(event, state).scroll,
{
}

} // verus!
