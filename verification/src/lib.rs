//! Event-to-actuation engine for driving a virtual keyboard and mouse from a gamepad.
//!
//! Analog quantities are fixed-point integers counted in [`fixed::UNIT`]ths, so a
//! full stick deflection is `UNIT` and the trigger threshold 0.3 is `3 * UNIT / 10`.
//! Every function that would touch a device instead returns the ordered list of
//! sink calls to perform.
//!
//! - [`mode_table`] binds gamepad buttons to key chords, and [`hid`] turns a chord
//!   into ordered presses and releases.
//! - [`trigger`] debounces an analog trigger into press and release edges.
//! - [`mouse_move`] shapes one stick into pointer motion, [`scroll`] the other
//!   into wheel ticks and the pause between them.
//! - [`dispatch`] decides, event by event, what the loop around all this has to do.
//! - [`match_events`] and [`endpoint`] serve the mirroring of events to a listener.

pub mod dispatch;
pub mod endpoint;
pub mod fixed;
pub mod hid;
pub mod match_events;
pub mod mode_table;
pub mod mouse_move;
pub mod scroll;
pub mod trigger;

pub use fixed::{get_sign, UNIT};
pub use hid::{
    press_sequence, release_sequence, HidAction, Key, KeySequence, PointerAxis, ScrollDirection,
};
pub use mode_table::{LogicalButton, Mode, ModeTable};
pub use trigger::{detect_trigger_state, TriggerButtons, TriggerState, TRIGGER_BTN_THRESHOLD};
pub use mouse_move::{
    calc_mouse_speed, exponential_speed, move_mouse, Coords, MoveInfo, MOUSE_ACCEL_STEP,
    MOUSE_SPEED_MULTIPLIER,
};
pub use scroll::{
    calc_scroll_direction, calc_scroll_interval, scroll_mouse, FAST_SCROLL_INTERVAL,
    SCROLL_ZERO_ZONE_X, SLOW_SCROLL_INTERVAL,
};
pub use match_events::{
    encode_event, format_value, match_axis, match_button, match_event, Axis, EventType,
};
pub use dispatch::{dispatch_event, DispatchState, Effect};
pub use endpoint::{host_with_port, parse_hostname, PORT};
