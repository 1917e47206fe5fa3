//! Gamepad events and their one-line text form for mirroring over a network.

use vstd::prelude::*;
use vstd::string::StringExecFns;
use crate::fixed::{abs_value, magnitude, UNIT};
use crate::mode_table::LogicalButton;

verus! {

/// Analog axis of a gamepad.
#[derive(Clone, Copy, Debug, PartialEq, Eq, Structural)]
pub enum Axis {
    LeftStickX,
    LeftStickY,
    LeftZ,
    RightStickX,
    RightStickY,
    RightZ,
    DPadX,
    DPadY,
    Unknown,
}

/// One event of a gamepad. Analog values count in `UNIT`ths; the text that ends
/// most variants is the device's own name for the control that changed.
#[derive(Debug, PartialEq, Eq)]
pub enum EventType {
    /// A button went down.
    ButtonPressed(LogicalButton, String),
    /// A held button repeated.
    ButtonRepeated(LogicalButton, String),
    /// A button came up.
    ButtonReleased(LogicalButton, String),
    /// An analog button moved to a value between 0 and `UNIT`.
    ButtonChanged(LogicalButton, i32, String),
    /// An axis moved to a value between `-UNIT` and `UNIT`.
    AxisChanged(Axis, i32, String),
    /// The gamepad was plugged in.
    Connected,
    /// The gamepad went away; no event follows.
    Disconnected,
    /// An event that a filter took out.
    Dropped,
}

/// Letter that stands for a button on the wire.
pub open spec fn button_letter(button: LogicalButton) -> char {
    match button {
        LogicalButton::South => 'a',
        LogicalButton::East => 'b',
        LogicalButton::North => 'c',
        LogicalButton::West => 'd',
        LogicalButton::C => 'e',
        LogicalButton::Z => 'f',
        LogicalButton::LeftTrigger => 'g',
        LogicalButton::LeftTrigger2 => 'h',
        LogicalButton::RightTrigger => 'i',
        LogicalButton::RightTrigger2 => 'j',
        LogicalButton::Select => 'k',
        LogicalButton::Start => 'l',
        LogicalButton::Mode => 'm',
        LogicalButton::LeftThumb => 'n',
        LogicalButton::RightThumb => 'o',
        LogicalButton::DPadUp => 'p',
        LogicalButton::DPadDown => 'q',
        LogicalButton::DPadLeft => 'r',
        LogicalButton::DPadRight => 's',
        LogicalButton::Unknown => 't',
    }
}

/// Letter or digit that stands for an axis on the wire.
pub open spec fn axis_letter(axis: Axis) -> char {
    match axis {
        Axis::LeftStickX => 'u',
        Axis::LeftStickY => 'v',
        Axis::LeftZ => 'w',
        Axis::RightStickX => 'x',
        Axis::RightStickY => 'y',
        Axis::RightZ => 'z',
        Axis::DPadX => '0',
        Axis::DPadY => '1',
        Axis::Unknown => '2',
    }
}

/// Letter that stands for the kind of an event on the wire.
pub open spec fn kind_letter(event: EventType) -> char {
    match event {
        EventType::AxisChanged(..) => 'a',
        EventType::ButtonChanged(..) => 'b',
        EventType::ButtonReleased(..) => 'c',
        EventType::ButtonPressed(..) => 'd',
        EventType::ButtonRepeated(..) => 'e',
        EventType::Connected => 'f',
        EventType::Disconnected => 'g',
        EventType::Dropped => 'h',
    }
}

/// The control an event is about, as text: one letter, or nothing for an event
/// that concerns the gamepad as a whole.
pub open spec fn control_text(event: EventType) -> Seq<char> {
    match event {
        EventType::AxisChanged(axis, _, _) => seq![axis_letter(axis)],
        EventType::ButtonChanged(button, _, _) => seq![button_letter(button)],
        EventType::ButtonReleased(button, _) => seq![button_letter(button)],
        EventType::ButtonPressed(button, _) => seq![button_letter(button)],
        EventType::ButtonRepeated(button, _) => seq![button_letter(button)],
        _ => Seq::empty(),
    }
}

/// The analog value an event carries, zero where it carries none.
pub open spec fn carried_value(event: EventType) -> int {
    match event {
        EventType::AxisChanged(_, value, _) => value as int,
        EventType::ButtonChanged(_, value, _) => value as int,
        _ => 0,
    }
}

/// The device's name for the control an event is about, empty where there is none.
pub open spec fn raw_code_text(event: EventType) -> Seq<char> {
    match event {
        EventType::AxisChanged(_, _, code) => code@,
        EventType::ButtonChanged(_, _, code) => code@,
        EventType::ButtonReleased(_, code) => code@,
        EventType::ButtonPressed(_, code) => code@,
        EventType::ButtonRepeated(_, code) => code@,
        _ => Seq::empty(),
    }
}

/// The character for a single decimal digit.
pub open spec fn digit_char(digit: int) -> char {
    if digit == 0 {
        '0'
    } else if digit == 1 {
        '1'
    } else if digit == 2 {
        '2'
    } else if digit == 3 {
        '3'
    } else if digit == 4 {
        '4'
    } else if digit == 5 {
        '5'
    } else if digit == 6 {
        '6'
    } else if digit == 7 {
        '7'
    } else if digit == 8 {
        '8'
    } else {
        '9'
    }
}

/// Decimal digits of `n`, most significant first, without leading zeros.
pub open spec fn whole_digits(n: nat) -> Seq<char>
    decreases n,
{
    if n < 10 {
        seq![digit_char(n as int)]
    } else {
        whole_digits(n / 10).push(digit_char((n % 10) as int))
    }
}

/// Decimal digits of the fraction `frac / (10 * place)`, where `place` is the
/// weight of the first digit, without trailing zeros.
pub open spec fn fraction_digits(frac: nat, place: nat) -> Seq<char>
    decreases place,
{
    if frac == 0 || place == 0 {
        Seq::empty()
    } else {
        seq![digit_char((frac / place) as int)] + fraction_digits(frac % place, place / 10)
    }
}

/// Decimal text of the fixed-point value `v`: a minus sign if negative, the whole
/// part, and, unless the fraction is zero, a point and the fraction's digits
/// without trailing zeros.
pub open spec fn value_text(v: int) -> Seq<char> {
    let size = magnitude(v) as nat;
    let minus = if v < 0 {
        seq!['-']
    } else {
        Seq::<char>::empty()
    };
    let fraction = if size % (UNIT as nat) == 0 {
        Seq::<char>::empty()
    } else {
        seq!['.'] + fraction_digits(size % (UNIT as nat), (UNIT / 10) as nat)
    };
    minus + whole_digits(size / (UNIT as nat)) + fraction
}

/// The line that mirrors an event: kind, control, value, a semicolon, and the
/// device's name for the control.
pub open spec fn event_line(event: EventType) -> Seq<char> {
    seq![kind_letter(event)] + control_text(event) + value_text(carried_value(event)) + seq![';']
        + raw_code_text(event)
}

/// Wire name of a button.
pub fn match_button(button: &LogicalButton) -> (name: &'static str)
    ensures
        name@ == seq![button_letter(*button)],
{
    proof {
        reveal_strlit("a");
        reveal_strlit("b");
        reveal_strlit("c");
        reveal_strlit("d");
        reveal_strlit("e");
        reveal_strlit("f");
        reveal_strlit("g");
        reveal_strlit("h");
        reveal_strlit("i");
        reveal_strlit("j");
        reveal_strlit("k");
        reveal_strlit("l");
        reveal_strlit("m");
        reveal_strlit("n");
        reveal_strlit("o");
        reveal_strlit("p");
        reveal_strlit("q");
        reveal_strlit("r");
        reveal_strlit("s");
        reveal_strlit("t");
    }
    let name = match button {
        LogicalButton::South => "a",
        LogicalButton::East => "b",
        LogicalButton::North => "c",
        LogicalButton::West => "d",
        LogicalButton::C => "e",
        LogicalButton::Z => "f",
        LogicalButton::LeftTrigger => "g",
        LogicalButton::LeftTrigger2 => "h",
        LogicalButton::RightTrigger => "i",
        LogicalButton::RightTrigger2 => "j",
        LogicalButton::Select => "k",
        LogicalButton::Start => "l",
        LogicalButton::Mode => "m",
        LogicalButton::LeftThumb => "n",
        LogicalButton::RightThumb => "o",
        LogicalButton::DPadUp => "p",
        LogicalButton::DPadDown => "q",
        LogicalButton::DPadLeft => "r",
        LogicalButton::DPadRight => "s",
        LogicalButton::Unknown => "t",
    };
    assert(name@ =~= seq![button_letter(*button)]);
    name
}

/// Wire name of an axis.
pub fn match_axis(axis: &Axis) -> (name: &'static str)
    ensures
        name@ == seq![axis_letter(*axis)],
{
    proof {
        reveal_strlit("u");
        reveal_strlit("v");
        reveal_strlit("w");
        reveal_strlit("x");
        reveal_strlit("y");
        reveal_strlit("z");
        reveal_strlit("0");
        reveal_strlit("1");
        reveal_strlit("2");
    }
    let name = match axis {
        Axis::LeftStickX => "u",
        Axis::LeftStickY => "v",
        Axis::LeftZ => "w",
        Axis::RightStickX => "x",
        Axis::RightStickY => "y",
        Axis::RightZ => "z",
        Axis::DPadX => "0",
        Axis::DPadY => "1",
        Axis::Unknown => "2",
    };
    assert(name@ =~= seq![axis_letter(*axis)]);
    name
}

/// True for the weights a digit after the decimal point can have.
pub open spec fn is_decimal_place(place: nat) -> bool {
    place == 1 || place == 10 || place == 100 || place == 1_000 || place == 10_000 || place
        == 100_000
}

/// The text of one decimal digit.
fn digit_name(digit: u32) -> (name: &'static str)
    requires
        digit < 10,
    ensures
        name@ == seq![digit_char(digit as int)],
{
    proof {
        reveal_strlit("0");
        reveal_strlit("1");
        reveal_strlit("2");
        reveal_strlit("3");
        reveal_strlit("4");
        reveal_strlit("5");
        reveal_strlit("6");
        reveal_strlit("7");
        reveal_strlit("8");
        reveal_strlit("9");
    }
    let name = if digit == 0 {
        "0"
    } else if digit == 1 {
        "1"
    } else if digit == 2 {
        "2"
    } else if digit == 3 {
        "3"
    } else if digit == 4 {
        "4"
    } else if digit == 5 {
        "5"
    } else if digit == 6 {
        "6"
    } else if digit == 7 {
        "7"
    } else if digit == 8 {
        "8"
    } else {
        "9"
    };
    assert(name@ =~= seq![digit_char(digit as int)]);
    name
}

/// Appends the decimal digits of `n`.
fn push_whole(text: &mut String, n: u32)
    ensures
        final(text)@ == old(text)@ + whole_digits(n as nat),
    decreases n,
{
    if n >= 10 {
        push_whole(text, n / 10);
    }
    text.append(digit_name(n % 10));
}

/// Appends the digits of a fraction, stopping before trailing zeros.
fn push_fraction(text: &mut String, frac: u32, place: u32)
    requires
        is_decimal_place(place as nat),
        frac < 10 * place,
    ensures
        final(text)@ == old(text)@ + fraction_digits(frac as nat, place as nat),
    decreases place,
{
    if frac != 0 {
        text.append(digit_name(frac / place));
        if place >= 10 {
            push_fraction(text, frac % place, place / 10);
        } else {
            assert(fraction_digits((frac % place) as nat, (place / 10) as nat) =~= Seq::<
                char,
            >::empty());
        }
    }
}

/// Decimal text of a fixed-point value, such as `0.31` for 310 000 and `-1` for
/// `-UNIT`.
pub fn format_value(value: i32) -> (text: String)
    ensures
        text@ == value_text(value as int),
{
    let size: u32 = abs_value(value) as u32;
    let mut text = String::new();
    if value < 0 {
        proof {
            reveal_strlit("-");
        }
        text.append("-");
    }
    push_whole(&mut text, size / (UNIT as u32));
    let frac: u32 = size % (UNIT as u32);
    if frac != 0 {
        proof {
            reveal_strlit(".");
        }
        text.append(".");
        push_fraction(&mut text, frac, (UNIT / 10) as u32);
    }
    assert(text@ =~= value_text(value as int));
    text
}

/// Splits an event into the four parts of its line: the control's wire name, the
/// value as text, the kind's wire name, and the device's name for the control.
pub fn match_event(event: &EventType) -> (parts: (&'static str, String, &'static str, String))
    ensures
        parts.0@ == control_text(*event),
        parts.1@ == value_text(carried_value(*event)),
        parts.2@ == seq![kind_letter(*event)],
        parts.3@ == raw_code_text(*event),
{
    proof {
        reveal_strlit("");
        reveal_strlit("a");
        reveal_strlit("b");
        reveal_strlit("c");
        reveal_strlit("d");
        reveal_strlit("e");
        reveal_strlit("f");
        reveal_strlit("g");
        reveal_strlit("h");
    }
    let mut button_or_axis: &'static str = "";
    let mut res_value: i32 = 0;
    let event_type: &'static str;
    let mut res_code: String = String::new();
    match event {
        EventType::AxisChanged(axis, value, code) => {
            event_type = "a";
            res_value = *value;
            button_or_axis = match_axis(axis);
            res_code = code.clone();
        },
        EventType::ButtonChanged(button, value, code) => {
            event_type = "b";
            res_value = *value;
            button_or_axis = match_button(button);
            res_code = code.clone();
        },
        EventType::ButtonReleased(button, code) => {
            event_type = "c";
            button_or_axis = match_button(button);
            res_code = code.clone();
        },
        EventType::ButtonPressed(button, code) => {
            event_type = "d";
            button_or_axis = match_button(button);
            res_code = code.clone();
        },
        EventType::ButtonRepeated(button, code) => {
            event_type = "e";
            button_or_axis = match_button(button);
            res_code = code.clone();
        },
        EventType::Connected => {
            event_type = "f";
        },
        EventType::Disconnected => {
            event_type = "g";
        },
        EventType::Dropped => {
            event_type = "h";
        },
    }
    let res_value = format_value(res_value);
    assert(button_or_axis@ =~= control_text(*event));
    assert(event_type@ =~= seq![kind_letter(*event)]);
    assert(res_code@ =~= raw_code_text(*event));
    (button_or_axis, res_value, event_type, res_code)
}

/// The line that mirrors `event` to a listener on the network.
pub fn encode_event(event: &EventType) -> (line: String)
    ensures
        line@ == event_line(*event),
{
    let (button_or_axis, res_value, event_type, code) = match_event(event);
    let mut line = String::new();
    line.append(event_type);
    line.append(button_or_axis);
    line.append(res_value.as_str());
    proof {
        reveal_strlit(";");
    }
    line.append(";");
    line.append(code.as_str());
    assert(line@ =~= event_line(*event));
    line
}

} // verus!
