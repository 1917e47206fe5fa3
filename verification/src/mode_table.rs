//! Mapping from gamepad controls to key chords.

use vstd::prelude::*;
use crate::hid::{Key, KeySequence};

verus! {

/// Control of a gamepad that can be pressed.
#[derive(Clone, Copy, Debug, PartialEq, Eq, Structural)]
pub enum LogicalButton {
    South,
    East,
    North,
    West,
    C,
    Z,
    LeftTrigger,
    LeftTrigger2,
    RightTrigger,
    RightTrigger2,
    Select,
    Start,
    Mode,
    LeftThumb,
    RightThumb,
    DPadUp,
    DPadDown,
    DPadLeft,
    DPadRight,
    Unknown,
}

/// Number of distinct controls.
pub const BUTTON_COUNT: usize = 20;

/// Operating mode of the engine; exactly one is active at a time.
#[derive(Clone, Copy, Debug, PartialEq, Eq, Structural)]
pub enum Mode {
    Commands,
    Typing,
}

/// Position of a control in the table, counted in declaration order.
pub open spec fn button_slot(button: LogicalButton) -> int {
    match button {
        LogicalButton::South => 0,
        LogicalButton::East => 1,
        LogicalButton::North => 2,
        LogicalButton::West => 3,
        LogicalButton::C => 4,
        LogicalButton::Z => 5,
        LogicalButton::LeftTrigger => 6,
        LogicalButton::LeftTrigger2 => 7,
        LogicalButton::RightTrigger => 8,
        LogicalButton::RightTrigger2 => 9,
        LogicalButton::Select => 10,
        LogicalButton::Start => 11,
        LogicalButton::Mode => 12,
        LogicalButton::LeftThumb => 13,
        LogicalButton::RightThumb => 14,
        LogicalButton::DPadUp => 15,
        LogicalButton::DPadDown => 16,
        LogicalButton::DPadLeft => 17,
        LogicalButton::DPadRight => 18,
        LogicalButton::Unknown => 19,
    }
}

impl LogicalButton {
    /// Position of this control in the table.
    pub fn slot(self) -> (index: usize)
        ensures
            index == button_slot(self),
            index < BUTTON_COUNT,
    {
        match self {
            LogicalButton::South => 0,
            LogicalButton::East => 1,
            LogicalButton::North => 2,
            LogicalButton::West => 3,
            LogicalButton::C => 4,
            LogicalButton::Z => 5,
            LogicalButton::LeftTrigger => 6,
            LogicalButton::LeftTrigger2 => 7,
            LogicalButton::RightTrigger => 8,
            LogicalButton::RightTrigger2 => 9,
            LogicalButton::Select => 10,
            LogicalButton::Start => 11,
            LogicalButton::Mode => 12,
            LogicalButton::LeftThumb => 13,
            LogicalButton::RightThumb => 14,
            LogicalButton::DPadUp => 15,
            LogicalButton::DPadDown => 16,
            LogicalButton::DPadLeft => 17,
            LogicalButton::DPadRight => 18,
            LogicalButton::Unknown => 19,
        }
    }
}

/// Chords bound to controls. Both modes read the same bindings.
pub struct ModeTable {
    slots: Vec<Option<KeySequence>>,
}

impl View for ModeTable {
    type V = Map<LogicalButton, Seq<Key>>;

    closed spec fn view(&self) -> Map<LogicalButton, Seq<Key>> {
        Map::new(
            |button: LogicalButton| self.slots@[button_slot(button)] is Some,
            |button: LogicalButton| self.slots@[button_slot(button)]->0@,
        )
    }
}

impl ModeTable {
    #[verifier::type_invariant]
    spec fn one_slot_per_button(&self) -> bool {
        self.slots@.len() == BUTTON_COUNT
    }

    /// Table with no control bound.
    pub fn new() -> (table: ModeTable)
        ensures
            table@ == Map::<LogicalButton, Seq<Key>>::empty(),
    {
        let mut slots: Vec<Option<KeySequence>> = Vec::new();
        let mut i: usize = 0;
        while i < BUTTON_COUNT
            invariant
                i <= BUTTON_COUNT,
                slots@.len() == i,
                forall|j: int| 0 <= j < i ==> slots@[j] is None,
            decreases BUTTON_COUNT - i,
        {
            slots.push(None);
            i = i + 1;
        }
        let table = ModeTable { slots };
        assert(table@ =~= Map::<LogicalButton, Seq<Key>>::empty());
        table
    }

    /// The table with `sequence` bound to `button` in place of what was bound to it.
    pub fn bind(self, button: LogicalButton, sequence: KeySequence) -> (table: ModeTable)
        ensures
            table@ == self@.insert(button, sequence@),
    {
        proof {
            use_type_invariant(&self);
        }
        let index: usize = button.slot();
        let mut slots: Vec<Option<KeySequence>> = self.slots;
        slots.set(index, Some(sequence));
        let table = ModeTable { slots };
        assert(table@ =~= self@.insert(button, sequence@));
        table
    }

    /// The chord bound to `button`, if any. The answer is the same in every mode.
    pub fn lookup(&self, mode: Mode, button: LogicalButton) -> (found: Option<&KeySequence>)
        ensures
            found is Some <==> self@.contains_key(button),
            found matches Some(sequence) ==> sequence@ == self@[button],
    {
        proof {
            use_type_invariant(self);
        }
        let index: usize = button.slot();
        self.slots[index].as_ref()
    }
}

} // verus!
