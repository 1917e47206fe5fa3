//! Calls understood by the virtual input device, and ordered key chords.

use vstd::prelude::*;

verus! {

/// Logical key or mouse button, named by its input event code.
#[derive(Clone, Copy, Debug, PartialEq, Eq, Structural)]
pub struct Key {
    pub code: u16,
}

/// Axis of relative pointer motion.
#[derive(Clone, Copy, Debug, PartialEq, Eq, Structural)]
pub enum PointerAxis {
    X,
    Y,
}

/// Axis of a scroll wheel.
#[derive(Clone, Copy, Debug, PartialEq, Eq, Structural)]
pub enum ScrollDirection {
    Horizontal,
    Vertical,
}

/// One call on the virtual input device.
#[derive(Clone, Copy, Debug, PartialEq, Eq, Structural)]
pub enum HidAction {
    /// Hold a key down.
    Press(Key),
    /// Let a key go.
    Release(Key),
    /// Move the pointer by a signed number of steps along one axis.
    MoveRelative(PointerAxis, i32),
    /// Turn a wheel by a signed number of ticks.
    Scroll(ScrollDirection, i32),
    /// Flush what was sent since the last flush as one report.
    Synchronize,
}

/// Presses of `keys`, first key first.
pub open spec fn press_actions(keys: Seq<Key>) -> Seq<HidAction> {
    Seq::new(keys.len(), |i: int| HidAction::Press(keys[i]))
}

/// Releases of `keys`, last key first.
pub open spec fn release_actions(keys: Seq<Key>) -> Seq<HidAction> {
    Seq::new(keys.len(), |i: int| HidAction::Release(keys[keys.len() - 1 - i]))
}

/// True when `actions` holds neither pointer motion nor scrolling.
pub open spec fn is_motionless(actions: Seq<HidAction>) -> bool {
    forall|i: int|
        0 <= i < actions.len() ==> !(#[trigger] actions[i] is MoveRelative) && !(actions[i]
            is Scroll)
}

/// Ordered chord of at least one key: pressed front to back, released back to front.
pub struct KeySequence {
    keys: Vec<Key>,
}

impl View for KeySequence {
    type V = Seq<Key>;

    closed spec fn view(&self) -> Seq<Key> {
        self.keys@
    }
}

impl KeySequence {
    #[verifier::type_invariant]
    spec fn holds_a_key(&self) -> bool {
        self.keys@.len() >= 1
    }

    /// Builds a chord from `keys`; an empty list is no chord.
    pub fn new(keys: Vec<Key>) -> (made: Option<KeySequence>)
        ensures
            made is None <==> keys@.len() == 0,
            made matches Some(sequence) ==> sequence@ == keys@,
    {
        if keys.len() == 0 {
            None
        } else {
            Some(KeySequence { keys })
        }
    }

    /// Chord of a single key.
    pub fn single(key: Key) -> (sequence: KeySequence)
        ensures
            sequence@ == seq![key],
    {
        let mut keys: Vec<Key> = Vec::new();
        keys.push(key);
        KeySequence { keys }
    }

    /// Number of keys in the chord, never zero.
    pub fn len(&self) -> (n: usize)
        ensures
            n == self@.len(),
            n >= 1,
    {
        proof {
            use_type_invariant(self);
        }
        self.keys.len()
    }

    /// The key at position `index` of the press order.
    pub fn key(&self, index: usize) -> (k: Key)
        requires
            index < self@.len(),
        ensures
            k == self@[index as int],
    {
        self.keys[index]
    }

    /// Copy of the keys in press order.
    pub fn keys(&self) -> (listed: Vec<Key>)
        ensures
            listed@ == self@,
    {
        let mut listed: Vec<Key> = Vec::new();
        let mut i: usize = 0;
        while i < self.keys.len()
            invariant
                i <= self.keys@.len(),
                listed@ == self.keys@.subrange(0, i as int),
            decreases self.keys@.len() - i,
        {
            listed.push(self.keys[i]);
            i = i + 1;
        }
        listed
    }
}

/// Sink calls that press a chord: one press per key, in listed order.
pub fn press_sequence(sequence: &KeySequence) -> (actions: Vec<HidAction>)
    ensures
        actions@ == press_actions(sequence@),
{
    let n: usize = sequence.len();
    let mut actions: Vec<HidAction> = Vec::new();
    let mut i: usize = 0;
    while i < n
        invariant
            n == sequence@.len(),
            i <= n,
            actions@ == press_actions(sequence@.subrange(0, i as int)),
        decreases n - i,
    {
        actions.push(HidAction::Press(sequence.key(i)));
        i = i + 1;
    }
    actions
}

/// Sink calls that release a chord: one release per key, in reverse listed order.
pub fn release_sequence(sequence: &KeySequence) -> (actions: Vec<HidAction>)
    ensures
        actions@ == release_actions(sequence@),
{
    let n: usize = sequence.len();
    let mut actions: Vec<HidAction> = Vec::new();
    let mut i: usize = n;
    while i > 0
        invariant
            n == sequence@.len(),
            i <= n,
            actions@ == release_actions(sequence@.subrange(i as int, n as int)),
        decreases i,
    {
        i = i - 1;
        actions.push(HidAction::Release(sequence.key(i)));
    }
    actions
}

/// Pressing a chord and then releasing it presses every key front to back and
/// then releases every key back to front.
pub proof fn lemma_press_then_release_order(keys: Seq<Key>)
    ensures
        (press_actions(keys) + release_actions(keys)).len() == 2 * keys.len(),
        forall|i: int|
            0 <= i < keys.len() ==> #[trigger] (press_actions(keys) + release_actions(keys))[i]
                == HidAction::Press(keys[i]),
        forall|i: int|
            keys.len() <= i < 2 * keys.len() ==> #[trigger] (press_actions(keys) + release_actions(
                keys,
            ))[i] == HidAction::Release(keys[2 * keys.len() - 1 - i]),
{
}

/// Pressing or releasing a chord touches no key outside it and moves nothing.
pub proof fn lemma_chord_touches_only_its_keys(keys: Seq<Key>)
    ensures
        forall|i: int|
            0 <= i < press_actions(keys).len() ==> (#[trigger] press_actions(keys)[i]
                matches HidAction::Press(k) && keys.contains(k)),
        forall|i: int|
            0 <= i < release_actions(keys).len() ==> (#[trigger] release_actions(keys)[i]
                matches HidAction::Release(k) && keys.contains(k)),
        is_motionless(press_actions(keys)),
        is_motionless(release_actions(keys)),
{
}

} // verus!
