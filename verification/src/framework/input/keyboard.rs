use vstd::prelude::*;
use std::ops::Deref;
use crate::event::{ElementState, Event, InputEvent, KeyCode};
use crate::framework::input::state::{
    lemma_difference_is_symmetric_difference, lemma_no_changes_between_equal, state_in,
    symmetric_difference_of, AsRawState, Element, ElementSet, SetElement, Snapshot,
    SnapshotDifference, SnapshotState,
};
use crate::framework::React;

verus! {

impl Element for KeyCode {
    type State = ElementState;
}

impl SetElement for KeyCode {
    open spec fn code_of(self) -> u32 {
        match self {
            KeyCode::Other(code) => code,
        }
    }

    open spec fn is_code(code: u32) -> bool {
        true
    }

    open spec fn of_code(code: u32) -> Self {
        KeyCode::Other(code)
    }

    proof fn lemma_codes(element: Self, code: u32) {
    }

    fn code(self) -> (code: u32) {
        match self {
            KeyCode::Other(code) => code,
        }
    }

    fn from_code(code: u32) -> (element: Self) {
        KeyCode::Other(code)
    }
}

/// The keys that are pressed once a keyboard that had `pressed` keys down
/// has reacted to `event`.
///
/// Only a change of a key whose key code is known moves a key into or out
/// of the set; every other event leaves the set as it is.
pub open spec fn keys_after(pressed: Set<KeyCode>, event: Event) -> Set<KeyCode> {
    match event {
        Event::Input {
            event: InputEvent::KeyboardKeyChanged { keycode: Some(keycode), state, .. },
            ..
        } => match state {
            ElementState::Pressed => pressed.insert(keycode),
            ElementState::Released => pressed.remove(keycode),
        },
        _ => pressed,
    }
}

/// The keys that are pressed once a keyboard that had `pressed` keys down
/// has reacted to each of `events` in turn.
pub open spec fn keys_after_all(pressed: Set<KeyCode>, events: Seq<Event>) -> Set<KeyCode>
    decreases events.len(),
{
    if events.len() == 0 {
        pressed
    } else {
        keys_after(keys_after_all(pressed, events.drop_last()), events.last())
    }
}

/// Whether the event is a change of the given key.
pub open spec fn changes_key(event: Event, key: KeyCode) -> bool {
    event matches Event::Input {
        event: InputEvent::KeyboardKeyChanged { keycode: Some(changed), .. },
        ..
    } && changed == key
}

/// A key that no event changes is pressed after the events exactly if it was
/// pressed before them.
pub proof fn lemma_untouched_key_stays(pressed: Set<KeyCode>, events: Seq<Event>, key: KeyCode)
    requires
        forall|i: int| 0 <= i < events.len() ==> !changes_key(#[trigger] events[i], key),
    ensures
        keys_after_all(pressed, events).contains(key) == pressed.contains(key),
    decreases events.len(),
{
    if events.len() > 0 {
        let earlier = events.drop_last();
        assert forall|i: int| 0 <= i < earlier.len() implies !changes_key(
            #[trigger] earlier[i],
            key,
        ) by {
            assert(earlier[i] == events[i]);
        }
        lemma_untouched_key_stays(pressed, earlier, key);
        assert(!changes_key(events[events.len() - 1], key));
    }
}

/// Aggregate state of a keyboard: the keys that are pressed.
pub struct KeyboardState {
    keys: ElementSet<KeyCode>,
}

impl View for KeyboardState {
    type V = Set<KeyCode>;

    closed spec fn view(&self) -> Set<KeyCode> {
        self.keys@
    }
}

impl KeyboardState {
    fn new() -> (state: Self)
        ensures
            state@ == Set::<KeyCode>::empty(),
    {
        KeyboardState { keys: ElementSet::new() }
    }
}

impl KeyboardState {
    /// The set that the state hands out is the set of its pressed keys.
    pub proof fn lemma_raw_state(self)
        ensures
            self.raw_state()@ == self@,
    {
    }
}

impl Clone for KeyboardState {
    fn clone(&self) -> (copy: Self)
        ensures
            copy@ == self@,
    {
        KeyboardState { keys: self.keys.clone() }
    }
}

impl AsRawState<KeyCode> for KeyboardState {
    type Target = ElementSet<KeyCode>;

    closed spec fn raw_state(&self) -> ElementSet<KeyCode> {
        self.keys
    }

    fn as_raw_state(&self) -> (raw: &ElementSet<KeyCode>)
        ensures
            raw@ == self@,
    {
        &self.keys
    }
}

/// Keyboard snapshot.
pub struct KeyboardSnapshot {
    new: KeyboardState,
    old: KeyboardState,
}

impl KeyboardSnapshot {
    /// A snapshot of a keyboard on which no key is pressed and none was.
    pub fn new() -> (snapshot: Self)
        ensures
            snapshot.current()@ == Set::<KeyCode>::empty(),
            snapshot.previous()@ == Set::<KeyCode>::empty(),
    {
        KeyboardSnapshot { new: KeyboardState::new(), old: KeyboardState::new() }
    }
}

impl KeyboardSnapshot {
    /// A snapshot whose old state is its new state has an empty difference:
    /// so it is after `snapshot`, however often it is taken, until the next
    /// event.
    pub proof fn lemma_snapshot_idempotent(self, difference: Vec<(KeyCode, ElementState)>)
        requires
            self.previous()@ == self.current()@,
            SnapshotDifference::<KeyCode>::is_difference(&self, difference),
        ensures
            difference@ == Seq::<(KeyCode, ElementState)>::empty(),
    {
        self.current().lemma_raw_state();
        self.previous().lemma_raw_state();
        lemma_no_changes_between_equal(self.current()@);
        if difference@.len() > 0 {
            assert(difference@.to_set().contains(difference@[0]));
        }
        assert(difference@ =~= Seq::<(KeyCode, ElementState)>::empty());
    }

    /// After a snapshot with the keys `before` pressed and any events since,
    /// the difference names exactly the keys that are pressed now and were
    /// not, or were and are not, each once and with the state that it has
    /// now. A key that none of the events changed is not named.
    pub proof fn lemma_difference_after_events(
        self,
        before: Set<KeyCode>,
        events: Seq<Event>,
        difference: Vec<(KeyCode, ElementState)>,
    )
        requires
            self.previous()@ == before,
            self.current()@ == keys_after_all(before, events),
            SnapshotDifference::<KeyCode>::is_difference(&self, difference),
        ensures
            forall|key: KeyCode, state: ElementState|
                difference@.contains((key, state)) <==> symmetric_difference_of(
                    keys_after_all(before, events),
                    before,
                ).contains(key) && state == state_in(keys_after_all(before, events), key),
            forall|i: int, j: int|
                0 <= i < difference@.len() && 0 <= j < difference@.len() && i != j
                    ==> difference@[i].0 != difference@[j].0,
            forall|key: KeyCode, state: ElementState|
                (forall|i: int| 0 <= i < events.len() ==> !changes_key(#[trigger] events[i], key))
                    ==> !difference@.contains((key, state)),
    {
        self.current().lemma_raw_state();
        self.previous().lemma_raw_state();
        let after = keys_after_all(before, events);
        lemma_difference_is_symmetric_difference(after, before, difference@);
        assert forall|key: KeyCode, state: ElementState|
            (forall|i: int|
                0 <= i < events.len() ==> !changes_key(
                    #[trigger] events[i],
                    key,
                )) implies !difference@.contains((key, state)) by {
            lemma_untouched_key_stays(before, events, key);
        }
    }
}

impl Default for KeyboardSnapshot {
    fn default() -> (snapshot: Self)
        ensures
            snapshot.current()@ == Set::<KeyCode>::empty(),
            snapshot.previous()@ == Set::<KeyCode>::empty(),
    {
        KeyboardSnapshot::new()
    }
}

impl Deref for KeyboardSnapshot {
    type Target = KeyboardState;

    fn deref(&self) -> (state: &KeyboardState)
        ensures
            *state == self.current(),
    {
        &self.new
    }
}

impl SnapshotState for KeyboardSnapshot {
    type State = KeyboardState;

    closed spec fn current(&self) -> KeyboardState {
        self.new
    }

    closed spec fn previous(&self) -> KeyboardState {
        self.old
    }

    fn new_state(&self) -> (state: &KeyboardState) {
        &self.new
    }

    fn old_state(&self) -> (state: &KeyboardState) {
        &self.old
    }
}

impl Snapshot for KeyboardSnapshot {
    fn snapshot(&mut self)
        ensures
            final(self).current()@ == old(self).current()@,
            final(self).previous()@ == old(self).current()@,
    {
        self.old = self.new.clone();
    }
}

impl React for KeyboardSnapshot {
    fn react(&mut self, event: &Event)
        ensures
            final(self).current()@ == keys_after(old(self).current()@, *event),
            final(self).previous()@ == old(self).previous()@,
    {
        if let Event::Input {
            event: InputEvent::KeyboardKeyChanged { keycode, state, .. },
            ..
        } = *event {
            if let Some(keycode) = keycode {
                match state {
                    ElementState::Pressed => {
                        self.new.keys.insert(keycode);
                    },
                    ElementState::Released => {
                        self.new.keys.remove(keycode);
                    },
                }
            }
        }
    }
}

} // verus!
