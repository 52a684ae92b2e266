use vstd::prelude::*;
use std::ops::Deref;
use crate::event::{ElementState, Event, InputEvent, MouseButton, MouseMovement};
use crate::framework::input::state::{
    lemma_difference_is_symmetric_difference, lemma_no_changes_between_equal, state_in,
    symmetric_difference_of, transition_of, AsRawState, CompositeState, Element, ElementSet,
    SetElement, Snapshot, SnapshotDifference, SnapshotState, SnapshotTransition,
};
use crate::framework::React;

verus! {

impl Element for MouseButton {
    type State = ElementState;
}

impl SetElement for MouseButton {
    open spec fn code_of(self) -> u32 {
        match self {
            MouseButton::Left => 0,
            MouseButton::Right => 1,
            MouseButton::Center => 2,
            MouseButton::Other(n) => (n + 3) as u32,
        }
    }

    open spec fn is_code(code: u32) -> bool {
        code <= 258
    }

    open spec fn of_code(code: u32) -> Self {
        if code == 0 {
            MouseButton::Left
        } else if code == 1 {
            MouseButton::Right
        } else if code == 2 {
            MouseButton::Center
        } else {
            MouseButton::Other((code - 3) as u8)
        }
    }

    proof fn lemma_codes(element: Self, code: u32) {
    }

    fn code(self) -> (code: u32) {
        match self {
            MouseButton::Left => 0,
            MouseButton::Right => 1,
            MouseButton::Center => 2,
            MouseButton::Other(n) => n as u32 + 3,
        }
    }

    fn from_code(code: u32) -> (element: Self) {
        if code == 0 {
            MouseButton::Left
        } else if code == 1 {
            MouseButton::Right
        } else if code == 2 {
            MouseButton::Center
        } else {
            MouseButton::Other((code - 3) as u8)
        }
    }
}

/// Mouse position (pointer) element.
#[derive(Clone, Copy, Debug)]
pub struct MousePosition;

impl Element for MousePosition {
    type State = (i32, i32);
}

/// Mouse proximity element. Indicates whether or not the mouse position
/// (pointer) is within the bounds of the window.
#[derive(Clone, Copy, Debug)]
pub struct MouseProximity;

impl Element for MouseProximity {
    type State = bool;
}

/// What a `MouseState` holds.
pub struct MouseStateView {
    /// The buttons that are pressed.
    pub buttons: Set<MouseButton>,
    /// The last absolute position of the pointer.
    pub position: (i32, i32),
    /// Whether the pointer is within the bounds of the window.
    pub proximity: bool,
}

/// The state of a mouse once a mouse in state `state` has reacted to
/// `event`.
///
/// A change of a button moves the button into or out of the pressed ones, a
/// motion that reports an absolute position overwrites the position, and
/// every other event leaves the state as it is.
pub open spec fn mouse_after(state: MouseStateView, event: Event) -> MouseStateView {
    match event {
        Event::Input { event: InputEvent::MouseButtonChanged { button, state: change, .. }, .. } => {
            match change {
                ElementState::Pressed => MouseStateView {
                    buttons: state.buttons.insert(button),
                    ..state
                },
                ElementState::Released => MouseStateView {
                    buttons: state.buttons.remove(button),
                    ..state
                },
            }
        },
        Event::Input {
            event: InputEvent::MouseMoved {
                movement: MouseMovement { absolute: Some(position), .. },
                ..
            },
            ..
        } => MouseStateView { position, ..state },
        _ => state,
    }
}

/// The state of a mouse once a mouse in state `state` has reacted to each
/// of `events` in turn.
pub open spec fn mouse_after_all(state: MouseStateView, events: Seq<Event>) -> MouseStateView
    decreases events.len(),
{
    if events.len() == 0 {
        state
    } else {
        mouse_after(mouse_after_all(state, events.drop_last()), events.last())
    }
}

/// Whether the event is a change of the given button.
pub open spec fn changes_button(event: Event, button: MouseButton) -> bool {
    event matches Event::Input { event: InputEvent::MouseButtonChanged { button: changed, .. }, .. }
        && changed == button
}

/// A button that no event changes is pressed after the events exactly if it
/// was pressed before them.
pub proof fn lemma_untouched_button_stays(
    state: MouseStateView,
    events: Seq<Event>,
    button: MouseButton,
)
    requires
        forall|i: int| 0 <= i < events.len() ==> !changes_button(#[trigger] events[i], button),
    ensures
        mouse_after_all(state, events).buttons.contains(button) == state.buttons.contains(button),
    decreases events.len(),
{
    if events.len() > 0 {
        let earlier = events.drop_last();
        assert forall|i: int| 0 <= i < earlier.len() implies !changes_button(
            #[trigger] earlier[i],
            button,
        ) by {
            assert(earlier[i] == events[i]);
        }
        lemma_untouched_button_stays(state, earlier, button);
        assert(!changes_button(events[events.len() - 1], button));
    }
}

/// The way from `old` to `new`: none where they are the same point.
pub open spec fn displacement_of(new: (i32, i32), old: (i32, i32)) -> Option<(i64, i64)> {
    if new == old {
        None
    } else {
        Some(((new.0 - old.0) as i64, (new.1 - old.1) as i64))
    }
}

/// Aggregate state of a mouse.
pub struct MouseState {
    buttons: ElementSet<MouseButton>,
    position: (i32, i32),
    proximity: bool,
}

impl View for MouseState {
    type V = MouseStateView;

    closed spec fn view(&self) -> MouseStateView {
        MouseStateView {
            buttons: self.buttons@,
            position: self.position,
            proximity: self.proximity,
        }
    }
}

impl MouseState {
    fn new() -> (state: Self)
        ensures
            state@ == (MouseStateView {
                buttons: Set::<MouseButton>::empty(),
                position: (0i32, 0i32),
                proximity: false,
            }),
    {
        MouseState { buttons: ElementSet::new(), position: (0, 0), proximity: false }
    }
}

impl MouseState {
    /// The set that the state hands out is the set of its pressed buttons.
    pub proof fn lemma_raw_state(self)
        ensures
            self.raw_state()@ == self@.buttons,
    {
    }
}

impl Clone for MouseState {
    fn clone(&self) -> (copy: Self)
        ensures
            copy@ == self@,
    {
        MouseState {
            buttons: self.buttons.clone(),
            position: self.position,
            proximity: self.proximity,
        }
    }
}

impl AsRawState<MouseButton> for MouseState {
    type Target = ElementSet<MouseButton>;

    closed spec fn raw_state(&self) -> ElementSet<MouseButton> {
        self.buttons
    }

    fn as_raw_state(&self) -> (raw: &ElementSet<MouseButton>)
        ensures
            raw@ == self@.buttons,
    {
        &self.buttons
    }
}

impl CompositeState<MousePosition> for MouseState {
    open spec fn state_of(&self, element: MousePosition) -> (i32, i32) {
        self@.position
    }

    fn state(&self, element: MousePosition) -> (state: (i32, i32)) {
        self.position
    }
}

impl CompositeState<MouseProximity> for MouseState {
    open spec fn state_of(&self, element: MouseProximity) -> bool {
        self@.proximity
    }

    fn state(&self, element: MouseProximity) -> (state: bool) {
        self.proximity
    }
}

/// Mouse (pointer) snapshot.
pub struct MouseSnapshot {
    new: MouseState,
    old: MouseState,
}

impl MouseSnapshot {
    /// A snapshot of a mouse at rest at the origin, outside the window, with
    /// no button pressed, now and before.
    pub fn new() -> (snapshot: Self)
        ensures
            snapshot.current()@ == (MouseStateView {
                buttons: Set::<MouseButton>::empty(),
                position: (0i32, 0i32),
                proximity: false,
            }),
            snapshot.previous()@ == snapshot.current()@,
    {
        MouseSnapshot { new: MouseState::new(), old: MouseState::new() }
    }
}

impl MouseSnapshot {
    /// A snapshot whose old state is its new state has no difference in any
    /// element: so it is after `snapshot`, however often it is taken, until
    /// the next event.
    pub proof fn lemma_snapshot_idempotent(
        self,
        buttons: Vec<(MouseButton, ElementState)>,
        position: Option<(MousePosition, (i64, i64))>,
        proximity: Option<(MouseProximity, bool)>,
    )
        requires
            self.previous()@ == self.current()@,
            SnapshotDifference::<MouseButton>::is_difference(&self, buttons),
            SnapshotDifference::<MousePosition>::is_difference(&self, position),
            SnapshotDifference::<MouseProximity>::is_difference(&self, proximity),
        ensures
            buttons@ == Seq::<(MouseButton, ElementState)>::empty(),
            position is None,
            proximity is None,
    {
        self.current().lemma_raw_state();
        self.previous().lemma_raw_state();
        lemma_no_changes_between_equal(self.current()@.buttons);
        if buttons@.len() > 0 {
            assert(buttons@.to_set().contains(buttons@[0]));
        }
        assert(buttons@ =~= Seq::<(MouseButton, ElementState)>::empty());
    }

    /// After a snapshot in state `before` and any events since, the
    /// difference in buttons names exactly the buttons that are pressed now
    /// and were not, or were and are not, each once and with the state that
    /// it has now. A button that none of the events changed is not named.
    pub proof fn lemma_difference_after_events(
        self,
        before: MouseStateView,
        events: Seq<Event>,
        difference: Vec<(MouseButton, ElementState)>,
    )
        requires
            self.previous()@ == before,
            self.current()@ == mouse_after_all(before, events),
            SnapshotDifference::<MouseButton>::is_difference(&self, difference),
        ensures
            forall|button: MouseButton, state: ElementState|
                difference@.contains((button, state)) <==> symmetric_difference_of(
                    mouse_after_all(before, events).buttons,
                    before.buttons,
                ).contains(button) && state == state_in(
                    mouse_after_all(before, events).buttons,
                    button,
                ),
            forall|i: int, j: int|
                0 <= i < difference@.len() && 0 <= j < difference@.len() && i != j
                    ==> difference@[i].0 != difference@[j].0,
            forall|button: MouseButton, state: ElementState|
                (forall|i: int|
                    0 <= i < events.len() ==> !changes_button(#[trigger] events[i], button))
                    ==> !difference@.contains((button, state)),
    {
        self.current().lemma_raw_state();
        self.previous().lemma_raw_state();
        let after = mouse_after_all(before, events).buttons;
        lemma_difference_is_symmetric_difference(after, before.buttons, difference@);
        assert forall|button: MouseButton, state: ElementState|
            (forall|i: int|
                0 <= i < events.len() ==> !changes_button(
                    #[trigger] events[i],
                    button,
                )) implies !difference@.contains((button, state)) by {
            lemma_untouched_button_stays(before, events, button);
        }
    }
}

impl Default for MouseSnapshot {
    fn default() -> (snapshot: Self)
        ensures
            snapshot.current()@ == (MouseStateView {
                buttons: Set::<MouseButton>::empty(),
                position: (0i32, 0i32),
                proximity: false,
            }),
            snapshot.previous()@ == snapshot.current()@,
    {
        MouseSnapshot::new()
    }
}

impl Deref for MouseSnapshot {
    type Target = MouseState;

    fn deref(&self) -> (state: &MouseState)
        ensures
            *state == self.current(),
    {
        &self.new
    }
}

impl SnapshotState for MouseSnapshot {
    type State = MouseState;

    closed spec fn current(&self) -> MouseState {
        self.new
    }

    closed spec fn previous(&self) -> MouseState {
        self.old
    }

    fn new_state(&self) -> (state: &MouseState) {
        &self.new
    }

    fn old_state(&self) -> (state: &MouseState) {
        &self.old
    }
}

impl Snapshot for MouseSnapshot {
    fn snapshot(&mut self)
        ensures
            final(self).current()@ == old(self).current()@,
            final(self).previous()@ == old(self).current()@,
    {
        self.old = self.new.clone();
    }
}

impl SnapshotDifference<MousePosition> for MouseSnapshot {
    type Difference = Option<(MousePosition, (i64, i64))>;

    // This is distinct from `SnapshotTransition::transition`, which yields
    // the new state itself where it has changed. For the position that is a
    // point; the difference is the vector from the old point to the new.
    open spec fn is_difference(&self, difference: Option<(MousePosition, (i64, i64))>) -> bool {
        difference == match displacement_of(self.current()@.position, self.previous()@.position) {
            Some(vector) => Some((MousePosition, vector)),
            None => None,
        }
    }

    fn difference(&self) -> (moved: Option<(MousePosition, (i64, i64))>) {
        let new = self.new.position;
        let old = self.old.position;
        if new.0 == old.0 && new.1 == old.1 {
            None
        } else {
            Some((MousePosition, (new.0 as i64 - old.0 as i64, new.1 as i64 - old.1 as i64)))
        }
    }
}

impl SnapshotDifference<MouseProximity> for MouseSnapshot {
    type Difference = Option<(MouseProximity, bool)>;

    open spec fn is_difference(&self, difference: Option<(MouseProximity, bool)>) -> bool {
        difference == match transition_of(self.current()@.proximity, self.previous()@.proximity) {
            Some(proximity) => Some((MouseProximity, proximity)),
            None => None,
        }
    }

    fn difference(&self) -> (changed: Option<(MouseProximity, bool)>) {
        match <Self as SnapshotTransition<MouseProximity>>::transition(self, MouseProximity) {
            Some(state) => Some((MouseProximity, state)),
            None => None,
        }
    }
}

impl React for MouseSnapshot {
    fn react(&mut self, event: &Event)
        ensures
            final(self).current()@ == mouse_after(old(self).current()@, *event),
            final(self).previous()@ == old(self).previous()@,
    {
        match *event {
            Event::Input { event: InputEvent::MouseButtonChanged { button, state, .. }, .. } => {
                match state {
                    ElementState::Pressed => {
                        self.new.buttons.insert(button);
                    },
                    ElementState::Released => {
                        self.new.buttons.remove(button);
                    },
                }
            },
            Event::Input {
                event: InputEvent::MouseMoved {
                    movement: MouseMovement { absolute: Some((x, y)), .. },
                    ..
                },
                ..
            } => {
                self.new.position = (x, y);
            },
            _ => {},
        }
    }
}

} // verus!
