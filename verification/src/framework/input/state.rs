use vstd::prelude::*;
use vstd::std_specs::iter::IteratorSpec;
use std::collections::HashSet;
use std::marker::PhantomData;
use crate::event::ElementState;
use crate::framework::React;

verus! {

/// The change from `old` to `new`: none where they are equal, the new state
/// where they differ.
pub open spec fn transition_of<S>(new: S, old: S) -> Option<S> {
    if new == old {
        None
    } else {
        Some(new)
    }
}

/// A state does not change into itself, and a change into another state is
/// a change into exactly that state.
pub proof fn lemma_transition_law<S>(a: S, b: S)
    ensures
        transition_of(a, a) == None::<S>,
        a != b ==> transition_of(a, b) == Some(a),
{
}

/// An atomic state of an input element.
pub trait State: Sized {
    /// Representation of a difference between states.
    type Difference;

    /// Gets the transition between new and old states. If no transition has
    /// occurred, returns `None`.
    fn transition(new: Self, old: Self) -> (change: Option<Self>)
        ensures
            change == transition_of(new, old),
    ;
}

impl State for bool {
    type Difference = Self;

    fn transition(new: Self, old: Self) -> (change: Option<Self>) {
        if new == old {
            None
        } else {
            Some(new)
        }
    }
}

impl State for ElementState {
    type Difference = Self;

    fn transition(new: Self, old: Self) -> (change: Option<Self>) {
        if new == old {
            None
        } else {
            Some(new)
        }
    }
}

impl State for (i32, i32) {
    type Difference = (i64, i64);

    fn transition(new: Self, old: Self) -> (change: Option<Self>) {
        if new.0 == old.0 && new.1 == old.1 {
            None
        } else {
            Some(new)
        }
    }
}

/// An input element, such as a button, key, or position.
pub trait Element: Copy + Sized {
    /// Representation of the state of the element.
    type State: State;
}

/// An element that is either pressed or released and that an aggregate
/// state keeps in a set of the pressed ones, such as a key or a button.
///
/// Each element has a number of its own, by which the set hashes and
/// compares it.
pub trait SetElement: Element<State = ElementState> {
    /// The number of the element.
    spec fn code_of(self) -> u32;

    /// Whether the number belongs to an element.
    spec fn is_code(code: u32) -> bool;

    /// The element of a number.
    spec fn of_code(code: u32) -> Self;

    /// Elements and their numbers correspond one to one.
    proof fn lemma_codes(element: Self, code: u32)
        ensures
            Self::is_code(element.code_of()),
            Self::of_code(element.code_of()) == element,
            Self::is_code(code) ==> Self::of_code(code).code_of() == code,
    ;

    fn code(self) -> (code: u32)
        ensures
            code == self.code_of(),
    ;

    fn from_code(code: u32) -> (element: Self)
        requires
            Self::is_code(code),
        ensures
            element == Self::of_code(code),
    ;
}

/// The numbers of a set, each once, in the order in which the set yields
/// them.
fn codes_of(codes: &HashSet<u32>) -> (listed: Vec<u32>)
    ensures
        listed@.no_duplicates(),
        forall|code: u32| listed@.contains(code) <==> codes@.contains(code),
{
    broadcast use vstd::std_specs::hash::group_hash_axioms;

    let mut listed: Vec<u32> = Vec::new();
    for code in it: codes.iter()
        invariant
            listed@.len() == it.index(),
            forall|j: int| 0 <= j < listed@.len() ==> listed@[j] == *it.seq()[j],
    {
        listed.push(*code);
    }
    proof {
        let yielded = vstd::std_specs::hash::spec_hash_keys_iter(codes).remaining();
        assert(listed@ =~= yielded.unref());
        assert(listed@.to_set() == codes@);
        assert forall|code: u32| listed@.contains(code) <==> codes@.contains(code) by {
            assert(listed@.to_set().contains(code) == listed@.contains(code));
        }
    }
    listed
}

/// Appends to `found` the numbers that are in `from` and not in `without`.
fn push_codes_outside(from: &HashSet<u32>, without: &HashSet<u32>, found: &mut Vec<u32>)
    requires
        old(found)@.no_duplicates(),
        forall|j: int| 0 <= j < old(found)@.len() ==> !from@.contains(#[trigger] old(found)@[j]),
    ensures
        final(found)@.no_duplicates(),
        forall|code: u32|
            final(found)@.contains(code) <==> (old(found)@.contains(code) || (from@.contains(code)
                && !without@.contains(code))),
{
    broadcast use vstd::std_specs::hash::group_hash_axioms;

    let listed = codes_of(from);
    let ghost before = found@;
    let mut i: usize = 0;
    while i < listed.len()
        invariant
            0 <= i <= listed@.len(),
            listed@.no_duplicates(),
            forall|code: u32| listed@.contains(code) <==> from@.contains(code),
            before.no_duplicates(),
            forall|j: int| 0 <= j < before.len() ==> !from@.contains(#[trigger] before[j]),
            found@.no_duplicates(),
            before.len() <= found@.len(),
            forall|j: int| 0 <= j < before.len() ==> found@[j] == before[j],
            forall|j: int|
                before.len() <= j < found@.len() ==> !without@.contains(#[trigger] found@[j])
                    && exists|k: int| 0 <= k < i && listed@[k] == found@[j],
            forall|k: int|
                0 <= k < i && !without@.contains(#[trigger] listed@[k]) ==> found@.contains(
                    listed@[k],
                ),
        decreases listed@.len() - i,
    {
        let code = listed[i];
        assert(listed@.contains(code));
        if !without.contains(&code) {
            let ghost earlier = found@;
            found.push(code);
            proof {
                assert forall|a: int, b: int|
                    0 <= a < found@.len() && 0 <= b < found@.len() && a != b implies found@[a]
                    != found@[b] by {
                    if a == earlier.len() || b == earlier.len() {
                        let o = if a == earlier.len() {
                            b
                        } else {
                            a
                        };
                        if o < before.len() {
                            assert(!from@.contains(before[o]));
                        } else {
                            let k = choose|k: int| 0 <= k < i && listed@[k] == earlier[o];
                            assert(listed@[k] != listed@[i as int]);
                        }
                    }
                }
                assert forall|k: int|
                    0 <= k < i + 1 && !without@.contains(
                        #[trigger] listed@[k],
                    ) implies found@.contains(listed@[k]) by {
                    if k < i {
                        let j = choose|j: int| 0 <= j < earlier.len() && earlier[j] == listed@[k];
                        assert(found@[j] == listed@[k]);
                    } else {
                        assert(found@[earlier.len() as int] == listed@[k]);
                    }
                }
                assert forall|j: int| before.len() <= j < found@.len() implies !without@.contains(
                    #[trigger] found@[j],
                ) && exists|k: int| 0 <= k < i + 1 && listed@[k] == found@[j] by {
                    if j < earlier.len() {
                        let k = choose|k: int| 0 <= k < i && listed@[k] == earlier[j];
                        assert(listed@[k] == found@[j]);
                    } else {
                        assert(listed@[i as int] == found@[j]);
                    }
                }
            }
        }
        i = i + 1;
    }
    proof {
        assert forall|code: u32|
            found@.contains(code) <==> (before.contains(code) || (from@.contains(code)
                && !without@.contains(code))) by {
            if found@.contains(code) {
                let j = choose|j: int| 0 <= j < found@.len() && found@[j] == code;
                if j < before.len() {
                    assert(before[j] == code);
                } else {
                    let k = choose|k: int| 0 <= k < i && listed@[k] == found@[j];
                    assert(listed@.contains(code));
                }
            }
            if before.contains(code) {
                let j = choose|j: int| 0 <= j < before.len() && before[j] == code;
                assert(found@[j] == code);
            }
            if from@.contains(code) && !without@.contains(code) {
                assert(listed@.contains(code));
                let k = choose|k: int| 0 <= k < listed@.len() && listed@[k] == code;
                assert(found@.contains(listed@[k]));
            }
        }
    }
}

/// The elements that are in exactly one of two sets.
pub open spec fn symmetric_difference_of<E>(new: Set<E>, old: Set<E>) -> Set<E> {
    Set::new(|element: E| new.contains(element) != old.contains(element))
}

/// The elements of a set of numbers.
pub open spec fn elements_of<E: SetElement>(codes: Set<u32>) -> Set<E> {
    Set::new(|element: E| codes.contains(element.code_of()))
}

/// A set of elements: those that are pressed.
pub struct ElementSet<E: SetElement> {
    codes: HashSet<u32>,
    phantom: PhantomData<E>,
}

impl<E: SetElement> View for ElementSet<E> {
    type V = Set<E>;

    closed spec fn view(&self) -> Set<E> {
        elements_of::<E>(self.codes@)
    }
}

impl<E: SetElement> ElementSet<E> {
    /// Every number in the set is the number of an element.
    #[verifier::type_invariant]
    spec fn well_formed(self) -> bool {
        forall|code: u32| self.codes@.contains(code) ==> E::is_code(code)
    }

    /// The empty set.
    pub fn new() -> (set: Self)
        ensures
            set@ == Set::<E>::empty(),
    {
        let set = ElementSet { codes: HashSet::new(), phantom: PhantomData };
        assert(set@ =~= Set::<E>::empty());
        set
    }

    /// Whether the element is in the set.
    pub fn contains(&self, element: E) -> (found: bool)
        ensures
            found == self@.contains(element),
    {
        broadcast use vstd::std_specs::hash::group_hash_axioms;

        let code = element.code();
        self.codes.contains(&code)
    }

    /// Adds the element. Returns whether it was absent.
    pub fn insert(&mut self, element: E) -> (added: bool)
        ensures
            final(self)@ == old(self)@.insert(element),
            added == !old(self)@.contains(element),
    {
        broadcast use vstd::std_specs::hash::group_hash_axioms;

        proof {
            use_type_invariant(&*self);
            E::lemma_codes(element, 0);
        }
        let code = element.code();
        let mut codes = HashSet::new();
        std::mem::swap(&mut codes, &mut self.codes);
        let added = codes.insert(code);
        self.codes = codes;
        proof {
            assert forall|other: E| final(self)@.contains(other) == old(self)@.insert(
                element,
            ).contains(other) by {
                E::lemma_codes(other, 0);
            }
            assert(final(self)@ =~= old(self)@.insert(element));
        }
        added
    }

    /// Removes the element. Returns whether it was present.
    pub fn remove(&mut self, element: E) -> (removed: bool)
        ensures
            final(self)@ == old(self)@.remove(element),
            removed == old(self)@.contains(element),
    {
        broadcast use vstd::std_specs::hash::group_hash_axioms;

        proof {
            use_type_invariant(&*self);
        }
        let code = element.code();
        let mut codes = HashSet::new();
        std::mem::swap(&mut codes, &mut self.codes);
        let removed = codes.remove(&code);
        self.codes = codes;
        proof {
            assert forall|other: E| final(self)@.contains(other) == old(self)@.remove(
                element,
            ).contains(other) by {
                E::lemma_codes(other, 0);
                E::lemma_codes(element, 0);
            }
            assert(final(self)@ =~= old(self)@.remove(element));
        }
        removed
    }
    /// The elements that are in exactly one of the two sets, each once.
    ///
    /// The time taken grows with the two sets, not with the number of
    /// elements that there are.
    pub fn symmetric_difference(&self, other: &Self) -> (changed: Vec<E>)
        ensures
            changed@.no_duplicates(),
            changed@.to_set() == symmetric_difference_of(self@, other@),
    {
        proof {
            use_type_invariant(self);
            use_type_invariant(other);
        }
        let mut codes: Vec<u32> = Vec::new();
        push_codes_outside(&self.codes, &other.codes, &mut codes);
        push_codes_outside(&other.codes, &self.codes, &mut codes);
        let mut changed: Vec<E> = Vec::new();
        let mut i: usize = 0;
        while i < codes.len()
            invariant
                0 <= i <= codes@.len(),
                changed@.len() == i,
                forall|j: int| 0 <= j < codes@.len() ==> E::is_code(#[trigger] codes@[j]),
                forall|j: int| 0 <= j < i ==> #[trigger] changed@[j] == E::of_code(codes@[j]),
            decreases codes@.len() - i,
        {
            changed.push(E::from_code(codes[i]));
            i = i + 1;
        }
        proof {
            assert forall|a: int, b: int|
                0 <= a < changed@.len() && 0 <= b < changed@.len() && a != b implies changed@[a]
                != changed@[b] by {
                E::lemma_codes(changed@[a], codes@[a]);
                E::lemma_codes(changed@[b], codes@[b]);
            }
            assert forall|element: E|
                changed@.to_set().contains(element) == symmetric_difference_of(
                    self@,
                    other@,
                ).contains(element) by {
                E::lemma_codes(element, 0);
                if changed@.contains(element) {
                    let j = choose|j: int| 0 <= j < changed@.len() && changed@[j] == element;
                    E::lemma_codes(element, codes@[j]);
                    assert(codes@.contains(codes@[j]));
                }
                if self@.contains(element) != other@.contains(element) {
                    assert(codes@.contains(element.code_of()));
                    let j = choose|j: int| 0 <= j < codes@.len() && codes@[j] == element.code_of();
                    assert(changed@[j] == element);
                }
            }
            assert(changed@.to_set() =~= symmetric_difference_of(self@, other@));
        }
        changed
    }
}

impl<E: SetElement> Clone for ElementSet<E> {
    fn clone(&self) -> (copy: Self)
        ensures
            copy@ == self@,
    {
        broadcast use vstd::std_specs::hash::group_hash_axioms;

        proof {
            use_type_invariant(self);
        }
        let listed = codes_of(&self.codes);
        let mut codes: HashSet<u32> = HashSet::new();
        let mut i: usize = 0;
        while i < listed.len()
            invariant
                0 <= i <= listed@.len(),
                forall|code: u32|
                    codes@.contains(code) <==> exists|j: int| 0 <= j < i && listed@[j] == code,
            decreases listed@.len() - i,
        {
            let ghost before = codes@;
            codes.insert(listed[i]);
            proof {
                assert forall|code: u32|
                    codes@.contains(code) <==> exists|j: int|
                        0 <= j < i + 1 && listed@[j] == code by {
                    if before.contains(code) {
                        let j = choose|j: int| 0 <= j < i && listed@[j] == code;
                        assert(0 <= j < i + 1 && listed@[j] == code);
                    }
                    if code == listed@[i as int] {
                        assert(0 <= i < i + 1 && listed@[i as int] == code);
                    }
                }
            }
            i = i + 1;
        }
        proof {
            assert(codes@ =~= self.codes@) by {
                assert forall|code: u32| codes@.contains(code) == self.codes@.contains(code) by {
                    if self.codes@.contains(code) {
                        assert(listed@.contains(code));
                        let j = choose|j: int| 0 <= j < listed@.len() && listed@[j] == code;
                        assert(0 <= j < i && listed@[j] == code);
                    }
                    if codes@.contains(code) {
                        let j = choose|j: int| 0 <= j < i && listed@[j] == code;
                        assert(listed@.contains(code));
                    }
                }
            }
        }
        ElementSet { codes, phantom: PhantomData }
    }
}

/// Gives the set of pressed elements that an aggregate state keeps for one
/// kind of element.
pub trait AsRawState<E: Element> {
    type Target;

    spec fn raw_state(&self) -> Self::Target;

    fn as_raw_state(&self) -> (raw: &Self::Target)
        ensures
            *raw == self.raw_state(),
    ;
}

/// The state that membership in a set of pressed elements stands for.
pub open spec fn state_in<E>(pressed: Set<E>, element: E) -> ElementState {
    if pressed.contains(element) {
        ElementState::Pressed
    } else {
        ElementState::Released
    }
}

/// Provides the complete state for an input element.
pub trait CompositeState<E: Element> {
    spec fn state_of(&self, element: E) -> E::State;

    /// Gets the state of an input element.
    fn state(&self, element: E) -> (state: E::State)
        ensures
            state == self.state_of(element),
    ;
}

// Every aggregate state that keeps a set of pressed elements has the state
// of each such element from that set.
impl<E, T> CompositeState<E> for T where T: AsRawState<E, Target = ElementSet<E>>, E: SetElement {
    open spec fn state_of(&self, element: E) -> ElementState {
        state_in(self.raw_state()@, element)
    }

    fn state(&self, element: E) -> (state: ElementState) {
        if self.as_raw_state().contains(element) {
            ElementState::Pressed
        } else {
            ElementState::Released
        }
    }
}

/// A container of device state with new and old states established by
/// updates and snapshots.
pub trait SnapshotState {
    /// Aggregate state for the input device.
    type State;

    spec fn current(&self) -> Self::State;

    spec fn previous(&self) -> Self::State;

    /// Gets the new (live) state.
    fn new_state(&self) -> (state: &Self::State)
        ensures
            *state == self.current(),
    ;

    /// Gets the old (snapshot) state.
    fn old_state(&self) -> (state: &Self::State)
        ensures
            *state == self.previous(),
    ;
}

/// A container of device state that can snapshot and compare states.
pub trait Snapshot: React + SnapshotState {
    /// Snapshots the new (live) state.
    fn snapshot(&mut self);
}

/// Provides a transition state for an input element.
pub trait SnapshotTransition<E: Element> {
    spec fn transition_between(&self, element: E) -> Option<E::State>;

    /// Gets the transition state of an input element.
    fn transition(&self, element: E) -> (change: Option<E::State>)
        ensures
            change == self.transition_between(element),
    ;
}

impl<E, T> SnapshotTransition<E> for T where
    T: Snapshot,
    T::State: CompositeState<E>,
    E: Element,
 {
    open spec fn transition_between(&self, element: E) -> Option<E::State> {
        transition_of(self.current().state_of(element), self.previous().state_of(element))
    }

    fn transition(&self, element: E) -> (change: Option<E::State>) {
        E::State::transition(self.new_state().state(element), self.old_state().state(element))
    }
}

/// The changes between two sets of pressed elements: each element that is
/// in exactly one of them, with the state that it has in the new one.
pub open spec fn changes_between<E>(new: Set<E>, old: Set<E>) -> Set<(E, ElementState)> {
    Set::new(
        |change: (E, ElementState)|
            new.contains(change.0) != old.contains(change.0) && change.1 == state_in(new, change.0),
    )
}

/// Between a set and itself nothing has changed.
pub proof fn lemma_no_changes_between_equal<E>(pressed: Set<E>)
    ensures
        changes_between(pressed, pressed) == Set::<(E, ElementState)>::empty(),
{
    assert(changes_between(pressed, pressed) =~= Set::<(E, ElementState)>::empty());
}

/// A list of the changes between two sets names each element that is in
/// exactly one of the sets, once and with the state that it has in the new
/// set, and no other element.
pub proof fn lemma_difference_is_symmetric_difference<E>(
    new: Set<E>,
    old: Set<E>,
    difference: Seq<(E, ElementState)>,
)
    requires
        difference.no_duplicates(),
        difference.to_set() == changes_between(new, old),
    ensures
        forall|element: E, state: ElementState|
            difference.contains((element, state)) <==> symmetric_difference_of(new, old).contains(
                element,
            ) && state == state_in(new, element),
        forall|i: int, j: int|
            0 <= i < difference.len() && 0 <= j < difference.len() && i != j ==> difference[i].0
                != difference[j].0,
        difference.map_values(|change: (E, ElementState)| change.0).to_set()
            == symmetric_difference_of(new, old),
{
    assert forall|element: E, state: ElementState|
        difference.contains((element, state)) <==> symmetric_difference_of(new, old).contains(
            element,
        ) && state == state_in(new, element) by {
        assert(difference.to_set().contains((element, state)) == difference.contains(
            (element, state),
        ));
    }
    assert forall|i: int, j: int|
        0 <= i < difference.len() && 0 <= j < difference.len() && i != j implies difference[i].0
        != difference[j].0 by {
        assert(difference.to_set().contains(difference[i]));
        assert(difference.to_set().contains(difference[j]));
    }
    let elements = difference.map_values(|change: (E, ElementState)| change.0);
    assert forall|element: E|
        elements.to_set().contains(element) == symmetric_difference_of(new, old).contains(
            element,
        ) by {
        if elements.contains(element) {
            let i = choose|i: int| 0 <= i < elements.len() && elements[i] == element;
            assert(difference.to_set().contains(difference[i]));
        }
        if symmetric_difference_of(new, old).contains(element) {
            let change = (element, state_in(new, element));
            assert(difference.to_set().contains(change));
            let i = choose|i: int| 0 <= i < difference.len() && difference[i] == change;
            assert(elements[i] == element);
        }
    }
    assert(elements.to_set() =~= symmetric_difference_of(new, old));
}

/// Determines the difference in state for an input element.
pub trait SnapshotDifference<E: Element> {
    /// Representation of differences in state.
    type Difference;

    /// Whether `difference` is the difference between the old state and
    /// the new.
    spec fn is_difference(&self, difference: Self::Difference) -> bool;

    /// Gets the difference in state for an input element.
    fn difference(&self) -> (difference: Self::Difference)
        ensures
            self.is_difference(difference),
    ;
}

// Every snapshot of states that keep a set of pressed elements has the
// difference of such elements from the two sets.
impl<E, T> SnapshotDifference<E> for T where
    T: Snapshot,
    T::State: AsRawState<E, Target = ElementSet<E>>,
    E: SetElement,
 {
    type Difference = Vec<(E, ElementState)>;

    /// The difference lists each change between the two sets once, in no
    /// order that is known beforehand.
    open spec fn is_difference(&self, difference: Vec<(E, ElementState)>) -> bool {
        &&& difference@.no_duplicates()
        &&& difference@.to_set() == changes_between(
            self.current().raw_state()@,
            self.previous().raw_state()@,
        )
    }

    fn difference(&self) -> (changes: Vec<(E, ElementState)>) {
        let new = self.new_state().as_raw_state();
        let old = self.old_state().as_raw_state();
        let changed = new.symmetric_difference(old);
        let mut changes: Vec<(E, ElementState)> = Vec::new();
        let mut i: usize = 0;
        while i < changed.len()
            invariant
                0 <= i <= changed@.len(),
                changes@.len() == i,
                forall|j: int|
                    0 <= j < i ==> #[trigger] changes@[j] == (
                        changed@[j],
                        state_in(new@, changed@[j]),
                    ),
            decreases changed@.len() - i,
        {
            let element = changed[i];
            let state = if new.contains(element) {
                ElementState::Pressed
            } else {
                ElementState::Released
            };
            changes.push((element, state));
            i = i + 1;
        }
        proof {
            assert forall|a: int, b: int|
                0 <= a < changes@.len() && 0 <= b < changes@.len() && a != b implies changes@[a]
                != changes@[b] by {
                assert(changed@[a] != changed@[b]);
            }
            assert forall|change: (E, ElementState)|
                changes@.to_set().contains(change) == changes_between(new@, old@).contains(
                    change,
                ) by {
                if changes@.contains(change) {
                    let j = choose|j: int| 0 <= j < changes@.len() && changes@[j] == change;
                    assert(changed@.to_set().contains(changed@[j]));
                }
                if changes_between(new@, old@).contains(change) {
                    assert(changed@.to_set().contains(change.0));
                    let j = choose|j: int| 0 <= j < changed@.len() && changed@[j] == change.0;
                    assert(changes@[j] == change);
                }
            }
            assert(changes@.to_set() =~= changes_between(new@, old@));
        }
        changes
    }
}

} // verus!
