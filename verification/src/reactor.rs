//! Reactors and the values by which they steer an event thread.
//!
//! A reactor receives every event that its event thread dispatches and
//! answers each with a `Reaction`: continue, or abort. Once per turn of the
//! event loop it is also asked for a poll mode, which says how the thread
//! waits for the next event of the platform.

use vstd::prelude::*;
use std::marker::PhantomData;
use std::rc::Rc;
use std::time::Instant;
use crate::event::Event;
use crate::window::WindowHandle;

verus! {

/// A point in time of the monotonic clock, `std::time::Instant`. Nothing is
/// known of what it holds.
#[verifier::external_type_specification]
#[verifier::external_body]
pub struct ExInstant(Instant);

/// Thread-static context.
///
/// Code that holds a `ThreadContext` runs on the event thread: the context
/// can neither be sent to nor shared with another thread.
pub struct ThreadContext {
    phantom: PhantomData<Rc<()>>,
}

impl ThreadContext {
    /// The context of an event thread that starts on the calling thread.
    pub(crate) fn new_in_thread() -> ThreadContext {
        ThreadContext { phantom: PhantomData }
    }
}

/// Poll mode: how an event thread waits for the next event of the platform.
#[derive(Clone, Copy, PartialEq, Eq)]
pub enum Poll {
    /// Resumes at once. If the platform has no event, the reactor receives
    /// `ApplicationEvent::QueueExhausted`.
    Ready,
    /// Blocks until an event occurs.
    Wait,
    /// Blocks until an event occurs or the given instant is reached. If the
    /// instant is reached first, the reactor receives
    /// `ApplicationEvent::TimeoutExpired`.
    WaitUntil(Instant),
}

impl Default for Poll {
    fn default() -> (poll: Self)
        ensures
            poll == Poll::Ready,
    {
        Poll::Ready
    }
}

/// Reaction to an event or to a query for the poll mode.
#[derive(Clone, Copy, PartialEq, Eq)]
pub enum Reaction<T = ()> {
    /// Continues the event loop, with a payload: `()` in answer to an event,
    /// the poll mode in answer to a query for it.
    Continue(T),
    /// Stops the event loop. An event thread that has received `Abort` does
    /// not leave that state.
    Abort,
}

impl<T> Reaction<T> {
    /// Applies `f` to the payload of `Continue`; `Abort` stays `Abort`.
    pub fn map<U, F>(self, f: F) -> (mapped: Reaction<U>) where F: FnOnce(T) -> U
        requires
            self matches Reaction::Continue(value) ==> f.requires((value,)),
        ensures
            match self {
                Reaction::Continue(value) => mapped matches Reaction::Continue(output)
                    && f.ensures((value,), output),
                Reaction::Abort => mapped is Abort,
            },
    {
        match self {
            Reaction::Continue(value) => Reaction::Continue(f(value)),
            _ => Reaction::Abort,
        }
    }

    /// The reaction that stands for an optional one: none means abort.
    pub open spec fn of_option(option: Option<Reaction<T>>) -> Reaction<T> {
        match option {
            Some(reaction) => reaction,
            None => Reaction::Abort,
        }
    }

    /// The reaction that stands for the outcome of a fallible step: a
    /// failure means abort.
    pub open spec fn of_result<E>(result: Result<Reaction<T>, E>) -> Reaction<T> {
        match result {
            Ok(reaction) => reaction,
            Err(_) => Reaction::Abort,
        }
    }
}

impl<T: Default> Default for Reaction<T> {
    fn default() -> (reaction: Self)
        ensures
            reaction matches Reaction::Continue(payload) && call_ensures(T::default, (), payload),
    {
        Reaction::Continue(Default::default())
    }
}

impl From<Poll> for Reaction<Poll> {
    fn from(poll: Poll) -> (reaction: Self) {
        Reaction::Continue(poll)
    }
}

impl vstd::std_specs::convert::FromSpecImpl<Poll> for Reaction<Poll> {
    open spec fn obeys_from_spec() -> bool {
        true
    }

    open spec fn from_spec(poll: Poll) -> Self {
        Reaction::Continue(poll)
    }
}

impl<T> From<Option<Reaction<T>>> for Reaction<T> {
    fn from(option: Option<Reaction<T>>) -> (reaction: Self) {
        match option {
            Some(reaction) => reaction,
            None => Reaction::Abort,
        }
    }
}

impl<T> vstd::std_specs::convert::FromSpecImpl<Option<Reaction<T>>> for Reaction<T> {
    open spec fn obeys_from_spec() -> bool {
        true
    }

    open spec fn from_spec(option: Option<Reaction<T>>) -> Self {
        Reaction::of_option(option)
    }
}

impl<T, E> From<Result<Reaction<T>, E>> for Reaction<T> {
    fn from(result: Result<Reaction<T>, E>) -> (reaction: Self) {
        match result {
            Ok(reaction) => reaction,
            Err(_) => Reaction::Abort,
        }
    }
}

impl<T, E> vstd::std_specs::convert::FromSpecImpl<Result<Reaction<T>, E>> for Reaction<T> {
    open spec fn obeys_from_spec() -> bool {
        true
    }

    open spec fn from_spec(result: Result<Reaction<T>, E>) -> Self {
        Reaction::of_result(result)
    }
}

/// Event thread reactor.
///
/// Reacts to events and chooses the poll mode of its event thread. A
/// reactor has no channel for errors: whatever can fail inside it ends in
/// `Abort`.
pub trait Reactor: Sized {
    /// Reacts to an event: the loop continues or aborts.
    fn react(&mut self, context: &ThreadContext, event: Event) -> Reaction;

    /// Gives the poll mode with which the event loop next resumes, or
    /// aborts. Unless a reactor says otherwise, the thread waits.
    fn poll(&mut self, context: &ThreadContext) -> (polled: Reaction<Poll>)
        default_ensures
            polled == Reaction::Continue(Poll::Wait),
    {
        Reaction::Continue(Poll::Wait)
    }

    /// Releases what the reactor holds, when the event loop has stopped.
    fn abort(self) {
    }
}

/// Conversion from a thread context into a sink and reactor.
pub trait FromContext: Sized {
    /// Creates an event sink (window handle) and an instance of `Self`.
    fn from_context(context: &ThreadContext) -> (WindowHandle, Self);
}

/// Conversion into a sink and reactor.
pub trait IntoReactor<R: Reactor> {
    fn into_reactor(self) -> (WindowHandle, R);
}

impl<'a, R> IntoReactor<R> for &'a ThreadContext where R: FromContext + Reactor {
    fn into_reactor(self) -> (made: (WindowHandle, R))
        ensures
            call_ensures(R::from_context, (self,), made),
    {
        R::from_context(self)
    }
}

/// A function that reacts to events with the help of state of type `T`, and
/// that can be called with every state, context and event.
struct Handler<T, F> where F: Fn(&mut T, &ThreadContext, Event) -> Reaction {
    f: F,
    phantom: PhantomData<T>,
}

impl<T, F> Handler<T, F> where F: Fn(&mut T, &ThreadContext, Event) -> Reaction {
    #[verifier::type_invariant]
    spec fn callable(self) -> bool {
        forall|state: &mut T, context: &ThreadContext, event: Event|
            self.f.requires((state, context, event))
    }

    /// The function that the handler calls.
    spec fn function(self) -> F {
        self.f
    }

    /// A handler that calls `f`.
    fn new(f: F) -> (handler: Self)
        requires
            forall|state: &mut T, context: &ThreadContext, event: Event|
                f.requires((state, context, event)),
        ensures
            handler.function() == f,
    {
        Handler { f, phantom: PhantomData }
    }

    /// Calls the function with the state, the context and the event, and
    /// answers what the function answers. `handed` is the reference by which
    /// the function has the state: it holds `state` as it was before the call
    /// and leaves it as it is afterwards.
    fn call(&self, state: &mut T, context: &ThreadContext, event: Event) -> (reaction: Reaction)
        ensures
            exists|handed: &mut T|
                mut_ref_current(handed) == *old(state) && mut_ref_future(handed) == *final(state)
                    && #[trigger] self.function().ensures((handed, context, event), reaction),
    {
        proof {
            use_type_invariant(self);
        }
        let reaction = (self.f)(state, context, event);
        assert(self.function() == self.f);
        reaction
    }
}

/// A reactor that pairs a function with state.
///
/// The function reacts to events and is handed the state with each. The
/// reactor waits for events and does nothing when it is aborted.
pub struct StatefulReactor<T, F> where F: Fn(&mut T, &ThreadContext, Event) -> Reaction {
    state: T,
    handler: Handler<T, F>,
}

impl<T, F> Reactor for StatefulReactor<T, F> where
    F: Fn(&mut T, &ThreadContext, Event) -> Reaction,
 {
    /// Hands the state, the context and the event to the function and
    /// answers what the function answers. The function is handed the state
    /// by a mutable reference, `handed`: it finds the state of the reactor
    /// there, and what it leaves there is the state of the reactor
    /// afterwards. The function itself stays the same.
    fn react(&mut self, context: &ThreadContext, event: Event) -> (reaction: Reaction)
        ensures
            final(self).function() == old(self).function(),
            exists|handed: &mut T|
                mut_ref_current(handed) == old(self).state_view() && mut_ref_future(handed)
                    == final(self).state_view() && #[trigger] old(self).function().ensures(
                    (handed, context, event),
                    reaction,
                ),
    {
        self.handler.call(&mut self.state, context, event)
    }
}

impl<T, F> StatefulReactor<T, F> where F: Fn(&mut T, &ThreadContext, Event) -> Reaction {
    /// Pairs the state with a function that reacts to events.
    ///
    /// The function must accept every state, context and event: a reactor
    /// cannot refuse an event.
    pub fn new(state: T, f: F) -> (reactor: Self)
        requires
            forall|state: &mut T, context: &ThreadContext, event: Event|
                f.requires((state, context, event)),
        ensures
            reactor.state_view() == state,
            reactor.function() == f,
    {
        StatefulReactor { state, handler: Handler::new(f) }
    }

    /// The state that the function is handed.
    pub closed spec fn state_view(self) -> T {
        self.state
    }

    /// The function that reacts to events.
    pub closed spec fn function(self) -> F {
        self.handler.function()
    }
}

} // verus!
