//! The decisions of an event thread.
//!
//! An event thread runs the event loop of the platform and hands every event
//! to its reactor. What the platform does (taking a message, blocking,
//! ending the process) is not done here: the platform reports each `Turn`
//! of the loop to `EventThread::resume` and carries out the `Directive`
//! that comes back.
//!
//! Events that arise while the platform dispatches one of its own messages
//! are queued, and the queue is emptied, oldest event first, before the
//! platform is asked for its next message.

use vstd::prelude::*;
use std::collections::VecDeque;
use std::time::Instant;
use crate::event::{ApplicationEvent, Event};
use crate::reactor::{FromContext, IntoReactor, Poll, Reaction, Reactor, ThreadContext};
use crate::window::WindowHandle;

verus! {

/// The state of an event thread after its reactor has answered an event:
/// an `Abort` is taken over, and nothing else changes the state.
pub open spec fn after_reaction(state: Reaction<Poll>, reaction: Reaction) -> Reaction<Poll> {
    match reaction {
        Reaction::Abort => Reaction::Abort,
        Reaction::Continue(_) => state,
    }
}

/// The state of an event thread after its reactor has answered one event
/// after the other.
pub open spec fn after_reactions(state: Reaction<Poll>, reactions: Seq<Reaction>) -> Reaction<Poll>
    decreases reactions.len(),
{
    if reactions.len() == 0 {
        state
    } else {
        after_reaction(after_reactions(state, reactions.drop_last()), reactions.last())
    }
}

/// The state of an event thread after its reactor has been asked for the
/// poll mode: the answer is taken over unless the thread is aborting.
pub open spec fn after_poll(state: Reaction<Poll>, polled: Reaction<Poll>) -> Reaction<Poll> {
    match state {
        Reaction::Continue(_) => polled,
        Reaction::Abort => Reaction::Abort,
    }
}

/// The state of an event thread after a turn in which its reactor has
/// answered one event after the other and then the query for the poll mode.
pub open spec fn after_turn(
    state: Reaction<Poll>,
    reactions: Seq<Reaction>,
    polled: Reaction<Poll>,
) -> Reaction<Poll> {
    after_poll(after_reactions(state, reactions), polled)
}

/// An event thread that is aborting stays so, whatever its reactor answers
/// afterwards.
pub proof fn lemma_abort_is_sticky(
    state: Reaction<Poll>,
    reactions: Seq<Reaction>,
    polled: Reaction<Poll>,
)
    requires
        state is Abort,
    ensures
        after_reactions(state, reactions) is Abort,
        after_poll(state, polled) is Abort,
    decreases reactions.len(),
{
    if reactions.len() > 0 {
        lemma_abort_is_sticky(state, reactions.drop_last(), polled);
    }
}

/// If the reactor answers one event of a batch with `Abort`, the event
/// thread is aborting after the batch, whatever the answers to the events
/// before and after it were.
pub proof fn lemma_abort_in_batch(state: Reaction<Poll>, reactions: Seq<Reaction>, at: int)
    requires
        0 <= at < reactions.len(),
        reactions[at] is Abort,
    ensures
        after_reactions(state, reactions) is Abort,
    decreases reactions.len(),
{
    if at < reactions.len() - 1 {
        lemma_abort_in_batch(state, reactions.drop_last(), at);
    }
}

/// If the reactor answers every event of a batch with `Continue`, the batch
/// leaves the state of the event thread as it was.
pub proof fn lemma_continue_keeps_state(state: Reaction<Poll>, reactions: Seq<Reaction>)
    requires
        forall|i: int| 0 <= i < reactions.len() ==> #[trigger] reactions[i] is Continue,
    ensures
        after_reactions(state, reactions) == state,
    decreases reactions.len(),
{
    if reactions.len() > 0 {
        let earlier = reactions.drop_last();
        assert forall|i: int| 0 <= i < earlier.len() implies #[trigger] earlier[i] is Continue by {
            assert(earlier[i] == reactions[i]);
        }
        lemma_continue_keeps_state(state, earlier);
        assert(reactions[reactions.len() - 1] is Continue);
    }
}

/// Takes the reactor's answer to an event into the state of the thread.
pub fn settle_reaction(state: Reaction<Poll>, reaction: Reaction) -> (settled: Reaction<Poll>)
    ensures
        settled == after_reaction(state, reaction),
{
    match reaction {
        Reaction::Abort => Reaction::Abort,
        Reaction::Continue(_) => state,
    }
}

/// Takes the reactor's answer to a query for the poll mode into the state
/// of the thread.
pub fn settle_poll(state: Reaction<Poll>, polled: Reaction<Poll>) -> (settled: Reaction<Poll>)
    ensures
        settled == after_poll(state, polled),
{
    match state {
        Reaction::Continue(_) => polled,
        Reaction::Abort => Reaction::Abort,
    }
}

/// What the platform has done since the event thread last gave a
/// directive.
#[derive(Clone, Copy, Debug, PartialEq, Eq, Structural)]
pub enum Turn {
    /// Nothing yet: the event loop starts.
    Started,
    /// It took one of its messages and dispatched it. Events that arose
    /// meanwhile have been handed to `react` or `enqueue`.
    Dispatched,
    /// It looked for a message without blocking and found none.
    Exhausted,
    /// It blocked until the instant it was given and no message arrived.
    TimedOut,
    /// It received its signal to quit, with an exit code.
    Quit(u32),
}

/// What the platform is to do next.
#[derive(Clone, Copy, PartialEq, Eq)]
pub enum Directive {
    /// Take a message if there is one, without blocking, and dispatch it.
    Peek,
    /// Block until a message arrives, and dispatch it.
    Wait,
    /// Block until a message arrives or the instant is reached, and
    /// dispatch the message if one arrived.
    WaitUntil(Instant),
    /// Leave the event loop: abort the reactor, then end the process with
    /// the exit code or return to the caller.
    Stop(u32),
}

/// The directive that the state of an event thread calls for.
pub open spec fn directive_for(state: Reaction<Poll>) -> Directive {
    match state {
        Reaction::Continue(Poll::Ready) => Directive::Peek,
        Reaction::Continue(Poll::Wait) => Directive::Wait,
        Reaction::Continue(Poll::WaitUntil(until)) => Directive::WaitUntil(until),
        Reaction::Abort => Directive::Stop(0),
    }
}

/// The event of the loop itself that a turn gives rise to.
pub open spec fn application_event_of(turn: Turn) -> Option<ApplicationEvent> {
    match turn {
        Turn::Exhausted => Some(ApplicationEvent::QueueExhausted),
        Turn::TimedOut => Some(ApplicationEvent::TimeoutExpired),
        _ => None,
    }
}

/// The events that the reactor receives in a turn that finds `queued`
/// events in the queue: the queued ones, oldest first, then the event of
/// the loop itself if the turn gives rise to one.
pub open spec fn events_of_turn(queued: Seq<Event>, turn: Turn) -> Seq<Event> {
    match application_event_of(turn) {
        Some(event) => queued.push(Event::Application { event }),
        None => queued,
    }
}

/// Event thread: a reactor, the state that its answers have led to, and the
/// queue of events that wait for it.
pub struct EventThread<R: Reactor> {
    reactor: R,
    reaction: Reaction<Poll>,
    context: ThreadContext,
    queue: VecDeque<Event>,
    delivered: Ghost<Seq<Event>>,
}

impl<R: Reactor> EventThread<R> {
    /// The state of the thread: the poll mode with which it continues, or
    /// `Abort`.
    pub closed spec fn state(&self) -> Reaction<Poll> {
        self.reaction
    }

    /// The events that wait in the queue, oldest first.
    pub closed spec fn queued(&self) -> Seq<Event> {
        self.queue@
    }

    /// Every event that the reactor has received, in the order in which it
    /// received them.
    pub closed spec fn delivered(&self) -> Seq<Event> {
        self.delivered@
    }

    /// Begins an event thread on the calling thread, with the reactor and
    /// the event sink that `f` makes from the thread's context.
    pub fn start_with<F>(f: F) -> (started: (WindowHandle, Self)) where
        F: FnOnce(&ThreadContext) -> (WindowHandle, R),

        requires
            forall|context: &ThreadContext| f.requires((context,)),
        ensures
            exists|context: &ThreadContext, made: (WindowHandle, R)|
                #[trigger] f.ensures((context,), made) && made.0 == started.0,
            started.1.state() == Reaction::Continue(Poll::Ready),
            started.1.queued() == Seq::<Event>::empty(),
            started.1.delivered() == Seq::<Event>::empty(),
    {
        let context = ThreadContext::new_in_thread();
        let (sink, reactor) = f(&context);
        let ghost made = (sink, reactor);
        let ghost given = context;
        let thread = EventThread::new(context, reactor);
        assert(f.ensures((&given,), made));
        (sink, thread)
    }

    /// Begins an event thread on the calling thread, with the reactor and
    /// the event sink that the reactor's type makes from the thread's
    /// context.
    pub fn start() -> (started: (WindowHandle, Self)) where R: FromContext
        ensures
            exists|context: &ThreadContext, made: (WindowHandle, R)|
                #[trigger] call_ensures(R::from_context, (context,), made) && made.0 == started.0,
            started.1.state() == Reaction::Continue(Poll::Ready),
            started.1.queued() == Seq::<Event>::empty(),
            started.1.delivered() == Seq::<Event>::empty(),
    {
        let context = ThreadContext::new_in_thread();
        let (sink, reactor) = (&context).into_reactor();
        let ghost made = (sink, reactor);
        let ghost given = context;
        let thread = EventThread::new(context, reactor);
        assert(call_ensures(R::from_context, (&given,), made));
        (sink, thread)
    }

    /// An event thread for the reactor, with an empty queue.
    fn new(context: ThreadContext, reactor: R) -> (thread: Self)
        ensures
            thread.state() == Reaction::Continue(Poll::Ready),
            thread.queued() == Seq::<Event>::empty(),
            thread.delivered() == Seq::<Event>::empty(),
    {
        EventThread {
            reactor,
            reaction: Reaction::Continue(Poll::Ready),
            context,
            queue: VecDeque::with_capacity(16),
            delivered: Ghost(Seq::empty()),
        }
    }

    /// Whether the thread is aborting.
    pub fn is_aborting(&self) -> (aborting: bool)
        ensures
            aborting == (self.state() is Abort),
    {
        match self.reaction {
            Reaction::Abort => true,
            Reaction::Continue(_) => false,
        }
    }

    /// How many events wait in the queue.
    pub fn pending(&self) -> (count: usize)
        ensures
            count == self.queued().len(),
    {
        self.queue.len()
    }

    /// Hands an event to the reactor at once and returns its answer. Only
    /// an `Abort` changes the state of the thread.
    pub fn react(&mut self, event: Event) -> (reaction: Reaction)
        ensures
            final(self).state() == after_reaction(old(self).state(), reaction),
            final(self).queued() == old(self).queued(),
            final(self).delivered() == old(self).delivered().push(event),
    {
        let reaction = self.reactor.react(&self.context, event);
        self.reaction = settle_reaction(self.reaction, reaction);
        self.delivered = Ghost(self.delivered@.push(event));
        reaction
    }

    /// Puts an event at the end of the queue.
    pub fn enqueue(&mut self, event: Event)
        ensures
            final(self).queued() == old(self).queued().push(event),
            final(self).state() == old(self).state(),
            final(self).delivered() == old(self).delivered(),
    {
        self.queue.push_back(event);
    }

    /// Puts a batch of events at the end of the queue, in their order.
    pub fn enqueue_all(&mut self, events: Vec<Event>)
        ensures
            final(self).queued() == old(self).queued() + events@,
            final(self).state() == old(self).state(),
            final(self).delivered() == old(self).delivered(),
    {
        let mut i: usize = 0;
        while i < events.len()
            invariant
                0 <= i <= events@.len(),
                self.queued() == old(self).queued() + events@.subrange(0, i as int),
                self.state() == old(self).state(),
                self.delivered() == old(self).delivered(),
            decreases events@.len() - i,
        {
            self.enqueue(events[i]);
            i = i + 1;
            assert(self.queued() =~= old(self).queued() + events@.subrange(0, i as int));
        }
        assert(events@.subrange(0, i as int) =~= events@);
    }

    /// Hands every queued event to the reactor, oldest first, and leaves the
    /// queue empty.
    pub fn flush(&mut self)
        ensures
            final(self).queued() == Seq::<Event>::empty(),
            final(self).delivered() == old(self).delivered() + old(self).queued(),
            exists|reactions: Seq<Reaction>|
                reactions.len() == old(self).queued().len() && final(self).state()
                    == #[trigger] after_reactions(old(self).state(), reactions),
    {
        let ghost mut reactions: Seq<Reaction> = Seq::empty();
        let ghost mut handed: Seq<Event> = Seq::empty();
        loop
            invariant
                old(self).queued() == handed + self.queued(),
                reactions.len() == handed.len(),
                self.state() == after_reactions(old(self).state(), reactions),
                self.delivered() == old(self).delivered() + handed,
            ensures
                self.queued() == Seq::<Event>::empty(),
                handed == old(self).queued(),
            decreases self.queued().len(),
        {
            let ghost waiting = self.queued();
            match self.queue.pop_front() {
                Some(event) => {
                    let reaction = self.react(event);
                    proof {
                        assert((handed.push(event) + self.queued()) =~= handed + waiting);
                        assert(reactions.push(reaction).drop_last() =~= reactions);
                        assert((old(self).delivered() + handed).push(event) =~= old(
                            self,
                        ).delivered() + handed.push(event));
                        reactions = reactions.push(reaction);
                        handed = handed.push(event);
                    }
                },
                None => {
                    proof {
                        assert(self.queued() =~= Seq::<Event>::empty());
                        assert(handed + self.queued() =~= handed);
                    }
                    break ;
                },
            }
        }
    }

    /// Asks the reactor for the poll mode and returns its answer. The
    /// answer does not change the state of a thread that is aborting.
    pub fn poll(&mut self) -> (polled: Reaction<Poll>)
        ensures
            final(self).state() == after_poll(old(self).state(), polled),
            final(self).queued() == old(self).queued(),
            final(self).delivered() == old(self).delivered(),
    {
        let polled = self.reactor.poll(&self.context);
        self.reaction = settle_poll(self.reaction, polled);
        polled
    }

    /// Takes one turn of the event loop and says what the platform is to do
    /// next.
    ///
    /// On the signal to quit, the loop stops with the signal's exit code and
    /// the reactor receives nothing more. On every other turn the queue is
    /// emptied into the reactor, oldest event first; the reactor then
    /// receives `QueueExhausted` if the platform had no message, or
    /// `TimeoutExpired` if the instant was reached; it is asked for the poll
    /// mode; and the state that results decides the directive. A thread
    /// that is aborting when the turn begins stops, whatever its reactor
    /// answers.
    pub fn resume(&mut self, turn: Turn) -> (directive: Directive)
        ensures
            match turn {
                Turn::Quit(code) => {
                    &&& directive == Directive::Stop(code)
                    &&& final(self).state() == old(self).state()
                    &&& final(self).queued() == old(self).queued()
                    &&& final(self).delivered() == old(self).delivered()
                },
                _ => {
                    &&& directive == directive_for(final(self).state())
                    &&& final(self).queued() == Seq::<Event>::empty()
                    &&& final(self).delivered() == old(self).delivered() + events_of_turn(
                        old(self).queued(),
                        turn,
                    )
                    &&& exists|reactions: Seq<Reaction>, polled: Reaction<Poll>|
                        reactions.len() == events_of_turn(old(self).queued(), turn).len()
                            && final(self).state() == #[trigger] after_turn(
                            old(self).state(),
                            reactions,
                            polled,
                        )
                },
            },
            old(self).state() is Abort ==> directive is Stop,
    {
        if let Turn::Quit(code) = turn {
            return Directive::Stop(code);
        }
        self.flush();
        let ghost flushed = choose|reactions: Seq<Reaction>|
            reactions.len() == old(self).queued().len() && self.state() == #[trigger] after_reactions(
                old(self).state(),
                reactions,
            );
        let ghost mut reactions = flushed;
        match turn {
            Turn::Exhausted => {
                let reaction = self.react(
                    Event::Application { event: ApplicationEvent::QueueExhausted },
                );
                proof {
                    reactions = flushed.push(reaction);
                    assert(reactions.drop_last() =~= flushed);
                }
            },
            Turn::TimedOut => {
                let reaction = self.react(
                    Event::Application { event: ApplicationEvent::TimeoutExpired },
                );
                proof {
                    reactions = flushed.push(reaction);
                    assert(reactions.drop_last() =~= flushed);
                }
            },
            _ => {},
        }
        let ghost reacted = self.state();
        let polled = self.poll();
        proof {
            assert(self.delivered() =~= old(self).delivered() + events_of_turn(
                old(self).queued(),
                turn,
            ));
            assert(reacted == after_reactions(old(self).state(), reactions));
            assert(self.state() == after_turn(old(self).state(), reactions, polled));
            if old(self).state() is Abort {
                lemma_abort_is_sticky(old(self).state(), reactions, polled);
            }
        }
        match self.reaction {
            Reaction::Continue(Poll::Ready) => Directive::Peek,
            Reaction::Continue(Poll::Wait) => Directive::Wait,
            Reaction::Continue(Poll::WaitUntil(until)) => Directive::WaitUntil(until),
            Reaction::Abort => Directive::Stop(0),
        }
    }

    /// Ends the event thread: the reactor is aborted, and what is still
    /// queued is dropped.
    pub fn abort(self) {
        let EventThread { reactor, .. } = self;
        reactor.abort();
    }
}

/// Events that are queued as a batch reach the reactor in the order of the
/// batch, after the events that were queued before them and before
/// anything that is handed to the reactor later.
///
/// `before`, `enqueued` and `flushed` are an event thread before the batch
/// is queued, after `enqueue_all`, and after the next `flush` or turn.
pub proof fn lemma_queue_drains_in_order<R: Reactor>(
    before: EventThread<R>,
    enqueued: EventThread<R>,
    flushed: EventThread<R>,
    batch: Seq<Event>,
)
    requires
        enqueued.queued() == before.queued() + batch,
        enqueued.delivered() == before.delivered(),
        exists|later: Seq<Event>|
            flushed.delivered() == enqueued.delivered() + enqueued.queued() + later,
    ensures
        forall|i: int|
            0 <= i < batch.len() ==> flushed.delivered()[before.delivered().len()
                + before.queued().len() + i] == #[trigger] batch[i],
        forall|i: int|
            0 <= i < before.queued().len() ==> flushed.delivered()[before.delivered().len() + i]
                == #[trigger] before.queued()[i],
        flushed.delivered().subrange(0, before.delivered().len() as int) == before.delivered(),
{
    let later = choose|later: Seq<Event>|
        flushed.delivered() == enqueued.delivered() + enqueued.queued() + later;
    assert(flushed.delivered() =~= before.delivered() + before.queued() + batch + later);
    assert(flushed.delivered().subrange(0, before.delivered().len() as int)
        =~= before.delivered());
}

/// The place where the event thread that runs on a thread is registered, so
/// that the callbacks of the platform reach it while the platform
/// dispatches a message.
///
/// A callback that finds no event thread registered fails, and its event
/// is dropped.
pub struct Registration<R: Reactor> {
    thread: Option<EventThread<R>>,
}

impl<R: Reactor> Registration<R> {
    /// The event thread that is registered, if one is.
    pub closed spec fn registered(&self) -> Option<EventThread<R>> {
        self.thread
    }

    /// A place in which no event thread is registered.
    pub fn new() -> (registration: Self)
        ensures
            registration.registered() is None,
    {
        Registration { thread: None }
    }

    /// Registers the event thread and hands back the one that was
    /// registered before, if one was.
    pub fn register(&mut self, thread: EventThread<R>) -> (previous: Option<EventThread<R>>)
        ensures
            final(self).registered() == Some(thread),
            previous == old(self).registered(),
    {
        let previous = self.thread.take();
        self.thread = Some(thread);
        previous
    }

    /// Clears the place and hands back the event thread that was
    /// registered, if one was.
    pub fn unregister(&mut self) -> (thread: Option<EventThread<R>>)
        ensures
            final(self).registered() is None,
            thread == old(self).registered(),
    {
        self.thread.take()
    }

    /// Hands an event to the reactor of the registered event thread at once
    /// and returns its answer. Fails if no event thread is registered.
    pub fn react(&mut self, event: Event) -> (result: Result<Reaction, ()>)
        ensures
            match old(self).registered() {
                Some(before) => {
                    &&& result matches Ok(reaction)
                    &&& final(self).registered() matches Some(after)
                    &&& after.state() == after_reaction(before.state(), reaction)
                    &&& after.queued() == before.queued()
                    &&& after.delivered() == before.delivered().push(event)
                },
                None => result is Err && final(self).registered() is None,
            },
    {
        match self.thread.take() {
            Some(thread) => {
                let mut thread = thread;
                let reaction = thread.react(event);
                self.thread = Some(thread);
                Ok(reaction)
            },
            None => Err(()),
        }
    }

    /// Puts a batch of events at the end of the queue of the registered
    /// event thread, in their order. Fails if no event thread is
    /// registered.
    pub fn enqueue(&mut self, events: Vec<Event>) -> (result: Result<(), ()>)
        ensures
            match old(self).registered() {
                Some(before) => {
                    &&& result is Ok
                    &&& final(self).registered() matches Some(after)
                    &&& after.state() == before.state()
                    &&& after.queued() == before.queued() + events@
                    &&& after.delivered() == before.delivered()
                },
                None => result is Err && final(self).registered() is None,
            },
    {
        match self.thread.take() {
            Some(thread) => {
                let mut thread = thread;
                thread.enqueue_all(events);
                self.thread = Some(thread);
                Ok(())
            },
            None => Err(()),
        }
    }
}

} // verus!
