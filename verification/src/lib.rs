//! A minimal generic finite-state machine.
//!
//! A [`Machine`] holds one state value and applies caller-supplied transition
//! logic in response to discrete events. A state type describes its transition
//! relation through the [`State`] trait: the spec functions `accepts` and
//! `next` say which events a state accepts and what the successor is, and the
//! executable `apply` must agree with them. Dispatching an accepted event
//! replaces the stored state with the successor; dispatching a rejected event
//! leaves the stored state untouched and returns a structured error, so the
//! caller can recover by dispatching a different event.

use vstd::prelude::*;
use core::marker::PhantomData;

pub mod turnstile;

verus! {

/// The one failure a dispatch can produce: the transition relation has no
/// entry for this (state, event) pair. Carries the state that refused the
/// event and the event it refused.
#[derive(Debug, PartialEq)]
pub enum MachineError<S, E> {
    InvalidEvent(S, E),
}

/// The transition capability a state type supplies.
///
/// `accepts` and `next` are the mathematical transition relation: `accepts`
/// says for which events a successor is defined, and `next` names that
/// successor. The executable `apply` must return exactly what they describe:
/// the successor on an accepted event, and `InvalidEvent` naming the current
/// state and the offending event otherwise.
pub trait State<Event>: Sized {
    /// Whether the transition relation defines a successor for
    /// (`self`, `event`).
    spec fn accepts(&self, event: Event) -> bool;

    /// The successor state for (`self`, `event`); meaningful only where
    /// `accepts` holds.
    spec fn next(&self, event: Event) -> Self;

    /// Apply one event to this state: the successor where the transition
    /// relation defines one, a rejection naming both inputs otherwise.
    fn apply(&self, event: Event) -> (r: Result<Self, MachineError<Self, Event>>)
        ensures
            self.accepts(event) ==> (r matches Ok(s) && s == self.next(event)),
            !self.accepts(event) ==> (r matches Err(MachineError::InvalidEvent(s, e))
                && s == *self && e == event),
    ;
}

/// What one dispatch does to a state, as a mathematical function: the
/// successor where the event is accepted, the unchanged state otherwise.
pub open spec fn step<S: State<E>, E>(s: S, event: E) -> S {
    if s.accepts(event) {
        s.next(event)
    } else {
        s
    }
}

/// The state reached by dispatching a whole event sequence in order.
pub open spec fn run<S: State<E>, E>(s: S, events: Seq<E>) -> S
    decreases events.len(),
{
    if events.len() == 0 {
        s
    } else {
        run(step(s, events[0]), events.drop_first())
    }
}

/// The success/failure outcome of each dispatch in an event sequence, in
/// order: `true` where the event was accepted, `false` where it was rejected.
pub open spec fn run_outcomes<S: State<E>, E>(s: S, events: Seq<E>) -> Seq<bool>
    decreases events.len(),
{
    if events.len() == 0 {
        Seq::empty()
    } else {
        seq![s.accepts(events[0])] + run_outcomes(step(s, events[0]), events.drop_first())
    }
}

/// A holder for one current state value of type `StateType`, driven by
/// events of type `Event`.
pub struct Machine<StateType, Event> where StateType: State<Event> {
    /// The current state. Read this field after a dispatch for the
    /// post-state; `dispatch` itself returns no state value.
    pub state: StateType,
    /// Zero-sized marker that lets the event type participate in the
    /// machine's generic signature without being stored.
    pub event_marker: PhantomData<Event>,
}

impl<StateType, Event> Machine<StateType, Event> where StateType: State<Event> {
    /// Create a machine in the given initial state. No validation: any value
    /// of the state type is accepted.
    pub fn new(initial_state: StateType) -> (m: Self)
        ensures
            m.state == initial_state,
    {
        Self { state: initial_state, event_marker: PhantomData }
    }

    /// Apply one event to the current state.
    ///
    /// Where the current state accepts the event, the stored state becomes
    /// the successor and the call succeeds. Where it rejects the event, the
    /// stored state is left exactly as it was and the call returns
    /// `InvalidEvent` naming that state and the event, so the caller may
    /// dispatch a different event afterward without losing machine state.
    pub fn dispatch(&mut self, event: Event) -> (r: Result<(), MachineError<StateType, Event>>)
        ensures
            final(self).state == step(old(self).state, event),
            r is Ok <==> old(self).state.accepts(event),
            old(self).state.accepts(event) ==> final(self).state == old(self).state.next(event),
            !old(self).state.accepts(event) ==> final(self).state == old(self).state
                && (r matches Err(MachineError::InvalidEvent(s, e))
                    && s == old(self).state && e == event),
    {
        match self.state.apply(event) {
            Ok(next_state) => {
                self.state = next_state;
                Ok(())
            },
            Err(err) => Err(err),
        }
    }
}

/// Dispatching the same event sequence from the same initial state always
/// yields the same final state and the same sequence of success/failure
/// outcomes.
pub proof fn lemma_determinism<S: State<E>, E>(s1: S, s2: S, events1: Seq<E>, events2: Seq<E>)
    requires
        s1 == s2,
        events1 == events2,
    ensures
        run(s1, events1) == run(s2, events2),
        run_outcomes(s1, events1) == run_outcomes(s2, events2),
{
}

/// After a rejected dispatch, a dispatch with an event the current state
/// accepts succeeds and moves to that event's successor: a rejection neither
/// corrupts nor locks the machine.
pub proof fn lemma_recoverability<S: State<E>, E>(s: S, rejected: E, accepted: E)
    requires
        !s.accepts(rejected),
        s.accepts(accepted),
    ensures
        step(s, rejected) == s,
        step(s, rejected).accepts(accepted),
        step(step(s, rejected), accepted) == s.next(accepted),
{
}

} // verus!
