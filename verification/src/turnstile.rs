//! A two-state turnstile: the canonical partial transition relation.
//!
//! `Locked` accepts only `PaymentReceived`, moving to `Unlocked`; `Unlocked`
//! accepts only `PersonEntering`, moving back to `Locked`. Every other
//! (state, event) pair is rejected with `InvalidEvent`.

use vstd::prelude::*;
use crate::MachineError;
use crate::State;

verus! {

/// The turnstile's two states.
#[derive(Clone, Copy, Debug, PartialEq, Eq, Structural)]
pub enum TurnstileState {
    Locked,
    Unlocked,
}

/// The turnstile's two events.
#[derive(Clone, Copy, Debug, PartialEq, Eq, Structural)]
pub enum TurnstileEvent {
    PaymentReceived,
    PersonEntering,
}

impl State<TurnstileEvent> for TurnstileState {
    open spec fn accepts(&self, event: TurnstileEvent) -> bool {
        match (*self, event) {
            (TurnstileState::Locked, TurnstileEvent::PaymentReceived) => true,
            (TurnstileState::Unlocked, TurnstileEvent::PersonEntering) => true,
            _ => false,
        }
    }

    open spec fn next(&self, event: TurnstileEvent) -> Self {
        match *self {
            TurnstileState::Locked => TurnstileState::Unlocked,
            TurnstileState::Unlocked => TurnstileState::Locked,
        }
    }

    fn apply(&self, event: TurnstileEvent) -> (r: Result<
        Self,
        MachineError<Self, TurnstileEvent>,
    >) {
        match (*self, event) {
            (TurnstileState::Locked, TurnstileEvent::PaymentReceived) => Ok(
                TurnstileState::Unlocked,
            ),
            (TurnstileState::Unlocked, TurnstileEvent::PersonEntering) => Ok(
                TurnstileState::Locked,
            ),
            _ => Err(MachineError::InvalidEvent(*self, event)),
        }
    }
}

} // verus!
