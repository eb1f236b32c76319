//! Making sure that the device is paired.
//!
//! A paired device is left alone. Otherwise an authentication agent that
//! answers with the configured passkey is registered for the one pairing
//! attempt and released after it, whatever came of it. A refused pairing ends
//! the cycle: nothing is retried here.

use vstd::prelude::*;
use crate::model::EngineError;
use crate::transport::{Action, Event, Progress};

verus! {

/// The states of pairing.
#[derive(Debug, Clone, Copy, PartialEq, Eq, Structural)]
pub enum Pairing {
    /// Waiting to hear whether the device is paired.
    Checking,
    /// Waiting for the agent to be registered.
    Registering,
    /// Waiting for the platform to pair.
    Requesting,
    /// Waiting for the agent to be released; the flag tells whether the
    /// pairing succeeded.
    Releasing(bool),
}

/// The operation that pairing in this state waits for.
pub open spec fn pairing_action(passkey: u32, at: Pairing) -> Action {
    match at {
        Pairing::Checking => Action::QueryPaired,
        Pairing::Registering => Action::RegisterAgent(passkey),
        Pairing::Requesting => Action::Pair,
        Pairing::Releasing(_) => Action::ReleaseAgent,
    }
}

/// Where pairing stands after an event.
pub open spec fn pair_step(at: Pairing, event: Event) -> Progress<Pairing, ()> {
    match at {
        Pairing::Checking => match event {
            Event::Answer(true) => Progress::Done(()),
            Event::Answer(false) => Progress::Pending(Pairing::Registering),
            _ => Progress::Failed(EngineError::Transport),
        },
        Pairing::Registering => match event {
            Event::Completed => Progress::Pending(Pairing::Requesting),
            _ => Progress::Failed(EngineError::Transport),
        },
        Pairing::Requesting => Progress::Pending(Pairing::Releasing(event == Event::Completed)),
        Pairing::Releasing(paired) => if paired {
            Progress::Done(())
        } else {
            Progress::Failed(EngineError::PairingFailed)
        },
    }
}

/// The passkey that the agent hands out when the device asks for one: always
/// the configured one.
pub fn supply_passkey(passkey: u32) -> (supplied: u32)
    ensures
        supplied == passkey,
{
    passkey
}

impl Pairing {
    /// The operation that pairing waits for.
    pub fn action(&self, passkey: u32) -> (action: Action)
        ensures
            action == pairing_action(passkey, *self),
    {
        match self {
            Pairing::Checking => Action::QueryPaired,
            Pairing::Registering => Action::RegisterAgent(supply_passkey(passkey)),
            Pairing::Requesting => Action::Pair,
            Pairing::Releasing(_) => Action::ReleaseAgent,
        }
    }
}

/// Advances pairing by the event that answers its pending operation.
///
/// A device reported as paired ends the stage at once: no agent is registered
/// and no pairing is asked for. A pairing that the platform refuses ends the
/// stage with `PairingFailed` after the agent is released.
pub fn try_pair(at: Pairing, event: &Event) -> (r: Progress<Pairing, ()>)
    ensures
        r == pair_step(at, *event),
        at == Pairing::Checking && *event == Event::Answer(true) ==> r == Progress::<Pairing, ()>::Done(()),
        r == Progress::<Pairing, ()>::Pending(Pairing::Registering) ==> at == Pairing::Checking && *event
            == Event::Answer(false),
        r == Progress::<Pairing, ()>::Failed(EngineError::PairingFailed) <==> at == Pairing::Releasing(false),
{
    match at {
        Pairing::Checking => match event {
            Event::Answer(true) => Progress::Done(()),
            Event::Answer(false) => Progress::Pending(Pairing::Registering),
            _ => Progress::Failed(EngineError::Transport),
        },
        Pairing::Registering => match event {
            Event::Completed => Progress::Pending(Pairing::Requesting),
            _ => Progress::Failed(EngineError::Transport),
        },
        Pairing::Requesting => match event {
            Event::Completed => Progress::Pending(Pairing::Releasing(true)),
            _ => Progress::Pending(Pairing::Releasing(false)),
        },
        Pairing::Releasing(paired) => if paired {
            Progress::Done(())
        } else {
            Progress::Failed(EngineError::PairingFailed)
        },
    }
}

} // verus!
