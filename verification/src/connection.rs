//! Bringing the device to the connected state.
//!
//! The device is located and paired first. A device that is already connected
//! is left alone. Otherwise up to the configured number of attempts is made,
//! with a fixed sleep between two of them. When the last one fails, or when no
//! attempt is allowed at all, the stored pairing record is removed, so that the
//! next cycle pairs from scratch, and the cycle ends. The stage is done only
//! with a device that was reported as connected or that an attempt connected.

use vstd::prelude::*;
use crate::locator::{find_device, locate_step, locator_action, Locating};
use crate::model::{Configuration, EngineError};
use crate::pairing::{pair_step, pairing_action, try_pair, Pairing};
use crate::transport::{Action, Event, Progress, BACKOFF_SECONDS};

verus! {

/// The states of connecting.
#[derive(Debug, Clone, Copy, PartialEq, Eq, Structural)]
pub enum Connecting {
    /// The device is being located.
    Locate(Locating),
    /// The device is being paired.
    Pair(Pairing),
    /// Waiting to hear whether the device is connected.
    Checking,
    /// Waiting for the attempt with this number, counted from one.
    Attempt(u8),
    /// Sleeping after the failed attempt with this number.
    Backoff(u8),
    /// Waiting for the pairing record to be removed.
    Unpairing,
}

impl Connecting {
    /// Whether the state can arise with this limit of attempts: an attempt's
    /// number is at least one and at most the limit, and a sleep follows only an
    /// attempt that was not the last.
    pub open spec fn well_formed(self, max_retries: u8) -> bool {
        match self {
            Connecting::Attempt(n) => 1 <= n <= max_retries,
            Connecting::Backoff(n) => 1 <= n < max_retries,
            _ => true,
        }
    }
}

/// The operation that connecting in this state waits for.
pub open spec fn connection_action(cfg: Configuration, at: Connecting) -> Action {
    match at {
        Connecting::Locate(locating) => locator_action(cfg.wican_mac_address, cfg.wican_timeout, locating),
        Connecting::Pair(pairing) => pairing_action(cfg.wican_passkey, pairing),
        Connecting::Checking => Action::QueryConnected,
        Connecting::Attempt(_) => Action::Connect,
        Connecting::Backoff(_) => Action::Sleep(BACKOFF_SECONDS),
        Connecting::Unpairing => Action::RemovePairing(cfg.wican_mac_address),
    }
}

/// Where connecting stands after an event.
pub open spec fn connect_step(cfg: Configuration, at: Connecting, event: Event) -> Progress<Connecting, ()> {
    match at {
        Connecting::Locate(locating) => match locate_step(cfg.wican_mac_address, locating, event) {
            Progress::Pending(next) => Progress::Pending(Connecting::Locate(next)),
            Progress::Done(_) => Progress::Pending(Connecting::Pair(Pairing::Checking)),
            Progress::Failed(e) => Progress::Failed(e),
        },
        Connecting::Pair(pairing) => match pair_step(pairing, event) {
            Progress::Pending(next) => Progress::Pending(Connecting::Pair(next)),
            Progress::Done(_) => Progress::Pending(Connecting::Checking),
            Progress::Failed(e) => Progress::Failed(e),
        },
        Connecting::Checking => match event {
            Event::Answer(true) => Progress::Done(()),
            Event::Answer(false) => if cfg.wican_max_connect_retries == 0 {
                Progress::Pending(Connecting::Unpairing)
            } else {
                Progress::Pending(Connecting::Attempt(1))
            },
            _ => Progress::Failed(EngineError::Transport),
        },
        Connecting::Attempt(n) => if event == Event::Completed {
            Progress::Done(())
        } else if n < cfg.wican_max_connect_retries {
            Progress::Pending(Connecting::Backoff(n))
        } else {
            Progress::Pending(Connecting::Unpairing)
        },
        Connecting::Backoff(n) => if n < cfg.wican_max_connect_retries {
            Progress::Pending(Connecting::Attempt((n + 1) as u8))
        } else {
            Progress::Pending(Connecting::Unpairing)
        },
        Connecting::Unpairing => if event == Event::Completed {
            Progress::Failed(EngineError::ConnectionExhausted)
        } else {
            Progress::Failed(EngineError::UnpairFailed)
        },
    }
}

impl Connecting {
    /// The operation that connecting waits for.
    pub fn action(&self, cfg: &Configuration) -> (action: Action)
        ensures
            action == connection_action(*cfg, *self),
    {
        match self {
            Connecting::Locate(locating) => locating.action(cfg.wican_mac_address, cfg.wican_timeout),
            Connecting::Pair(pairing) => pairing.action(cfg.wican_passkey),
            Connecting::Checking => Action::QueryConnected,
            Connecting::Attempt(_) => Action::Connect,
            Connecting::Backoff(_) => Action::Sleep(BACKOFF_SECONDS),
            Connecting::Unpairing => Action::RemovePairing(cfg.wican_mac_address),
        }
    }
}

/// Advances connecting by the event that answers its pending operation.
///
/// A device reported as connected ends the stage at once. A failed attempt that
/// was not the last is followed by a sleep and the next attempt. The last
/// failed attempt is followed by the removal of the pairing record, and so is a
/// device reported as not connected when the limit is zero attempts. Only the
/// answer to that removal ends the stage then: with `ConnectionExhausted` when
/// the record is gone, with `UnpairFailed` when it could not be removed. The
/// stage is done only after the device was reported as connected or an attempt
/// succeeded.
pub fn connect_to_device(cfg: &Configuration, at: Connecting, event: &Event) -> (r: Progress<Connecting, ()>)
    ensures
        r == connect_step(*cfg, at, *event),
        at.well_formed(cfg.wican_max_connect_retries) && r is Pending ==> r->Pending_0.well_formed(
            cfg.wican_max_connect_retries,
        ),
        at == Connecting::Attempt(cfg.wican_max_connect_retries) && *event != Event::Completed ==> r
            == Progress::<Connecting, ()>::Pending(Connecting::Unpairing),
        r == Progress::<Connecting, ()>::Failed(EngineError::ConnectionExhausted) <==> at
            == Connecting::Unpairing && *event == Event::Completed,
        r == Progress::<Connecting, ()>::Failed(EngineError::UnpairFailed) <==> at == Connecting::Unpairing
            && *event != Event::Completed,
        r is Done <==> (at == Connecting::Checking && *event == Event::Answer(true)) || (at is Attempt
            && *event == Event::Completed),
        at == Connecting::Checking && *event == Event::Answer(false) && cfg.wican_max_connect_retries == 0
            ==> r == Progress::<Connecting, ()>::Pending(Connecting::Unpairing),
{
    match at {
        Connecting::Locate(locating) => match find_device(&cfg.wican_mac_address, locating, event) {
            Progress::Pending(next) => Progress::Pending(Connecting::Locate(next)),
            Progress::Done(_) => Progress::Pending(Connecting::Pair(Pairing::Checking)),
            Progress::Failed(e) => Progress::Failed(e),
        },
        Connecting::Pair(pairing) => match try_pair(pairing, event) {
            Progress::Pending(next) => Progress::Pending(Connecting::Pair(next)),
            Progress::Done(_) => Progress::Pending(Connecting::Checking),
            Progress::Failed(e) => Progress::Failed(e),
        },
        Connecting::Checking => match event {
            Event::Answer(true) => Progress::Done(()),
            Event::Answer(false) => if cfg.wican_max_connect_retries == 0 {
                Progress::Pending(Connecting::Unpairing)
            } else {
                Progress::Pending(Connecting::Attempt(1))
            },
            _ => Progress::Failed(EngineError::Transport),
        },
        Connecting::Attempt(n) => match event {
            Event::Completed => Progress::Done(()),
            _ => if n < cfg.wican_max_connect_retries {
                Progress::Pending(Connecting::Backoff(n))
            } else {
                Progress::Pending(Connecting::Unpairing)
            },
        },
        Connecting::Backoff(n) => if n < cfg.wican_max_connect_retries {
            Progress::Pending(Connecting::Attempt(n + 1))
        } else {
            Progress::Pending(Connecting::Unpairing)
        },
        Connecting::Unpairing => match event {
            Event::Completed => Progress::Failed(EngineError::ConnectionExhausted),
            _ => Progress::Failed(EngineError::UnpairFailed),
        },
    }
}

} // verus!
