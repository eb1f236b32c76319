//! Resolving a device identity to a live device.
//!
//! A device that the platform already knows with its services resolved is
//! taken as it is. Otherwise a discovery scan runs until the device appears or
//! the scan's time is over, and is cancelled on either way out.

use vstd::prelude::*;
use crate::model::{DeviceIdentity, EngineError};
use crate::transport::{Action, Event, Progress};

verus! {

/// The states of locating a device.
#[derive(Debug, Clone, Copy, PartialEq, Eq, Structural)]
pub enum Locating {
    /// Waiting to hear whether the device is already known.
    Probing,
    /// Waiting for the scan to start.
    StartingScan,
    /// Watching the scan.
    Scanning,
    /// Waiting for the scan to be cancelled; the flag tells whether the device
    /// had appeared.
    Stopping(bool),
}

/// The operation that the locator in this state waits for.
pub open spec fn locator_action(target: DeviceIdentity, wait: u8, at: Locating) -> Action {
    match at {
        Locating::Probing => Action::Probe(target),
        Locating::StartingScan => Action::StartScan(wait),
        Locating::Scanning => Action::NextScanEvent,
        Locating::Stopping(_) => Action::StopScan,
    }
}

/// Where the locator stands after an event.
pub open spec fn locate_step(target: DeviceIdentity, at: Locating, event: Event) -> Progress<Locating, ()> {
    match at {
        Locating::Probing => if event == Event::Answer(true) {
            Progress::Done(())
        } else {
            Progress::Pending(Locating::StartingScan)
        },
        Locating::StartingScan => if event == Event::Completed {
            Progress::Pending(Locating::Scanning)
        } else {
            Progress::Failed(EngineError::Transport)
        },
        Locating::Scanning => if event == Event::Appeared(target) {
            Progress::Pending(Locating::Stopping(true))
        } else if event == Event::Elapsed {
            Progress::Pending(Locating::Stopping(false))
        } else {
            Progress::Pending(Locating::Scanning)
        },
        Locating::Stopping(found) => if found {
            Progress::Done(())
        } else {
            Progress::Failed(EngineError::DiscoveryTimeout)
        },
    }
}

impl Locating {
    /// The operation that the locator waits for; `wait` is the number of
    /// seconds granted to a scan.
    pub fn action(&self, target: DeviceIdentity, wait: u8) -> (action: Action)
        ensures
            action == locator_action(target, wait, *self),
    {
        match self {
            Locating::Probing => Action::Probe(target),
            Locating::StartingScan => Action::StartScan(wait),
            Locating::Scanning => Action::NextScanEvent,
            Locating::Stopping(_) => Action::StopScan,
        }
    }
}

/// Advances the locator by the event that answers its pending operation.
///
/// A probe that finds the device known ends the stage at once: no scan is
/// started. During a scan only the appearance of the target or the end of the
/// scan's time leads on, and both lead to the scan being cancelled; the stage
/// then ends with the device, or with `DiscoveryTimeout`.
pub fn find_device(target: &DeviceIdentity, at: Locating, event: &Event) -> (r: Progress<Locating, ()>)
    ensures
        r == locate_step(*target, at, *event),
        at == Locating::Probing && *event == Event::Answer(true) ==> r == Progress::<Locating, ()>::Done(()),
        r == Progress::<Locating, ()>::Pending(Locating::StartingScan) ==> at == Locating::Probing && *event
            != Event::Answer(true),
        r == Progress::<Locating, ()>::Failed(EngineError::DiscoveryTimeout) <==> at == Locating::Stopping(
            false,
        ),
{
    match at {
        Locating::Probing => match event {
            Event::Answer(true) => Progress::Done(()),
            _ => Progress::Pending(Locating::StartingScan),
        },
        Locating::StartingScan => match event {
            Event::Completed => Progress::Pending(Locating::Scanning),
            _ => Progress::Failed(EngineError::Transport),
        },
        Locating::Scanning => match event {
            Event::Appeared(seen) => if seen.same(target) {
                Progress::Pending(Locating::Stopping(true))
            } else {
                Progress::Pending(Locating::Scanning)
            },
            Event::Elapsed => Progress::Pending(Locating::Stopping(false)),
            _ => Progress::Pending(Locating::Scanning),
        },
        Locating::Stopping(found) => if found {
            Progress::Done(())
        } else {
            Progress::Failed(EngineError::DiscoveryTimeout)
        },
    }
}

} // verus!
