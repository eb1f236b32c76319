//! One polling cycle from the first probe to the consumer's acknowledgement.
//!
//! A cycle connects to the bridge, runs one exchange, and posts the reading.
//! It is driven from outside: [`Cycle::action`] names the pending operation,
//! [`Cycle::step`] takes the report on it. A cycle ends with the reading that
//! the consumer acknowledged, or with the one error that stopped it.

use vstd::prelude::*;
use crate::connection::{connect_step, connect_to_device, connection_action, Connecting};
use crate::exchange::{exchange_action, fetch_data, fetch_step, Exchanging};
use crate::locator::Locating;
use crate::model::{BatteryData, Configuration, EngineError};
use crate::sink::{acknowledged, post_battery_data};
use crate::transport::{Action, Event, Progress};

verus! {

/// The states of a cycle.
#[derive(Debug, Clone, Copy, PartialEq, Eq)]
pub enum Cycle {
    /// The device is being located, paired and connected.
    Connect(Connecting),
    /// The exchange with the connected device is running.
    Exchange(Exchanging),
    /// Waiting for the consumer's answer to this reading.
    Post(BatteryData),
    /// The cycle is over.
    Finished(Result<BatteryData, EngineError>),
}

impl Cycle {
    /// Whether the state can arise under this configuration.
    pub open spec fn well_formed(self, cfg: Configuration) -> bool {
        self matches Cycle::Connect(connecting) ==> connecting.well_formed(cfg.wican_max_connect_retries)
    }
}

/// The state in which every cycle begins.
pub open spec fn initial() -> Cycle {
    Cycle::Connect(Connecting::Locate(Locating::Probing))
}

/// The operation that a cycle in this state waits for; none once it is over.
pub open spec fn cycle_action(cfg: Configuration, at: Cycle) -> Option<Action> {
    match at {
        Cycle::Connect(connecting) => Some(connection_action(cfg, connecting)),
        Cycle::Exchange(exchanging) => Some(exchange_action(cfg.wican_timeout, exchanging)),
        Cycle::Post(reading) => Some(Action::Post(reading)),
        Cycle::Finished(_) => None,
    }
}

/// Where a cycle stands after an event.
pub open spec fn cycle_step(cfg: Configuration, at: Cycle, event: Event) -> Cycle {
    match at {
        Cycle::Connect(connecting) => match connect_step(cfg, connecting, event) {
            Progress::Pending(next) => Cycle::Connect(next),
            Progress::Done(_) => Cycle::Exchange(Exchanging::Resolving),
            Progress::Failed(e) => Cycle::Finished(Err(e)),
        },
        Cycle::Exchange(exchanging) => match fetch_step(cfg.vehicle_battery_capacity, exchanging, event) {
            Progress::Pending(next) => Cycle::Exchange(next),
            Progress::Done(Some(reading)) => Cycle::Post(reading),
            Progress::Done(None) => Cycle::Finished(Err(EngineError::NoResponse)),
            Progress::Failed(e) => Cycle::Finished(Err(e)),
        },
        Cycle::Post(reading) => if acknowledged(event) {
            Cycle::Finished(Ok(reading))
        } else {
            Cycle::Finished(Err(EngineError::SinkPostFailed))
        },
        Cycle::Finished(outcome) => Cycle::Finished(outcome),
    }
}

/// The state of a cycle that has taken the first `n` of the events.
pub open spec fn state_after(cfg: Configuration, events: Seq<Event>, n: nat) -> Cycle
    decreases n,
{
    if n == 0 {
        initial()
    } else {
        cycle_step(cfg, state_after(cfg, events, (n - 1) as nat), events[n - 1])
    }
}

/// The operation pending after the first `n` of the events: the one that
/// event `n` reports on.
pub open spec fn action_at(cfg: Configuration, events: Seq<Event>, n: nat) -> Option<Action> {
    cycle_action(cfg, state_after(cfg, events, n))
}

impl Cycle {
    /// Begins a cycle.
    pub fn start() -> (at: Cycle)
        ensures
            at == initial(),
    {
        Cycle::Connect(Connecting::Locate(Locating::Probing))
    }

    /// The operation that the cycle waits for, or `None` once it is over.
    pub fn action(&self, cfg: &Configuration) -> (action: Option<Action>)
        ensures
            action == cycle_action(*cfg, *self),
            action is None <==> *self is Finished,
    {
        match self {
            Cycle::Connect(connecting) => Some(connecting.action(cfg)),
            Cycle::Exchange(exchanging) => Some(exchanging.action(cfg.wican_timeout)),
            Cycle::Post(reading) => Some(Action::Post(*reading)),
            Cycle::Finished(_) => None,
        }
    }

    /// Advances the cycle by the event that answers its pending operation.
    ///
    /// A stage that fails ends the cycle with its error, and so does an
    /// exchange without an answer, with `NoResponse`. A reading is the outcome
    /// only once the consumer acknowledged it. A finished cycle stays as it is.
    pub fn step(self, cfg: &Configuration, event: &Event) -> (next: Cycle)
        ensures
            next == cycle_step(*cfg, self, *event),
            self.well_formed(*cfg) ==> next.well_formed(*cfg),
            self is Finished ==> next == self,
            next matches Cycle::Finished(Ok(reading)) ==> self is Finished || (self == Cycle::Post(reading)
                && acknowledged(*event)),
    {
        match self {
            Cycle::Connect(connecting) => match connect_to_device(cfg, connecting, event) {
                Progress::Pending(next) => Cycle::Connect(next),
                Progress::Done(_) => Cycle::Exchange(Exchanging::Resolving),
                Progress::Failed(e) => Cycle::Finished(Err(e)),
            },
            Cycle::Exchange(exchanging) => match fetch_data(cfg.vehicle_battery_capacity, exchanging, event) {
                Progress::Pending(next) => Cycle::Exchange(next),
                Progress::Done(Some(reading)) => Cycle::Post(reading),
                Progress::Done(None) => Cycle::Finished(Err(EngineError::NoResponse)),
                Progress::Failed(e) => Cycle::Finished(Err(e)),
            },
            Cycle::Post(reading) => match post_battery_data(event) {
                Ok(_) => Cycle::Finished(Ok(reading)),
                Err(e) => Cycle::Finished(Err(e)),
            },
            Cycle::Finished(outcome) => Cycle::Finished(outcome),
        }
    }

    /// The outcome of the cycle, or `None` while it is running.
    pub fn outcome(&self) -> (outcome: Option<Result<BatteryData, EngineError>>)
        ensures
            outcome == (match *self {
                Cycle::Finished(o) => Some(o),
                _ => None,
            }),
    {
        match self {
            Cycle::Finished(o) => Some(*o),
            _ => None,
        }
    }
}

/// A finished cycle takes no notice of further events.
pub proof fn finished_stays(cfg: Configuration, events: Seq<Event>, i: nat, j: nat)
    requires
        i <= j,
        state_after(cfg, events, i) is Finished,
    ensures
        state_after(cfg, events, j) == state_after(cfg, events, i),
    decreases j,
{
    if i < j {
        finished_stays(cfg, events, i, (j - 1) as nat);
    }
}

/// Plays a script of events to a fresh cycle, as a driver would report them,
/// and returns the state reached together with every operation the cycle asked
/// for on the way, in order.
///
/// Operation `i` is the one that event `i` answers. The list ends where the
/// cycle is over or, if the script ends first, with the operation still
/// pending.
pub fn replay(cfg: &Configuration, events: &Vec<Event>) -> (r: (Cycle, Vec<Action>))
    ensures
        r.0 == state_after(*cfg, events@, events@.len()),
        r.1@.len() <= events@.len() + 1,
        forall|i: nat| i < r.1@.len() ==> action_at(*cfg, events@, i) == Some(r.1@[i as int]),
        forall|i: nat| r.1@.len() <= i <= events@.len() ==> action_at(*cfg, events@, i) is None,
{
    let mut at = Cycle::start();
    let mut actions: Vec<Action> = Vec::new();
    let mut n: usize = 0;
    while n < events.len()
        invariant
            n <= events@.len(),
            at == state_after(*cfg, events@, n as nat),
            actions@.len() <= n,
            forall|i: nat| i < actions@.len() ==> action_at(*cfg, events@, i) == Some(actions@[i as int]),
            forall|i: nat| actions@.len() <= i < n ==> action_at(*cfg, events@, i) is None,
        decreases events@.len() - n,
    {
        match at.action(cfg) {
            Some(action) => {
                proof {
                    if actions@.len() < n {
                        let k = actions@.len() as nat;
                        assert(action_at(*cfg, events@, k) is None);
                        finished_stays(*cfg, events@, k, n as nat);
                    }
                }
                actions.push(action);
            },
            None => {},
        }
        at = at.step(cfg, &events[n]);
        n += 1;
    }
    match at.action(cfg) {
        Some(action) => {
            proof {
                if actions@.len() < n {
                    let k = actions@.len() as nat;
                    assert(action_at(*cfg, events@, k) is None);
                    finished_stays(*cfg, events@, k, n as nat);
                }
            }
            actions.push(action);
        },
        None => {},
    }
    (at, actions)
}

} // verus!
