//! The single command and response exchange with a connected bridge.
//!
//! The service tree is resolved, the notify characteristic is subscribed, and
//! only then the command is written, so that no answer can be lost. The first
//! notification is decoded into a reading. A wait that runs out or a stream
//! that closes ends the exchange without a reading and without an error.

use vstd::prelude::*;
use vstd::utf8::valid_utf8;
use crate::decode::{decode_response, decoded};
use crate::model::{BatteryData, EngineError};
use crate::resolver::{find_characteristics, resolved, CharacteristicPair};
use crate::transport::{Action, Event, Progress};

verus! {

/// The states of an exchange.
#[derive(Debug, Clone, Copy, PartialEq, Eq, Structural)]
pub enum Exchanging {
    /// Waiting for the service tree.
    Resolving,
    /// Waiting for the subscription to stand.
    Subscribing(CharacteristicPair),
    /// Waiting for the command to be written.
    Writing(CharacteristicPair),
    /// Waiting for the bridge's answer.
    Awaiting,
}

/// The command sent to the bridge: the ASCII text `autopid -d` and a line feed.
pub open spec fn command() -> Seq<u8> {
    seq![0x61u8, 0x75u8, 0x74u8, 0x6fu8, 0x70u8, 0x69u8, 0x64u8, 0x20u8, 0x2du8, 0x64u8, 0x0au8]
}

/// The operation that an exchange in this state waits for.
pub open spec fn exchange_action(wait: u8, at: Exchanging) -> Action {
    match at {
        Exchanging::Resolving => Action::ListCharacteristics,
        Exchanging::Subscribing(pair) => Action::Subscribe(pair.notify),
        Exchanging::Writing(pair) => Action::WriteCommand(pair.write),
        Exchanging::Awaiting => Action::AwaitNotification(wait),
    }
}

/// Where an exchange stands after an event.
pub open spec fn fetch_step(capacity: u32, at: Exchanging, event: Event) -> Progress<
    Exchanging,
    Option<BatteryData>,
> {
    match at {
        Exchanging::Resolving => match event {
            Event::Characteristics(tree) => match resolved(tree@) {
                Ok(pair) => Progress::Pending(Exchanging::Subscribing(pair)),
                Err(e) => Progress::Failed(e),
            },
            _ => Progress::Failed(EngineError::Transport),
        },
        Exchanging::Subscribing(pair) => match event {
            Event::Completed => Progress::Pending(Exchanging::Writing(pair)),
            _ => Progress::Failed(EngineError::Transport),
        },
        Exchanging::Writing(_) => match event {
            Event::Completed => Progress::Pending(Exchanging::Awaiting),
            _ => Progress::Failed(EngineError::Transport),
        },
        Exchanging::Awaiting => match event {
            Event::Notification(bytes) => match decoded(bytes@, capacity) {
                Ok(reading) => Progress::Done(Some(reading)),
                Err(e) => Progress::Failed(e),
            },
            Event::Elapsed => Progress::Done(None),
            Event::Closed => Progress::Done(None),
            _ => Progress::Failed(EngineError::Transport),
        },
    }
}

/// The bytes of the command.
pub fn command_payload() -> (payload: Vec<u8>)
    ensures
        payload@ == command(),
{
    let payload = vec![0x61u8, 0x75u8, 0x74u8, 0x6fu8, 0x70u8, 0x69u8, 0x64u8, 0x20u8, 0x2du8, 0x64u8, 0x0au8];
    assert(payload@ =~= command());
    payload
}

impl Exchanging {
    /// The operation that the exchange waits for; `wait` is the number of
    /// seconds granted to the bridge's answer.
    pub fn action(&self, wait: u8) -> (action: Action)
        ensures
            action == exchange_action(wait, *self),
    {
        match self {
            Exchanging::Resolving => Action::ListCharacteristics,
            Exchanging::Subscribing(pair) => Action::Subscribe(pair.notify),
            Exchanging::Writing(pair) => Action::WriteCommand(pair.write),
            Exchanging::Awaiting => Action::AwaitNotification(wait),
        }
    }
}

/// Advances an exchange by the event that answers its pending operation.
///
/// The command is written only from the state that a completed subscription
/// leads to. While the answer is awaited, a wait that ran out or a closed
/// stream gives no reading and no error; a notification gives its reading or
/// `DecodeError`. Any report that the pending operation cannot give counts as a
/// failure of the platform.
pub fn fetch_data(capacity: u32, at: Exchanging, event: &Event) -> (r: Progress<
    Exchanging,
    Option<BatteryData>,
>)
    ensures
        r == fetch_step(capacity, at, *event),
        r matches Progress::Pending(Exchanging::Writing(pair)) ==> at == Exchanging::Subscribing(pair)
            && *event == Event::Completed,
        at == Exchanging::Awaiting && (*event == Event::Elapsed || *event == Event::Closed) ==> r
            == Progress::<Exchanging, Option<BatteryData>>::Done(None),
        at == Exchanging::Awaiting ==> (forall|bytes: Vec<u8>|
            *event == Event::Notification(bytes) && !valid_utf8(bytes@) ==> r == Progress::<
                Exchanging,
                Option<BatteryData>,
            >::Failed(EngineError::DecodeError)),
        r matches Progress::Done(Some(reading)) ==> at == Exchanging::Awaiting && (exists|bytes: Vec<u8>|
            *event == Event::Notification(bytes) && decoded(bytes@, capacity) == Ok::<
                BatteryData,
                EngineError,
            >(reading)),
{
    match at {
        Exchanging::Resolving => match event {
            Event::Characteristics(tree) => match find_characteristics(tree) {
                Ok(pair) => Progress::Pending(Exchanging::Subscribing(pair)),
                Err(e) => Progress::Failed(e),
            },
            _ => Progress::Failed(EngineError::Transport),
        },
        Exchanging::Subscribing(pair) => match event {
            Event::Completed => Progress::Pending(Exchanging::Writing(pair)),
            _ => Progress::Failed(EngineError::Transport),
        },
        Exchanging::Writing(_) => match event {
            Event::Completed => Progress::Pending(Exchanging::Awaiting),
            _ => Progress::Failed(EngineError::Transport),
        },
        Exchanging::Awaiting => match event {
            Event::Notification(bytes) => match decode_response(bytes, capacity) {
                Ok(reading) => Progress::Done(Some(reading)),
                Err(e) => Progress::Failed(e),
            },
            Event::Elapsed => Progress::Done(None),
            Event::Closed => Progress::Done(None),
            _ => Progress::Failed(EngineError::Transport),
        },
    }
}

} // verus!
