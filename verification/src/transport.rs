//! The vocabulary between the decision logic and whoever drives the platform.
//!
//! The logic names one operation at a time as an [`Action`]. The driver
//! performs it and reports the result as an [`Event`], which the logic answers
//! with its next state.

use vstd::prelude::*;
use crate::model::{BatteryData, DeviceIdentity, EngineError};
use crate::resolver::Endpoint;

verus! {

/// Seconds slept between two connection attempts.
pub const BACKOFF_SECONDS: u8 = 10;

/// A platform operation for the driver to perform.
#[derive(Debug, Clone, Copy, PartialEq, Eq)]
pub enum Action {
    /// Ask whether the device is already known with its services resolved.
    Probe(DeviceIdentity),
    /// Start a discovery scan that may be observed for this many seconds,
    /// counted from the moment it runs.
    StartScan(u8),
    /// Report the scan's next event, or that the scan's time is over.
    NextScanEvent,
    /// Cancel the scan and release it.
    StopScan,
    /// Ask whether the device is paired.
    QueryPaired,
    /// Register an authentication agent that answers every passkey request
    /// with this passkey.
    RegisterAgent(u32),
    /// Pair with the device.
    Pair,
    /// Unregister the authentication agent.
    ReleaseAgent,
    /// Ask whether the device is connected.
    QueryConnected,
    /// Try once to connect.
    Connect,
    /// Sleep for this many seconds.
    Sleep(u8),
    /// Remove the stored pairing record of the device.
    RemovePairing(DeviceIdentity),
    /// List the characteristic UUIDs of every service of the device.
    ListCharacteristics,
    /// Subscribe to the notifications of a characteristic.
    Subscribe(Endpoint),
    /// Write the command to a characteristic.
    WriteCommand(Endpoint),
    /// Report the first notification, or that none came within this many
    /// seconds, or that the stream closed.
    AwaitNotification(u8),
    /// Post a reading to the consumer.
    Post(BatteryData),
}

/// What the driver reports after performing an action.
#[derive(Debug, Clone, PartialEq, Eq)]
pub enum Event {
    /// The operation succeeded and has nothing to tell.
    Completed,
    /// The platform reported an error.
    Failed,
    /// The answer to a question.
    Answer(bool),
    /// The scan saw a device appear.
    Appeared(DeviceIdentity),
    /// The scan reported anything else.
    Unrelated,
    /// The time to wait is over.
    Elapsed,
    /// The stream ended.
    Closed,
    /// The characteristic UUIDs of each service, in listing order.
    Characteristics(Vec<Vec<u128>>),
    /// The bytes of one notification.
    Notification(Vec<u8>),
    /// The status code of the consumer's HTTP response.
    Status(u16),
}

/// Where a stage stands after an event.
#[derive(Debug, Clone, Copy, PartialEq, Eq)]
pub enum Progress<S, T> {
    /// The stage goes on from this state.
    Pending(S),
    /// The stage is done with this result.
    Done(T),
    /// The stage failed and the cycle is over.
    Failed(EngineError),
}

} // verus!
