//! Decision logic of a client that polls a WiCAN CAN-bus bridge over Bluetooth
//! Low Energy for battery telemetry and relays it to an HTTP consumer.
//!
//! The library never touches a radio, a clock or a socket. One polling cycle is
//! a state machine: it names the next platform operation as an [`Action`], the
//! caller performs it and reports what happened as an [`Event`], and the machine
//! moves on. Everything the machine decides is stated in contracts and proved.

pub mod connection;
pub mod cycle;
pub mod decode;
pub mod exchange;
pub mod laws;
pub mod locator;
pub mod model;
pub mod pairing;
pub mod resolver;
pub mod sink;
pub mod transport;

pub use cycle::Cycle;
pub use model::{BatteryData, Configuration, DeviceIdentity, EngineError, LogLevel};
pub use transport::{Action, Event, Progress};
