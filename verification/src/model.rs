//! Plain data shared by every stage of a polling cycle.

use vstd::prelude::*;

verus! {

/// Passkey offered to the bridge when none is configured.
pub const DEFAULT_PASSKEY: u32 = 123456;

/// Connection attempts made per cycle when none is configured.
pub const DEFAULT_MAX_CONNECT_RETRIES: u8 = 5;

/// Seconds to wait for discovery and for the bridge's answer when none is configured.
pub const DEFAULT_TIMEOUT_SECONDS: u8 = 10;

/// Minutes between two cycles when none is configured.
pub const DEFAULT_UPDATE_FREQUENCY_MINUTES: u8 = 1;

/// Verbosity of the log.
#[derive(Debug, Clone, Copy, PartialEq, Eq, PartialOrd, Ord, Structural)]
pub enum LogLevel {
    Off,
    Error,
    Warn,
    Info,
    Debug,
    Trace,
}

/// Hardware address of a peripheral: the only key by which it is found again
/// across discovery, pairing and connection.
#[derive(Debug, Clone, Copy, PartialEq, Eq)]
pub struct DeviceIdentity {
    pub octets: [u8; 6],
}

/// Why a cycle ended without delivering a reading.
#[derive(Debug, Clone, Copy, PartialEq, Eq, Structural)]
pub enum EngineError {
    /// The discovery wait ran out before the device appeared.
    DiscoveryTimeout,
    /// The platform refused to pair with the device.
    PairingFailed,
    /// Every connection attempt failed; the stored pairing record was removed.
    ConnectionExhausted,
    /// Every connection attempt failed and the pairing record could not be removed.
    UnpairFailed,
    /// The notify or the write characteristic is missing from the service tree.
    CharacteristicsNotFound,
    /// The notification was not UTF-8 text holding the expected JSON object.
    DecodeError,
    /// The bridge did not answer in time, or the notification stream closed.
    NoResponse,
    /// The consumer did not acknowledge the reading with a 2xx status.
    SinkPostFailed,
    /// A platform operation reported an error not covered by the kinds above.
    Transport,
}

/// One telemetry reading as handed to the consumer.
///
/// Real quantities are carried as the bit pattern of the IEEE-754 double that
/// the JSON parser gave for the bridge's number; the library moves them and
/// never computes with them.
#[derive(Debug, Clone, Copy, PartialEq, Eq, Structural)]
pub struct BatteryData {
    pub battery_level_percentage: Option<u64>,
    pub battery_level_wh: Option<u16>,
    pub reference_air_density: Option<u64>,
    pub external_temp_celsius: Option<u64>,
    pub battery_capacity_wh: Option<u32>,
}

/// Everything one cycle is configured with.
#[derive(Debug, Clone)]
pub struct Configuration {
    /// Vehicle battery capacity in Wh.
    pub vehicle_battery_capacity: u32,
    /// Address of the bridge.
    pub wican_mac_address: DeviceIdentity,
    /// Passkey supplied when the bridge asks for one.
    pub wican_passkey: u32,
    /// Connection attempts per cycle.
    pub wican_max_connect_retries: u8,
    /// Seconds to wait for discovery and for the bridge's answer.
    pub wican_timeout: u8,
    /// Minutes between two cycles.
    pub wican_update_frequency_minutes: u8,
    /// Where readings are posted.
    pub api_url: String,
    /// Where the log is written.
    pub log_file: String,
    /// Verbosity of the log.
    pub log_level: LogLevel,
}

impl Configuration {
    /// A configuration for this battery and this bridge, with every other
    /// setting at its default: passkey 123456, five connection attempts, ten
    /// seconds of waiting, one cycle per minute, the consumer on this host,
    /// the log under `/var/log` at level `Info`.
    pub fn new(vehicle_battery_capacity: u32, wican_mac_address: DeviceIdentity) -> (cfg: Configuration)
        ensures
            cfg.vehicle_battery_capacity == vehicle_battery_capacity,
            cfg.wican_mac_address == wican_mac_address,
            cfg.wican_passkey == DEFAULT_PASSKEY,
            cfg.wican_max_connect_retries == DEFAULT_MAX_CONNECT_RETRIES,
            cfg.wican_timeout == DEFAULT_TIMEOUT_SECONDS,
            cfg.wican_update_frequency_minutes == DEFAULT_UPDATE_FREQUENCY_MINUTES,
            cfg.api_url@ == "http://localhost/battery"@,
            cfg.log_file@ == "/var/log/aa-proxy-wican.log"@,
            cfg.log_level == LogLevel::Info,
    {
        Configuration {
            vehicle_battery_capacity,
            wican_mac_address,
            wican_passkey: DEFAULT_PASSKEY,
            wican_max_connect_retries: DEFAULT_MAX_CONNECT_RETRIES,
            wican_timeout: DEFAULT_TIMEOUT_SECONDS,
            wican_update_frequency_minutes: DEFAULT_UPDATE_FREQUENCY_MINUTES,
            api_url: "http://localhost/battery".to_owned(),
            log_file: "/var/log/aa-proxy-wican.log".to_owned(),
            log_level: LogLevel::Info,
        }
    }
}

impl EngineError {
    /// Whether the error is the expected, quiet kind: only a missing answer is.
    pub fn is_benign(&self) -> (r: bool)
        ensures
            r == (*self == EngineError::NoResponse),
    {
        matches!(self, EngineError::NoResponse)
    }
}

impl DeviceIdentity {
    /// Whether two identities name the same peripheral.
    pub fn same(&self, other: &DeviceIdentity) -> (r: bool)
        ensures
            r == (*self == *other),
    {
        let same = self.octets[0] == other.octets[0] && self.octets[1] == other.octets[1]
            && self.octets[2] == other.octets[2] && self.octets[3] == other.octets[3]
            && self.octets[4] == other.octets[4] && self.octets[5] == other.octets[5];
        proof {
            if same {
                assert(self.octets@ =~= other.octets@);
                assert(self.octets == other.octets);
            }
        }
        same
    }
}

impl Default for BatteryData {
    fn default() -> (r: BatteryData)
        ensures
            r == (BatteryData {
                battery_level_percentage: None,
                battery_level_wh: None,
                reference_air_density: None,
                external_temp_celsius: None,
                battery_capacity_wh: None,
            }),
    {
        BatteryData {
            battery_level_percentage: None,
            battery_level_wh: None,
            reference_air_density: None,
            external_temp_celsius: None,
            battery_capacity_wh: None,
        }
    }
}

} // verus!
