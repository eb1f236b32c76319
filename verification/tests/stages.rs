use wican_client::connection::{connect_to_device, Connecting};
use wican_client::exchange::{command_payload, fetch_data, Exchanging};
use wican_client::locator::{find_device, Locating};
use wican_client::pairing::{supply_passkey, try_pair, Pairing};
use wican_client::resolver::{CharacteristicPair, Endpoint, NOTIFY_UUID, WRITE_UUID};
use wican_client::sink::post_battery_data;
use wican_client::transport::BACKOFF_SECONDS;
use wican_client::{Action, Configuration, DeviceIdentity, EngineError, Event, Progress};

fn bridge() -> DeviceIdentity {
    DeviceIdentity { octets: [0xaa, 0xbb, 0xcc, 0x01, 0x02, 0x03] }
}

fn stranger() -> DeviceIdentity {
    DeviceIdentity { octets: [0xaa, 0xbb, 0xcc, 0x01, 0x02, 0x04] }
}

fn config(retries: u8) -> Configuration {
    let mut cfg = Configuration::new(64000, bridge());
    cfg.wican_max_connect_retries = retries;
    cfg
}

fn pair() -> CharacteristicPair {
    CharacteristicPair {
        notify: Endpoint { service: 2, characteristic: 0 },
        write: Endpoint { service: 2, characteristic: 1 },
    }
}

#[test]
fn known_device_is_found_without_a_scan() {
    assert_eq!(find_device(&bridge(), Locating::Probing, &Event::Answer(true)), Progress::Done(()));
}

#[test]
fn unknown_device_starts_a_scan() {
    for event in [Event::Answer(false), Event::Failed, Event::Completed] {
        assert_eq!(
            find_device(&bridge(), Locating::Probing, &event),
            Progress::Pending(Locating::StartingScan)
        );
    }
    assert_eq!(Locating::StartingScan.action(bridge(), 10), Action::StartScan(10));
    assert_eq!(Locating::Probing.action(bridge(), 10), Action::Probe(bridge()));
}

#[test]
fn a_scan_that_does_not_start_is_a_transport_failure() {
    assert_eq!(
        find_device(&bridge(), Locating::StartingScan, &Event::Failed),
        Progress::Failed(EngineError::Transport)
    );
    assert_eq!(
        find_device(&bridge(), Locating::StartingScan, &Event::Completed),
        Progress::Pending(Locating::Scanning)
    );
}

#[test]
fn a_scan_waits_for_the_target_only() {
    for event in [Event::Appeared(stranger()), Event::Unrelated, Event::Closed, Event::Failed] {
        assert_eq!(
            find_device(&bridge(), Locating::Scanning, &event),
            Progress::Pending(Locating::Scanning)
        );
    }
    assert_eq!(
        find_device(&bridge(), Locating::Scanning, &Event::Appeared(bridge())),
        Progress::Pending(Locating::Stopping(true))
    );
    assert_eq!(Locating::Scanning.action(bridge(), 10), Action::NextScanEvent);
}

#[test]
fn a_scan_is_cancelled_on_both_ways_out() {
    assert_eq!(
        find_device(&bridge(), Locating::Scanning, &Event::Elapsed),
        Progress::Pending(Locating::Stopping(false))
    );
    assert_eq!(Locating::Stopping(true).action(bridge(), 10), Action::StopScan);
    assert_eq!(Locating::Stopping(false).action(bridge(), 10), Action::StopScan);
    assert_eq!(find_device(&bridge(), Locating::Stopping(true), &Event::Completed), Progress::Done(()));
    assert_eq!(
        find_device(&bridge(), Locating::Stopping(false), &Event::Completed),
        Progress::Failed(EngineError::DiscoveryTimeout)
    );
}

#[test]
fn identities_compare_by_their_octets() {
    assert!(bridge().same(&bridge()));
    assert!(!bridge().same(&stranger()));
    assert!(!DeviceIdentity { octets: [1, 0, 0, 0, 0, 0] }.same(&DeviceIdentity { octets: [0; 6] }));
}

#[test]
fn paired_device_is_not_paired_again() {
    assert_eq!(try_pair(Pairing::Checking, &Event::Answer(true)), Progress::Done(()));
}

#[test]
fn unpaired_device_is_paired_through_an_agent() {
    assert_eq!(try_pair(Pairing::Checking, &Event::Answer(false)), Progress::Pending(Pairing::Registering));
    assert_eq!(Pairing::Registering.action(123456), Action::RegisterAgent(123456));
    assert_eq!(try_pair(Pairing::Registering, &Event::Completed), Progress::Pending(Pairing::Requesting));
    assert_eq!(Pairing::Requesting.action(123456), Action::Pair);
    assert_eq!(try_pair(Pairing::Requesting, &Event::Completed), Progress::Pending(Pairing::Releasing(true)));
    assert_eq!(Pairing::Releasing(true).action(123456), Action::ReleaseAgent);
    assert_eq!(try_pair(Pairing::Releasing(true), &Event::Completed), Progress::Done(()));
}

#[test]
fn refused_pairing_fails_after_the_agent_is_released() {
    assert_eq!(try_pair(Pairing::Requesting, &Event::Failed), Progress::Pending(Pairing::Releasing(false)));
    assert_eq!(Pairing::Releasing(false).action(1), Action::ReleaseAgent);
    assert_eq!(
        try_pair(Pairing::Releasing(false), &Event::Completed),
        Progress::Failed(EngineError::PairingFailed)
    );
}

#[test]
fn pairing_questions_that_fail_are_transport_failures() {
    assert_eq!(try_pair(Pairing::Checking, &Event::Failed), Progress::Failed(EngineError::Transport));
    assert_eq!(try_pair(Pairing::Registering, &Event::Failed), Progress::Failed(EngineError::Transport));
}

#[test]
fn the_agent_supplies_the_configured_passkey() {
    assert_eq!(supply_passkey(123456), 123456);
    assert_eq!(supply_passkey(0), 0);
    assert_eq!(supply_passkey(999999), 999999);
}

#[test]
fn connecting_runs_locating_then_pairing() {
    let cfg = config(5);
    assert_eq!(
        connect_to_device(&cfg, Connecting::Locate(Locating::Probing), &Event::Answer(true)),
        Progress::Pending(Connecting::Pair(Pairing::Checking))
    );
    assert_eq!(
        connect_to_device(&cfg, Connecting::Locate(Locating::Scanning), &Event::Appeared(bridge())),
        Progress::Pending(Connecting::Locate(Locating::Stopping(true)))
    );
    assert_eq!(
        connect_to_device(&cfg, Connecting::Locate(Locating::Stopping(false)), &Event::Completed),
        Progress::Failed(EngineError::DiscoveryTimeout)
    );
    assert_eq!(
        connect_to_device(&cfg, Connecting::Pair(Pairing::Checking), &Event::Answer(true)),
        Progress::Pending(Connecting::Checking)
    );
    assert_eq!(
        connect_to_device(&cfg, Connecting::Pair(Pairing::Releasing(false)), &Event::Completed),
        Progress::Failed(EngineError::PairingFailed)
    );
    assert_eq!(Connecting::Locate(Locating::Probing).action(&cfg), Action::Probe(bridge()));
    assert_eq!(Connecting::Locate(Locating::StartingScan).action(&cfg), Action::StartScan(10));
    assert_eq!(Connecting::Pair(Pairing::Registering).action(&cfg), Action::RegisterAgent(123456));
}

#[test]
fn connected_device_is_not_connected_again() {
    let cfg = config(5);
    assert_eq!(Connecting::Checking.action(&cfg), Action::QueryConnected);
    assert_eq!(connect_to_device(&cfg, Connecting::Checking, &Event::Answer(true)), Progress::Done(()));
    assert_eq!(
        connect_to_device(&cfg, Connecting::Checking, &Event::Failed),
        Progress::Failed(EngineError::Transport)
    );
}

#[test]
fn attempts_are_counted_from_one() {
    let cfg = config(3);
    assert_eq!(
        connect_to_device(&cfg, Connecting::Checking, &Event::Answer(false)),
        Progress::Pending(Connecting::Attempt(1))
    );
    assert_eq!(Connecting::Attempt(1).action(&cfg), Action::Connect);
    assert_eq!(connect_to_device(&cfg, Connecting::Attempt(1), &Event::Completed), Progress::Done(()));
    assert_eq!(connect_to_device(&cfg, Connecting::Attempt(3), &Event::Completed), Progress::Done(()));
}

#[test]
fn failed_attempt_backs_off_ten_seconds() {
    let cfg = config(3);
    assert_eq!(BACKOFF_SECONDS, 10);
    assert_eq!(
        connect_to_device(&cfg, Connecting::Attempt(1), &Event::Failed),
        Progress::Pending(Connecting::Backoff(1))
    );
    assert_eq!(Connecting::Backoff(1).action(&cfg), Action::Sleep(10));
    assert_eq!(
        connect_to_device(&cfg, Connecting::Backoff(1), &Event::Completed),
        Progress::Pending(Connecting::Attempt(2))
    );
    assert_eq!(
        connect_to_device(&cfg, Connecting::Attempt(2), &Event::Failed),
        Progress::Pending(Connecting::Backoff(2))
    );
    assert_eq!(
        connect_to_device(&cfg, Connecting::Backoff(2), &Event::Completed),
        Progress::Pending(Connecting::Attempt(3))
    );
}

#[test]
fn last_failed_attempt_removes_the_pairing() {
    let cfg = config(3);
    assert_eq!(
        connect_to_device(&cfg, Connecting::Attempt(3), &Event::Failed),
        Progress::Pending(Connecting::Unpairing)
    );
    assert_eq!(Connecting::Unpairing.action(&cfg), Action::RemovePairing(bridge()));
    assert_eq!(
        connect_to_device(&cfg, Connecting::Unpairing, &Event::Completed),
        Progress::Failed(EngineError::ConnectionExhausted)
    );
    assert_eq!(
        connect_to_device(&cfg, Connecting::Unpairing, &Event::Failed),
        Progress::Failed(EngineError::UnpairFailed)
    );
}

#[test]
fn a_single_attempt_has_no_backoff() {
    let cfg = config(1);
    assert_eq!(
        connect_to_device(&cfg, Connecting::Attempt(1), &Event::Failed),
        Progress::Pending(Connecting::Unpairing)
    );
}

#[test]
fn with_the_highest_limit_the_count_does_not_wrap() {
    let cfg = config(255);
    assert_eq!(
        connect_to_device(&cfg, Connecting::Backoff(254), &Event::Completed),
        Progress::Pending(Connecting::Attempt(255))
    );
    assert_eq!(
        connect_to_device(&cfg, Connecting::Attempt(255), &Event::Failed),
        Progress::Pending(Connecting::Unpairing)
    );
    assert_eq!(
        connect_to_device(&cfg, Connecting::Backoff(255), &Event::Completed),
        Progress::Pending(Connecting::Unpairing)
    );
}

#[test]
fn no_attempts_configured_means_none_made() {
    let cfg = config(0);
    assert_eq!(
        connect_to_device(&cfg, Connecting::Checking, &Event::Answer(false)),
        Progress::Pending(Connecting::Unpairing)
    );
    assert_eq!(Connecting::Unpairing.action(&cfg), Action::RemovePairing(bridge()));
    assert_eq!(
        connect_to_device(&cfg, Connecting::Unpairing, &Event::Completed),
        Progress::Failed(EngineError::ConnectionExhausted)
    );
    assert_eq!(connect_to_device(&cfg, Connecting::Checking, &Event::Answer(true)), Progress::Done(()));
}

#[test]
fn the_stage_is_done_only_with_a_connected_device() {
    for retries in [0u8, 1, 3] {
        let cfg = config(retries);
        for event in [Event::Answer(false), Event::Failed, Event::Completed, Event::Elapsed] {
            assert_ne!(connect_to_device(&cfg, Connecting::Checking, &event), Progress::Done(()));
        }
        for event in [Event::Answer(true), Event::Answer(false), Event::Failed, Event::Elapsed] {
            assert_ne!(connect_to_device(&cfg, Connecting::Attempt(1), &event), Progress::Done(()));
            assert_ne!(connect_to_device(&cfg, Connecting::Backoff(1), &event), Progress::Done(()));
            assert_ne!(connect_to_device(&cfg, Connecting::Unpairing, &event), Progress::Done(()));
        }
    }
}

#[test]
fn the_command_is_autopid() {
    assert_eq!(command_payload(), b"autopid -d\n".to_vec());
}

#[test]
fn exchange_subscribes_before_it_writes() {
    let tree = vec![vec![1], vec![2, 3], vec![NOTIFY_UUID, WRITE_UUID]];
    assert_eq!(Exchanging::Resolving.action(10), Action::ListCharacteristics);
    assert_eq!(
        fetch_data(64000, Exchanging::Resolving, &Event::Characteristics(tree)),
        Progress::Pending(Exchanging::Subscribing(pair()))
    );
    assert_eq!(Exchanging::Subscribing(pair()).action(10), Action::Subscribe(pair().notify));
    assert_eq!(
        fetch_data(64000, Exchanging::Subscribing(pair()), &Event::Completed),
        Progress::Pending(Exchanging::Writing(pair()))
    );
    assert_eq!(Exchanging::Writing(pair()).action(10), Action::WriteCommand(pair().write));
    assert_eq!(
        fetch_data(64000, Exchanging::Writing(pair()), &Event::Completed),
        Progress::Pending(Exchanging::Awaiting)
    );
    assert_eq!(Exchanging::Awaiting.action(10), Action::AwaitNotification(10));
}

#[test]
fn exchange_fails_without_both_characteristics() {
    assert_eq!(
        fetch_data(64000, Exchanging::Resolving, &Event::Characteristics(vec![vec![NOTIFY_UUID]])),
        Progress::Failed(EngineError::CharacteristicsNotFound)
    );
    assert_eq!(
        fetch_data(64000, Exchanging::Resolving, &Event::Characteristics(vec![vec![WRITE_UUID]])),
        Progress::Failed(EngineError::CharacteristicsNotFound)
    );
    assert_eq!(
        fetch_data(64000, Exchanging::Resolving, &Event::Failed),
        Progress::Failed(EngineError::Transport)
    );
}

#[test]
fn failed_subscription_or_write_ends_the_exchange() {
    assert_eq!(
        fetch_data(64000, Exchanging::Subscribing(pair()), &Event::Failed),
        Progress::Failed(EngineError::Transport)
    );
    assert_eq!(
        fetch_data(64000, Exchanging::Writing(pair()), &Event::Failed),
        Progress::Failed(EngineError::Transport)
    );
}

#[test]
fn wait_that_runs_out_gives_no_reading_and_no_error() {
    assert_eq!(fetch_data(64000, Exchanging::Awaiting, &Event::Elapsed), Progress::Done(None));
}

#[test]
fn closed_stream_gives_no_reading_and_no_error() {
    assert_eq!(fetch_data(64000, Exchanging::Awaiting, &Event::Closed), Progress::Done(None));
}

#[test]
fn notification_is_decoded() {
    let answer = Event::Notification(b"{\"SOC\": 55.0, \"SOC_D\": 58.2}\n".to_vec());
    match fetch_data(64000, Exchanging::Awaiting, &answer) {
        Progress::Done(Some(reading)) => {
            assert_eq!(reading.battery_level_percentage, Some(58.2f64.to_bits()));
            assert_eq!(reading.battery_capacity_wh, Some(64000));
            assert_eq!(reading.external_temp_celsius, None);
        }
        other => panic!("no reading: {:?}", other),
    }
}

#[test]
fn malformed_notification_is_a_decode_error() {
    assert_eq!(
        fetch_data(64000, Exchanging::Awaiting, &Event::Notification(b"OK".to_vec())),
        Progress::Failed(EngineError::DecodeError)
    );
    assert_eq!(
        fetch_data(64000, Exchanging::Awaiting, &Event::Notification(vec![0x80, 0x81])),
        Progress::Failed(EngineError::DecodeError)
    );
}

#[test]
fn only_a_2xx_status_acknowledges() {
    for status in [200u16, 201, 204, 299] {
        assert_eq!(post_battery_data(&Event::Status(status)), Ok(()));
    }
    for status in [0u16, 100, 199, 300, 301, 404, 500, 65535] {
        assert_eq!(post_battery_data(&Event::Status(status)), Err(EngineError::SinkPostFailed));
    }
    assert_eq!(post_battery_data(&Event::Failed), Err(EngineError::SinkPostFailed));
    assert_eq!(post_battery_data(&Event::Completed), Err(EngineError::SinkPostFailed));
}
