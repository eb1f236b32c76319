//! What holds of every cycle, whatever the platform reports.
//!
//! A run is a sequence of events handed to a fresh cycle. Operation `n` is the
//! one pending after the first `n` events; event `n` reports on it. Each law
//! below speaks of all configurations and all runs.

use vstd::prelude::*;
use vstd::utf8::{decode_utf8, valid_utf8};
use crate::connection::Connecting;
use crate::cycle::{action_at, cycle_step, initial, state_after, Cycle};
use crate::decode::{json_document, trimmed_end};
use crate::exchange::Exchanging;
use crate::locator::Locating;
use crate::model::{BatteryData, Configuration, EngineError};
use crate::pairing::Pairing;
use crate::resolver::{occurs, NOTIFY_UUID, WRITE_UUID};
use crate::sink::acknowledged;
use crate::transport::{Action, Event, BACKOFF_SECONDS};

verus! {

/// How far along its way a cycle is: no event ever takes a cycle to a state of
/// lower rank.
pub open spec fn rank(at: Cycle) -> nat {
    match at {
        Cycle::Connect(Connecting::Locate(Locating::Probing)) => 0,
        Cycle::Connect(Connecting::Locate(Locating::StartingScan)) => 1,
        Cycle::Connect(Connecting::Locate(Locating::Scanning)) => 2,
        Cycle::Connect(Connecting::Locate(Locating::Stopping(_))) => 3,
        Cycle::Connect(Connecting::Pair(Pairing::Checking)) => 4,
        Cycle::Connect(Connecting::Pair(Pairing::Registering)) => 5,
        Cycle::Connect(Connecting::Pair(Pairing::Requesting)) => 6,
        Cycle::Connect(Connecting::Pair(Pairing::Releasing(_))) => 7,
        Cycle::Connect(Connecting::Checking) => 8,
        Cycle::Connect(Connecting::Attempt(n)) => (10 + 2 * n) as nat,
        Cycle::Connect(Connecting::Backoff(n)) => (11 + 2 * n) as nat,
        Cycle::Connect(Connecting::Unpairing) => 600,
        Cycle::Exchange(Exchanging::Resolving) => 601,
        Cycle::Exchange(Exchanging::Subscribing(_)) => 602,
        Cycle::Exchange(Exchanging::Writing(_)) => 603,
        Cycle::Exchange(Exchanging::Awaiting) => 604,
        Cycle::Post(_) => 605,
        Cycle::Finished(_) => 606,
    }
}

/// The number of connection attempts among the first `n` operations.
pub open spec fn attempts_made(cfg: Configuration, events: Seq<Event>, n: nat) -> nat
    decreases n,
{
    if n == 0 {
        0
    } else {
        let earlier = attempts_made(cfg, events, (n - 1) as nat);
        if action_at(cfg, events, (n - 1) as nat) == Some(Action::Connect) {
            earlier + 1
        } else {
            earlier
        }
    }
}

/// One event never lowers the rank, and raises it from every state but a
/// running scan and the end.
pub proof fn step_raises_rank(cfg: Configuration, at: Cycle, event: Event)
    ensures
        rank(cycle_step(cfg, at, event)) >= rank(at),
        !(at is Finished) && at != Cycle::Connect(Connecting::Locate(Locating::Scanning)) ==> rank(
            cycle_step(cfg, at, event),
        ) > rank(at),
        cycle_step(cfg, at, event) != initial(),
{
}

/// Along a run the rank never falls.
pub proof fn rank_never_falls(cfg: Configuration, events: Seq<Event>, i: nat, j: nat)
    requires
        i <= j,
    ensures
        rank(state_after(cfg, events, i)) <= rank(state_after(cfg, events, j)),
    decreases j,
{
    if i < j {
        rank_never_falls(cfg, events, i, (j - 1) as nat);
        step_raises_rank(cfg, state_after(cfg, events, (j - 1) as nat), events[j - 1]);
    }
}

/// Every state of a run can arise under the configuration: an attempt's number
/// never exceeds the configured limit.
pub proof fn runs_stay_well_formed(cfg: Configuration, events: Seq<Event>, n: nat)
    ensures
        state_after(cfg, events, n).well_formed(cfg),
    decreases n,
{
    if n > 0 {
        runs_stay_well_formed(cfg, events, (n - 1) as nat);
    }
}

/// Scan avoidance: when the probe finds the device known with its services
/// resolved, no discovery scan is ever started in that cycle.
pub proof fn known_device_is_never_scanned(cfg: Configuration, events: Seq<Event>)
    requires
        events.len() > 0,
        events[0] == Event::Answer(true),
    ensures
        action_at(cfg, events, 0) == Some(Action::Probe(cfg.wican_mac_address)),
        forall|n: nat| !(#[trigger] action_at(cfg, events, n) is Some && action_at(cfg, events, n)->0 is StartScan),
{
    assert(state_after(cfg, events, 1) == cycle_step(cfg, state_after(cfg, events, 0), events[0]));
    assert forall|n: nat| !(#[trigger] action_at(cfg, events, n) is Some && action_at(cfg, events, n)->0 is StartScan) by {
        if n >= 1 {
            rank_never_falls(cfg, events, 1, n);
        }
    }
}

/// A scan is started at most once, and only in answer to a probe that did not
/// find the device known.
pub proof fn scan_starts_after_failed_probe(cfg: Configuration, events: Seq<Event>, n: nat)
    requires
        action_at(cfg, events, n) is Some,
        action_at(cfg, events, n)->0 is StartScan,
    ensures
        n == 1,
        events[0] != Event::Answer(true),
{
    assert(state_after(cfg, events, 1) == cycle_step(cfg, state_after(cfg, events, 0), events[0]));
    if n >= 2 {
        assert(state_after(cfg, events, 2) == cycle_step(cfg, state_after(cfg, events, 1), events[1]));
        step_raises_rank(cfg, state_after(cfg, events, 0), events[0]);
        step_raises_rank(cfg, state_after(cfg, events, 1), events[1]);
        rank_never_falls(cfg, events, 2, n);
    }
}

/// Every scan that ran is cancelled before the cycle leaves the locator.
pub proof fn scan_is_cancelled(cfg: Configuration, events: Seq<Event>, n: nat)
    requires
        n >= 2,
        action_at(cfg, events, 1) is Some,
        action_at(cfg, events, 1)->0 is StartScan,
        events[1] == Event::Completed,
        !(state_after(cfg, events, n) matches Cycle::Connect(Connecting::Locate(_))),
    ensures
        exists|i: nat| i < n && #[trigger] action_at(cfg, events, i) == Some(Action::StopScan),
    decreases n,
{
    assert(state_after(cfg, events, 2) == cycle_step(cfg, state_after(cfg, events, 1), events[1]));
    assert(state_after(cfg, events, 2) == Cycle::Connect(Connecting::Locate(Locating::Scanning)));
    let before = state_after(cfg, events, (n - 1) as nat);
    rank_never_falls(cfg, events, 2, (n - 1) as nat);
    if before matches Cycle::Connect(Connecting::Locate(_)) {
        assert(before is Connect && before->Connect_0 is Locate && before->Connect_0->Locate_0 is Stopping);
        assert(action_at(cfg, events, (n - 1) as nat) == Some(Action::StopScan));
    } else {
        scan_is_cancelled(cfg, events, (n - 1) as nat);
        let i = choose|i: nat| i < n - 1 && #[trigger] action_at(cfg, events, i) == Some(Action::StopScan);
        assert(i < n && action_at(cfg, events, i) == Some(Action::StopScan));
    }
}

/// Idempotence of pairing: when the device is reported as paired, no agent is
/// registered and no pairing is asked for, anywhere in that cycle.
pub proof fn paired_device_is_left_alone(cfg: Configuration, events: Seq<Event>, i: nat)
    requires
        i < events.len(),
        action_at(cfg, events, i) == Some(Action::QueryPaired),
        events[i as int] == Event::Answer(true),
    ensures
        forall|n: nat|
            !(#[trigger] action_at(cfg, events, n) is Some && (action_at(cfg, events, n)->0 is RegisterAgent
                || action_at(cfg, events, n)->0 is Pair)),
{
    assert(state_after(cfg, events, i) == Cycle::Connect(Connecting::Pair(Pairing::Checking)));
    assert(state_after(cfg, events, i + 1) == cycle_step(cfg, state_after(cfg, events, i), events[i as int]));
    assert forall|n: nat|
        !(#[trigger] action_at(cfg, events, n) is Some && (action_at(cfg, events, n)->0 is RegisterAgent
            || action_at(cfg, events, n)->0 is Pair)) by {
        if n <= i {
            rank_never_falls(cfg, events, n, i);
        } else {
            rank_never_falls(cfg, events, i + 1, n);
        }
    }
}

/// Recovery: when the attempt that exhausts the configured limit fails, the
/// next operation is the removal of the device's pairing record, and the cycle
/// ends with the answer to it: with `ConnectionExhausted` when the record is
/// gone, with `UnpairFailed` otherwise.
pub proof fn last_failed_attempt_unpairs(cfg: Configuration, events: Seq<Event>, i: nat)
    requires
        action_at(cfg, events, i) == Some(Action::Connect),
        attempts_made(cfg, events, i) + 1 == cfg.wican_max_connect_retries,
        events[i as int] != Event::Completed,
    ensures
        action_at(cfg, events, i + 1) == Some(Action::RemovePairing(cfg.wican_mac_address)),
        state_after(cfg, events, i + 2) == Cycle::Finished(
            Err(
                if events[i as int + 1] == Event::Completed {
                    EngineError::ConnectionExhausted
                } else {
                    EngineError::UnpairFailed
                },
            ),
        ),
{
    attempts_follow_state(cfg, events, i);
    assert(state_after(cfg, events, i) == Cycle::Connect(Connecting::Attempt(cfg.wican_max_connect_retries)));
    assert(state_after(cfg, events, i + 1) == cycle_step(cfg, state_after(cfg, events, i), events[i as int]));
    assert(state_after(cfg, events, i + 2) == cycle_step(
        cfg,
        state_after(cfg, events, i + 1),
        events[i as int + 1],
    ));
}

/// Backoff: when an attempt fails that does not exhaust the configured limit,
/// the cycle sleeps for the fixed backoff and then tries again.
pub proof fn failed_attempt_is_retried(cfg: Configuration, events: Seq<Event>, i: nat)
    requires
        action_at(cfg, events, i) == Some(Action::Connect),
        attempts_made(cfg, events, i) + 1 < cfg.wican_max_connect_retries,
        events[i as int] != Event::Completed,
    ensures
        action_at(cfg, events, i + 1) == Some(Action::Sleep(BACKOFF_SECONDS)),
        action_at(cfg, events, i + 2) == Some(Action::Connect),
        attempts_made(cfg, events, i + 2) == attempts_made(cfg, events, i) + 1,
{
    attempts_follow_state(cfg, events, i);
    assert(state_after(cfg, events, i + 1) == cycle_step(cfg, state_after(cfg, events, i), events[i as int]));
    assert(state_after(cfg, events, i + 2) == cycle_step(
        cfg,
        state_after(cfg, events, i + 1),
        events[i as int + 1],
    ));
    assert(attempts_made(cfg, events, i + 2) == attempts_made(cfg, events, i + 1));
    assert(attempts_made(cfg, events, i + 1) == attempts_made(cfg, events, i) + 1);
}

/// Recovery: a cycle ends with `ConnectionExhausted` only after the pairing
/// record of the device was removed.
pub proof fn exhaustion_follows_unpairing(cfg: Configuration, events: Seq<Event>, n: nat)
    requires
        state_after(cfg, events, n) == Cycle::Finished(Err(EngineError::ConnectionExhausted)),
    ensures
        exists|i: nat|
            i < n && #[trigger] action_at(cfg, events, i) == Some(Action::RemovePairing(cfg.wican_mac_address))
                && events[i as int] == Event::Completed,
    decreases n,
{
    if n > 0 {
        let before = state_after(cfg, events, (n - 1) as nat);
        if before is Finished {
            exhaustion_follows_unpairing(cfg, events, (n - 1) as nat);
            let i = choose|i: nat|
                i < n - 1 && #[trigger] action_at(cfg, events, i) == Some(
                    Action::RemovePairing(cfg.wican_mac_address),
                ) && events[i as int] == Event::Completed;
            assert(i < n && action_at(cfg, events, i) == Some(Action::RemovePairing(cfg.wican_mac_address))
                && events[i as int] == Event::Completed);
        } else {
            assert(before == Cycle::Connect(Connecting::Unpairing));
            assert(events[n - 1] == Event::Completed);
            assert(action_at(cfg, events, (n - 1) as nat) == Some(
                Action::RemovePairing(cfg.wican_mac_address),
            ));
        }
    }
}

/// Connected first: the exchange begins only as the operation that directly
/// follows either the report that the device is connected or a connection
/// attempt that succeeded. No cycle talks to a device that is not connected,
/// whatever the configured limit of attempts.
pub proof fn exchange_needs_a_connected_device(cfg: Configuration, events: Seq<Event>, n: nat)
    requires
        action_at(cfg, events, n) == Some(Action::ListCharacteristics),
    ensures
        n >= 1,
        (action_at(cfg, events, (n - 1) as nat) == Some(Action::QueryConnected) && events[n - 1]
            == Event::Answer(true)) || (action_at(cfg, events, (n - 1) as nat) == Some(Action::Connect)
            && events[n - 1] == Event::Completed),
{
    let at = state_after(cfg, events, n);
    assert(at == Cycle::Exchange(Exchanging::Resolving));
    let before = state_after(cfg, events, (n - 1) as nat);
    assert(at == cycle_step(cfg, before, events[n - 1]));
}

/// No attempts allowed: with a limit of zero, a device reported as not
/// connected has its pairing record removed at once, and the cycle ends with
/// the answer to that removal.
pub proof fn zero_attempts_unpair(cfg: Configuration, events: Seq<Event>, i: nat)
    requires
        cfg.wican_max_connect_retries == 0,
        action_at(cfg, events, i) == Some(Action::QueryConnected),
        events[i as int] == Event::Answer(false),
    ensures
        action_at(cfg, events, i + 1) == Some(Action::RemovePairing(cfg.wican_mac_address)),
        state_after(cfg, events, i + 2) == Cycle::Finished(
            Err(
                if events[i as int + 1] == Event::Completed {
                    EngineError::ConnectionExhausted
                } else {
                    EngineError::UnpairFailed
                },
            ),
        ),
{
    assert(state_after(cfg, events, i) == Cycle::Connect(Connecting::Checking));
    assert(state_after(cfg, events, i + 1) == cycle_step(cfg, state_after(cfg, events, i), events[i as int]));
    assert(state_after(cfg, events, i + 2) == cycle_step(
        cfg,
        state_after(cfg, events, i + 1),
        events[i as int + 1],
    ));
}

/// What the state says of the attempts made so far.
spec fn attempts_match_state(cfg: Configuration, events: Seq<Event>, n: nat) -> bool {
    let made = attempts_made(cfg, events, n);
    match state_after(cfg, events, n) {
        Cycle::Connect(Connecting::Locate(_)) => made == 0,
        Cycle::Connect(Connecting::Pair(_)) => made == 0,
        Cycle::Connect(Connecting::Checking) => made == 0,
        Cycle::Connect(Connecting::Attempt(k)) => made + 1 == k && k <= cfg.wican_max_connect_retries,
        Cycle::Connect(Connecting::Backoff(k)) => made == k && k < cfg.wican_max_connect_retries,
        _ => made <= cfg.wican_max_connect_retries,
    }
}

proof fn attempts_follow_state(cfg: Configuration, events: Seq<Event>, n: nat)
    ensures
        attempts_match_state(cfg, events, n),
    decreases n,
{
    if n > 0 {
        attempts_follow_state(cfg, events, (n - 1) as nat);
        runs_stay_well_formed(cfg, events, (n - 1) as nat);
    }
}

/// Bounded retry: no cycle makes more connection attempts than configured.
pub proof fn attempts_are_bounded(cfg: Configuration, events: Seq<Event>, n: nat)
    ensures
        attempts_made(cfg, events, n) <= cfg.wican_max_connect_retries,
{
    attempts_follow_state(cfg, events, n);
}

/// Ordering: the command is written only as the operation that directly
/// follows a subscription reported as standing, and to the write
/// characteristic of the pair whose notify characteristic was subscribed.
pub proof fn command_follows_subscription(cfg: Configuration, events: Seq<Event>, n: nat)
    requires
        action_at(cfg, events, n) is Some,
        action_at(cfg, events, n)->0 is WriteCommand,
    ensures
        n >= 1,
        events[n - 1] == Event::Completed,
        exists|pair: crate::resolver::CharacteristicPair|
            action_at(cfg, events, (n - 1) as nat) == Some(Action::Subscribe(pair.notify)) && action_at(
                cfg,
                events,
                n,
            ) == Some(Action::WriteCommand(pair.write)),
{
    let at = state_after(cfg, events, n);
    assert(at is Exchange && at->Exchange_0 is Writing);
    let pair = at->Exchange_0->Writing_0;
    assert(n >= 1);
    let before = state_after(cfg, events, (n - 1) as nat);
    assert(at == cycle_step(cfg, before, events[n - 1]));
    assert(before == Cycle::Exchange(Exchanging::Subscribing(pair)));
    assert(action_at(cfg, events, (n - 1) as nat) == Some(Action::Subscribe(pair.notify)));
}

/// Single shot: a cycle writes the command at most once.
pub proof fn one_command_per_cycle(cfg: Configuration, events: Seq<Event>, i: nat, j: nat)
    requires
        i < j,
        action_at(cfg, events, i) is Some,
        action_at(cfg, events, i)->0 is WriteCommand,
    ensures
        !(action_at(cfg, events, j) is Some && action_at(cfg, events, j)->0 is WriteCommand),
{
    step_raises_rank(cfg, state_after(cfg, events, i), events[i as int]);
    assert(state_after(cfg, events, i + 1) == cycle_step(cfg, state_after(cfg, events, i), events[i as int]));
    rank_never_falls(cfg, events, i + 1, j);
}

/// No partial outcome: a cycle ends with a reading only if that reading was
/// posted and the consumer acknowledged it.
pub proof fn delivered_reading_was_acknowledged(
    cfg: Configuration,
    events: Seq<Event>,
    n: nat,
    reading: BatteryData,
)
    requires
        state_after(cfg, events, n) == Cycle::Finished(Ok(reading)),
    ensures
        exists|i: nat|
            i < n && #[trigger] action_at(cfg, events, i) == Some(Action::Post(reading)) && acknowledged(
                events[i as int],
            ),
    decreases n,
{
    if n > 0 {
        let before = state_after(cfg, events, (n - 1) as nat);
        if before is Finished {
            delivered_reading_was_acknowledged(cfg, events, (n - 1) as nat, reading);
            let i = choose|i: nat|
                i < n - 1 && #[trigger] action_at(cfg, events, i) == Some(Action::Post(reading)) && acknowledged(
                    events[i as int],
                );
            assert(i < n && action_at(cfg, events, i) == Some(Action::Post(reading)) && acknowledged(
                events[i as int],
            ));
        } else {
            assert(before == Cycle::Post(reading));
            assert(action_at(cfg, events, (n - 1) as nat) == Some(Action::Post(reading)));
        }
    }
}

/// No answer: when the wait for the bridge's answer runs out, or the
/// notification stream closes, the cycle ends with `NoResponse`: nothing is
/// decoded and nothing is posted.
pub proof fn missing_answer_ends_the_cycle(cfg: Configuration, events: Seq<Event>, i: nat)
    requires
        action_at(cfg, events, i) == Some(Action::AwaitNotification(cfg.wican_timeout)),
        events[i as int] == Event::Elapsed || events[i as int] == Event::Closed,
    ensures
        state_after(cfg, events, i + 1) == Cycle::Finished(Err(EngineError::NoResponse)),
{
    assert(state_after(cfg, events, i + 1) == cycle_step(cfg, state_after(cfg, events, i), events[i as int]));
}

/// Malformed answer: when the awaited notification is not UTF-8, or its
/// trimmed text is no JSON document, the cycle ends with `DecodeError`.
pub proof fn malformed_answer_ends_the_cycle(cfg: Configuration, events: Seq<Event>, i: nat, bytes: Vec<u8>)
    requires
        action_at(cfg, events, i) == Some(Action::AwaitNotification(cfg.wican_timeout)),
        events[i as int] == Event::Notification(bytes),
        !valid_utf8(bytes@) || json_document(trimmed_end(decode_utf8(bytes@))) is None,
    ensures
        state_after(cfg, events, i + 1) == Cycle::Finished(Err(EngineError::DecodeError)),
{
    assert(state_after(cfg, events, i + 1) == cycle_step(cfg, state_after(cfg, events, i), events[i as int]));
}

/// Missing endpoint: when the listed service tree lacks the notify or the write
/// characteristic, the cycle ends with `CharacteristicsNotFound`, whichever of
/// the two is missing.
pub proof fn missing_endpoint_ends_the_cycle(
    cfg: Configuration,
    events: Seq<Event>,
    i: nat,
    tree: Vec<Vec<u128>>,
)
    requires
        action_at(cfg, events, i) == Some(Action::ListCharacteristics),
        events[i as int] == Event::Characteristics(tree),
        !occurs(tree@, NOTIFY_UUID) || !occurs(tree@, WRITE_UUID),
    ensures
        state_after(cfg, events, i + 1) == Cycle::Finished(Err(EngineError::CharacteristicsNotFound)),
{
    assert(state_after(cfg, events, i + 1) == cycle_step(cfg, state_after(cfg, events, i), events[i as int]));
}

/// The most events that a cycle in this state can still take, not counting
/// those it takes while it watches a scan.
pub open spec fn budget(cfg: Configuration, at: Cycle) -> nat {
    let limit = cfg.wican_max_connect_retries as nat;
    match at {
        Cycle::Connect(Connecting::Locate(Locating::Probing)) => 13 + 2 * limit,
        Cycle::Connect(Connecting::Locate(Locating::StartingScan)) => 12 + 2 * limit,
        Cycle::Connect(Connecting::Locate(Locating::Scanning)) => 11 + 2 * limit,
        Cycle::Connect(Connecting::Locate(Locating::Stopping(_))) => 11 + 2 * limit,
        Cycle::Connect(Connecting::Pair(Pairing::Checking)) => 10 + 2 * limit,
        Cycle::Connect(Connecting::Pair(Pairing::Registering)) => 9 + 2 * limit,
        Cycle::Connect(Connecting::Pair(Pairing::Requesting)) => 8 + 2 * limit,
        Cycle::Connect(Connecting::Pair(Pairing::Releasing(_))) => 7 + 2 * limit,
        Cycle::Connect(Connecting::Checking) => 6 + 2 * limit,
        Cycle::Connect(Connecting::Attempt(n)) => if n <= limit {
            (6 + 2 * (limit - n)) as nat
        } else {
            6
        },
        Cycle::Connect(Connecting::Backoff(n)) => if n <= limit {
            (5 + 2 * (limit - n)) as nat
        } else {
            5
        },
        Cycle::Connect(Connecting::Unpairing) => 1,
        Cycle::Exchange(Exchanging::Resolving) => 5,
        Cycle::Exchange(Exchanging::Subscribing(_)) => 4,
        Cycle::Exchange(Exchanging::Writing(_)) => 3,
        Cycle::Exchange(Exchanging::Awaiting) => 2,
        Cycle::Post(_) => 1,
        Cycle::Finished(_) => 0,
    }
}

/// Among the first `n` events, the number taken by a cycle that was neither
/// over nor watching a scan.
pub open spec fn busy_steps(cfg: Configuration, events: Seq<Event>, n: nat) -> nat
    decreases n,
{
    if n == 0 {
        0
    } else {
        let earlier = busy_steps(cfg, events, (n - 1) as nat);
        let at = state_after(cfg, events, (n - 1) as nat);
        if at is Finished || at == Cycle::Connect(Connecting::Locate(Locating::Scanning)) {
            earlier
        } else {
            earlier + 1
        }
    }
}

proof fn steps_spend_budget(cfg: Configuration, events: Seq<Event>, n: nat)
    ensures
        busy_steps(cfg, events, n) + budget(cfg, state_after(cfg, events, n)) <= 13 + 2
            * cfg.wican_max_connect_retries,
    decreases n,
{
    if n > 0 {
        steps_spend_budget(cfg, events, (n - 1) as nat);
        runs_stay_well_formed(cfg, events, (n - 1) as nat);
    }
}

/// Bounded cycle: apart from the events of a running scan, whose number the
/// scan's time limits, a cycle takes at most thirteen events and two for each
/// configured attempt. After that it is over, whatever was reported.
pub proof fn cycle_length_is_bounded(cfg: Configuration, events: Seq<Event>, n: nat)
    ensures
        busy_steps(cfg, events, n) <= 13 + 2 * cfg.wican_max_connect_retries,
        busy_steps(cfg, events, n) == 13 + 2 * cfg.wican_max_connect_retries ==> state_after(cfg, events, n)
            is Finished,
{
    steps_spend_budget(cfg, events, n);
}

} // verus!
