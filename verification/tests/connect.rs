use nfc_monitor::connect::{
    AccessMode, ConnectOutcome, ConnectRequest, Negotiation, CONNECT_RETRY_DELAY_MS,
    MAX_CONNECT_ATTEMPTS,
};
use nfc_monitor::device::{DeviceError, Protocol};

/// Runs a negotiation against a transport that answers each attempt in turn
/// from `script`. Returns the final state, the protocol of every attempt,
/// and the pause made after every attempt.
fn negotiate_with(script: Vec<ConnectOutcome>) -> (Negotiation, Vec<Protocol>, Vec<u64>) {
    let mut state = Negotiation::begin();
    let mut attempted = Vec::new();
    let mut pauses = Vec::new();
    let mut answers = script.into_iter();
    while let Some(request) = state.pending() {
        let outcome = match answers.next() {
            Some(outcome) => outcome,
            None => break,
        };
        assert_eq!(request.mode, AccessMode::Shared);
        assert_eq!(request.reader, 0);
        attempted.push(request.protocol);
        pauses.push(state.record(&outcome));
    }
    (state, attempted, pauses)
}

fn always(error: DeviceError, times: usize) -> Vec<ConnectOutcome> {
    (0..times).map(|_| Err(error.clone())).collect()
}

#[test]
fn negotiation_begins_with_t1() {
    let state = Negotiation::begin();
    assert_eq!(state, Negotiation::Attempting { protocol: Protocol::T1, failures: 0 });
    assert_eq!(
        state.pending(),
        Some(ConnectRequest { reader: 0, protocol: Protocol::T1, mode: AccessMode::Shared })
    );
    assert!(!state.is_connected());
}

#[test]
fn transient_errors_give_three_attempts_per_protocol() {
    let (state, attempted, _) = negotiate_with(always(DeviceError::Timeout, 20));
    assert_eq!(state, Negotiation::Exhausted);
    assert_eq!(
        attempted,
        vec![
            Protocol::T1,
            Protocol::T1,
            Protocol::T1,
            Protocol::T0,
            Protocol::T0,
            Protocol::T0,
            Protocol::Raw,
            Protocol::Raw,
            Protocol::Raw,
        ]
    );
}

#[test]
fn every_kind_of_transient_error_is_retried() {
    let script: Vec<ConnectOutcome> = vec![
        Err(DeviceError::SharingViolation),
        Err(DeviceError::Timeout),
        Err(DeviceError::InternalError),
        Err(DeviceError::UnresponsiveCard),
        Err(DeviceError::SharingViolation),
        Err(DeviceError::Timeout),
        Err(DeviceError::InternalError),
        Err(DeviceError::UnresponsiveCard),
        Err(DeviceError::SharingViolation),
        Err(DeviceError::Timeout),
    ];
    let (state, attempted, _) = negotiate_with(script);
    assert_eq!(state, Negotiation::Exhausted);
    assert_eq!(attempted.len(), 9);
    assert_eq!(attempted.iter().filter(|p| **p == Protocol::T1).count(), 3);
    assert_eq!(attempted.iter().filter(|p| **p == Protocol::T0).count(), 3);
    assert_eq!(attempted.iter().filter(|p| **p == Protocol::Raw).count(), 3);
}

#[test]
fn retries_pause_half_a_second_and_protocol_changes_do_not() {
    let (_, _, pauses) = negotiate_with(always(DeviceError::SharingViolation, 9));
    assert_eq!(pauses, vec![500, 500, 0, 500, 500, 0, 500, 500, 0]);
    assert_eq!(CONNECT_RETRY_DELAY_MS, 500);
    assert_eq!(MAX_CONNECT_ATTEMPTS, 3);
}

#[test]
fn lasting_error_moves_to_next_protocol_at_once() {
    let (state, attempted, pauses) = negotiate_with(always(DeviceError::ProtoMismatch, 9));
    assert_eq!(state, Negotiation::Exhausted);
    assert_eq!(attempted, vec![Protocol::T1, Protocol::T0, Protocol::Raw]);
    assert_eq!(pauses, vec![0, 0, 0]);
}

#[test]
fn lasting_error_after_a_retry_ends_the_protocol() {
    let script: Vec<ConnectOutcome> =
        vec![Err(DeviceError::Timeout), Err(DeviceError::NoSmartcard), Ok(())];
    let (state, attempted, pauses) = negotiate_with(script);
    assert_eq!(state, Negotiation::Connected { protocol: Protocol::T0 });
    assert_eq!(attempted, vec![Protocol::T1, Protocol::T1, Protocol::T0]);
    assert_eq!(pauses, vec![500, 0, 0]);
}

#[test]
fn first_success_stops_the_negotiation() {
    let (state, attempted, pauses) = negotiate_with(vec![Ok(()), Ok(()), Ok(())]);
    assert_eq!(state, Negotiation::Connected { protocol: Protocol::T1 });
    assert!(state.is_connected());
    assert_eq!(state.pending(), None);
    assert_eq!(attempted, vec![Protocol::T1]);
    assert_eq!(pauses, vec![0]);
}

#[test]
fn success_on_third_attempt_connects_on_same_protocol() {
    let script: Vec<ConnectOutcome> =
        vec![Err(DeviceError::Timeout), Err(DeviceError::Timeout), Ok(())];
    let (state, attempted, _) = negotiate_with(script);
    assert_eq!(state, Negotiation::Connected { protocol: Protocol::T1 });
    assert_eq!(attempted, vec![Protocol::T1, Protocol::T1, Protocol::T1]);
}

#[test]
fn success_on_raw_after_six_failures() {
    let mut script = always(DeviceError::UnresponsiveCard, 6);
    script.push(Ok(()));
    let (state, attempted, _) = negotiate_with(script);
    assert_eq!(state, Negotiation::Connected { protocol: Protocol::Raw });
    assert_eq!(attempted.len(), 7);
}

#[test]
fn failures_are_counted_per_protocol() {
    let mut state = Negotiation::begin();
    state.record(&Err(DeviceError::Timeout));
    assert_eq!(state, Negotiation::Attempting { protocol: Protocol::T1, failures: 1 });
    state.record(&Err(DeviceError::Timeout));
    assert_eq!(state, Negotiation::Attempting { protocol: Protocol::T1, failures: 2 });
    state.record(&Err(DeviceError::Timeout));
    assert_eq!(state, Negotiation::Attempting { protocol: Protocol::T0, failures: 0 });
}

#[test]
fn ended_negotiation_ignores_further_outcomes() {
    let mut exhausted = Negotiation::Exhausted;
    assert_eq!(exhausted.record(&Ok(())), 0);
    assert_eq!(exhausted, Negotiation::Exhausted);
    assert_eq!(exhausted.pending(), None);
    let mut connected = Negotiation::Connected { protocol: Protocol::T0 };
    assert_eq!(connected.record(&Err(DeviceError::Timeout)), 0);
    assert_eq!(connected, Negotiation::Connected { protocol: Protocol::T0 });
}

#[test]
fn no_script_leads_to_more_than_nine_attempts() {
    let errors = [
        DeviceError::Timeout,
        DeviceError::ProtoMismatch,
        DeviceError::SharingViolation,
        DeviceError::NoService,
    ];
    for seed in 0..256u32 {
        let script: Vec<ConnectOutcome> = (0..12)
            .map(|i| Err(errors[((seed >> (2 * (i % 4))) as usize + i) % 4].clone()))
            .collect();
        let (state, attempted, _) = negotiate_with(script);
        assert!(attempted.len() <= 9);
        assert_eq!(state, Negotiation::Exhausted);
    }
}
