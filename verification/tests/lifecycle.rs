use brio_smart_tech::codec::DecodeError;
use brio_smart_tech::conn::{
    contains_subslice, find_control_endpoint, find_device, find_notify_endpoint, name_matches,
    step, ConnAction, ConnEvent, ConnState, ConnectError, EndpointInfo, DISCOVERY_TIMEOUT_MS,
    POLL_INTERVAL_MS, SCAN_SETTLE_MS, SERVICE_UUID,
};
use brio_smart_tech::listener::{handle_notification, ListenerOutcome};

#[test]
fn subslice_search() {
    assert!(contains_subslice(&vec![1, 2, 3, 4], &vec![2, 3]));
    assert!(contains_subslice(&vec![1, 2, 3, 4], &vec![1, 2, 3, 4]));
    assert!(contains_subslice(&vec![1, 2, 3, 4], &vec![]));
    assert!(!contains_subslice(&vec![1, 2, 3, 4], &vec![3, 2]));
    assert!(!contains_subslice(&vec![1, 2], &vec![1, 2, 3]));
    assert!(!contains_subslice(&vec![], &vec![0]));
}

#[test]
fn name_filter_matches_the_target_fragment() {
    assert!(name_matches(&b"Brio Smart 2.0".to_vec()));
    assert!(name_matches(&b"Smart 2.0".to_vec()));
    assert!(!name_matches(&b"Smart 1.0".to_vec()));
    assert!(!name_matches(&b"smart 2.0".to_vec()));
    assert!(!name_matches(&vec![]));
}

#[test]
fn find_device_takes_first_matching_name() {
    let names = vec![
        b"Lamp".to_vec(),
        b"Brio Smart 2.0".to_vec(),
        b"Smart 2.0 spare".to_vec(),
    ];
    assert_eq!(find_device(&names), Some(1));
    let no_match = vec![b"Lamp".to_vec(), vec![]];
    assert_eq!(find_device(&no_match), None);
    assert_eq!(find_device(&vec![]), None);
}

#[test]
fn endpoint_resolution() {
    let eps = vec![
        EndpointInfo { uuid: 0x1234, notify: false },
        EndpointInfo { uuid: SERVICE_UUID, notify: true },
        EndpointInfo { uuid: SERVICE_UUID, notify: false },
    ];
    assert_eq!(find_control_endpoint(&eps), Some(1));
    assert_eq!(find_notify_endpoint(&eps), Some(1));
    let bare = vec![EndpointInfo { uuid: 0x1234, notify: false }];
    assert_eq!(find_control_endpoint(&bare), None);
    assert_eq!(find_notify_endpoint(&bare), None);
}

#[test]
fn lifecycle_happy_path_with_subscription() {
    let (s, a) = step(ConnState::Idle, ConnEvent::Start);
    assert_eq!(s, ConnState::Scanning { elapsed_ms: 0 });
    assert_eq!(a, ConnAction::StartScan { wait_ms: SCAN_SETTLE_MS });

    let (s, a) = step(s, ConnEvent::PollMatched);
    assert_eq!(s, ConnState::CandidateFound);
    assert_eq!(a, ConnAction::Nothing);

    let (s, a) = step(s, ConnEvent::Proceed);
    assert_eq!(s, ConnState::Connecting);
    assert_eq!(a, ConnAction::OpenLink);

    let (s, a) = step(s, ConnEvent::ConnectOk);
    assert_eq!(s, ConnState::DiscoveringServices);
    assert_eq!(a, ConnAction::ListServices);

    let (s, a) = step(
        s,
        ConnEvent::ServicesResolved { control: Some(2), notify: Some(3) },
    );
    assert_eq!(s, ConnState::Subscribing { control: 2 });
    assert_eq!(a, ConnAction::Subscribe { endpoint: 3 });

    let (s, a) = step(s, ConnEvent::SubscribeOk);
    assert_eq!(s, ConnState::Ready { control: 2 });
    assert_eq!(a, ConnAction::Deliver);
}

#[test]
fn lifecycle_without_notify_endpoint_goes_straight_to_ready() {
    let s = ConnState::DiscoveringServices;
    let (s, a) = step(
        s,
        ConnEvent::ServicesResolved { control: Some(0), notify: None },
    );
    assert_eq!(s, ConnState::Ready { control: 0 });
    assert_eq!(a, ConnAction::Deliver);
}

#[test]
fn lifecycle_missing_control_endpoint_is_fatal() {
    let (s, a) = step(
        ConnState::DiscoveringServices,
        ConnEvent::ServicesResolved { control: None, notify: Some(0) },
    );
    assert_eq!(s, ConnState::Failed { cause: ConnectError::ControlEndpointMissing });
    assert_eq!(a, ConnAction::Fail);
}

#[test]
fn lifecycle_transport_failure_from_every_non_terminal_state() {
    let non_terminal = vec![
        ConnState::Idle,
        ConnState::Scanning { elapsed_ms: 1500 },
        ConnState::CandidateFound,
        ConnState::Connecting,
        ConnState::DiscoveringServices,
        ConnState::Subscribing { control: 0 },
    ];
    for s in non_terminal {
        let (s2, a) = step(s, ConnEvent::TransportFailed);
        assert_eq!(s2, ConnState::Failed { cause: ConnectError::TransportError });
        assert_eq!(a, ConnAction::Fail);
    }
    let (s2, a) = step(ConnState::Ready { control: 0 }, ConnEvent::TransportFailed);
    assert_eq!(s2, ConnState::Ready { control: 0 });
    assert_eq!(a, ConnAction::Nothing);
}

#[test]
fn lifecycle_ignores_unexpected_events() {
    let (s, a) = step(ConnState::Idle, ConnEvent::SubscribeOk);
    assert_eq!(s, ConnState::Idle);
    assert_eq!(a, ConnAction::Nothing);
    let (s, a) = step(ConnState::Connecting, ConnEvent::PollNoMatch);
    assert_eq!(s, ConnState::Connecting);
    assert_eq!(a, ConnAction::Nothing);
}

#[test]
fn discovery_times_out_when_the_window_is_spent_and_not_earlier() {
    let polls_in_window = (DISCOVERY_TIMEOUT_MS / POLL_INTERVAL_MS) as usize;
    assert_eq!(polls_in_window, 60);
    let mut s = ConnState::Scanning { elapsed_ms: 0 };
    for k in 1..polls_in_window {
        let (s2, a) = step(s, ConnEvent::PollNoMatch);
        assert_eq!(
            s2,
            ConnState::Scanning { elapsed_ms: k as u64 * POLL_INTERVAL_MS }
        );
        assert_eq!(a, ConnAction::Poll { delay_ms: POLL_INTERVAL_MS });
        s = s2;
    }
    let (s2, a) = step(s, ConnEvent::PollNoMatch);
    assert_eq!(s2, ConnState::Failed { cause: ConnectError::DiscoveryTimeout });
    assert_eq!(a, ConnAction::Fail);
}

#[test]
fn listener_surfaces_payloads_and_isolates_anomalies() {
    assert_eq!(
        handle_notification(&vec![0xAA, 0x02, 0x01, 0x00, 0xFD]),
        ListenerOutcome::Payload(vec![0x01, 0x00])
    );
    assert_eq!(
        handle_notification(&vec![0x00, 0x02, 0x01, 0x00, 0xFD]),
        ListenerOutcome::Anomaly(DecodeError::BadMarker)
    );
    assert_eq!(
        handle_notification(&vec![0xAA, 0x05, 0x01, 0x00, 0xFD]),
        ListenerOutcome::Anomaly(DecodeError::LengthMismatch)
    );
    assert_eq!(
        handle_notification(&vec![0xAA, 0x02, 0x01, 0x00, 0x00]),
        ListenerOutcome::Anomaly(DecodeError::ChecksumMismatch)
    );
}
