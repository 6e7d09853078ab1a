//! The connection lifecycle: recognizing the device among visible
//! peripherals, resolving the control and notification endpoints, and the
//! state machine that drives scan, connect, service discovery and
//! subscription. The transport performs each requested action and reports
//! the outcome back as an event; every decision is made here.

use vstd::prelude::*;

verus! {

/// The 128-bit identifier of both the service and the control endpoint of
/// this device family.
pub const SERVICE_UUID: u128 = 0xB11B0002_BF9B_4A20_BA07_9218FEC577D7;

/// Milliseconds to let advertisements accumulate after the scan starts,
/// before the first lookup.
pub const SCAN_SETTLE_MS: u64 = 2000;

/// Milliseconds between two lookups of the visible peripherals.
pub const POLL_INTERVAL_MS: u64 = 500;

/// Milliseconds of polling after which discovery gives up.
pub const DISCOVERY_TIMEOUT_MS: u64 = 30000;

/// Why establishing the link failed.
#[derive(Clone, Copy, Debug, PartialEq, Eq, Structural)]
pub enum ConnectError {
    /// No matching peripheral became visible within the timeout.
    DiscoveryTimeout,
    /// The transport reported a failure while connecting, discovering
    /// services or subscribing.
    TransportError,
    /// The device exposes no control endpoint: it does not speak this
    /// protocol.
    ControlEndpointMissing,
}

/// One characteristic of the connected device, reduced to what the
/// lifecycle reads: its identifier and whether it can push notifications.
#[derive(Clone, Copy, Debug, PartialEq, Eq, Structural)]
pub struct EndpointInfo {
    /// The 128-bit identifier of the characteristic.
    pub uuid: u128,
    /// Whether the characteristic advertises the notify capability.
    pub notify: bool,
}

/// Bytes of the device-name fragment that identifies the train, in ASCII:
/// the text `Smart 2.0`.
pub open spec fn name_marker() -> Seq<u8> {
    seq![0x53u8, 0x6D, 0x61, 0x72, 0x74, 0x20, 0x32, 0x2E, 0x30]
}

/// `needle` occurs in `hay` starting at position `at`.
pub open spec fn is_match_at(hay: Seq<u8>, needle: Seq<u8>, at: int) -> bool {
    0 <= at && at + needle.len() <= hay.len() && hay.subrange(at, at + needle.len()) == needle
}

/// `needle` occurs somewhere in `hay`.
pub open spec fn contains_seq(hay: Seq<u8>, needle: Seq<u8>) -> bool {
    exists|at: int| is_match_at(hay, needle, at)
}

/// A peripheral name matches the discovery target when the name fragment
/// occurs in it.
pub open spec fn spec_name_matches(name: Seq<u8>) -> bool {
    contains_seq(name, name_marker())
}

/// Whether `needle` occurs as a contiguous run of bytes in `hay`.
pub fn contains_subslice(hay: &Vec<u8>, needle: &Vec<u8>) -> (r: bool)
    ensures
        r == contains_seq(hay@, needle@),
{
    let n = hay.len();
    let m = needle.len();
    if m > n {
        proof {
            assert forall|at: int| !is_match_at(hay@, needle@, at) by {}
        }
        return false;
    }
    let mut at: usize = 0;
    while at <= n - m
        invariant
            m <= n == hay@.len(),
            m == needle@.len(),
            at <= n - m + 1,
            forall|k: int| 0 <= k < at ==> !is_match_at(hay@, needle@, k),
        decreases n - at,
    {
        let mut j: usize = 0;
        while j < m
            invariant
                m <= n == hay@.len(),
                m == needle@.len(),
                at + m <= n,
                j <= m,
                forall|k: int| 0 <= k < j ==> hay@[at + k] == needle@[k],
            ensures
                j <= m,
                forall|k: int| 0 <= k < j ==> hay@[at + k] == needle@[k],
                j < m ==> hay@[at + j] != needle@[j as int],
            decreases m - j,
        {
            if hay[at + j] != needle[j] {
                break;
            }
            j = j + 1;
        }
        if j == m {
            proof {
                assert(hay@.subrange(at as int, at + m) =~= needle@);
                assert(is_match_at(hay@, needle@, at as int));
            }
            return true;
        }
        proof {
            if is_match_at(hay@, needle@, at as int) {
                assert(hay@.subrange(at as int, at + m)[j as int] == hay@[at + j]);
                assert(false);
            }
        }
        at = at + 1;
    }
    proof {
        assert forall|k: int| !is_match_at(hay@, needle@, k) by {
            if 0 <= k <= n - m {
                assert(!is_match_at(hay@, needle@, k));
            }
        }
    }
    false
}

/// Whether a peripheral name (as bytes) matches the discovery target.
pub fn name_matches(name: &Vec<u8>) -> (r: bool)
    ensures
        r == spec_name_matches(name@),
{
    let marker: Vec<u8> = vec![0x53u8, 0x6D, 0x61, 0x72, 0x74, 0x20, 0x32, 0x2E, 0x30];
    proof {
        assert(marker@ =~= name_marker());
    }
    contains_subslice(name, &marker)
}

/// The first visible peripheral whose name matches the discovery target,
/// if any: `names` holds one entry per visible peripheral, a nameless one
/// as the empty vector.
pub fn find_device(names: &Vec<Vec<u8>>) -> (r: Option<usize>)
    ensures
        match r {
            Some(i) => i < names@.len() && spec_name_matches(names@[i as int]@) && forall|k: int|
                0 <= k < i ==> !spec_name_matches(names@[k]@),
            None => forall|k: int| 0 <= k < names@.len() ==> !spec_name_matches(names@[k]@),
        },
{
    let mut i: usize = 0;
    while i < names.len()
        invariant
            i <= names@.len(),
            forall|k: int| 0 <= k < i ==> !spec_name_matches(names@[k]@),
        decreases names@.len() - i,
    {
        if name_matches(&names[i]) {
            return Some(i);
        }
        i = i + 1;
    }
    None
}

/// The first endpoint carrying the control identifier, if any.
pub fn find_control_endpoint(endpoints: &Vec<EndpointInfo>) -> (r: Option<usize>)
    ensures
        match r {
            Some(i) => i < endpoints@.len() && endpoints@[i as int].uuid == SERVICE_UUID
                && forall|k: int| 0 <= k < i ==> endpoints@[k].uuid != SERVICE_UUID,
            None => forall|k: int| 0 <= k < endpoints@.len() ==> endpoints@[k].uuid
                != SERVICE_UUID,
        },
{
    let mut i: usize = 0;
    while i < endpoints.len()
        invariant
            i <= endpoints@.len(),
            forall|k: int| 0 <= k < i ==> endpoints@[k].uuid != SERVICE_UUID,
        decreases endpoints@.len() - i,
    {
        if endpoints[i].uuid == SERVICE_UUID {
            return Some(i);
        }
        i = i + 1;
    }
    None
}

/// The first endpoint that advertises the notify capability, if any.
pub fn find_notify_endpoint(endpoints: &Vec<EndpointInfo>) -> (r: Option<usize>)
    ensures
        match r {
            Some(i) => i < endpoints@.len() && endpoints@[i as int].notify && forall|k: int|
                0 <= k < i ==> !endpoints@[k].notify,
            None => forall|k: int| 0 <= k < endpoints@.len() ==> !endpoints@[k].notify,
        },
{
    let mut i: usize = 0;
    while i < endpoints.len()
        invariant
            i <= endpoints@.len(),
            forall|k: int| 0 <= k < i ==> !endpoints@[k].notify,
        decreases endpoints@.len() - i,
    {
        if endpoints[i].notify {
            return Some(i);
        }
        i = i + 1;
    }
    None
}

/// The lifecycle states. Each state between `Idle` and `Ready` holds while
/// the transport action requested on entering it is in flight.
#[derive(Clone, Copy, Debug, PartialEq, Eq, Structural)]
pub enum ConnState {
    /// Nothing has started yet.
    Idle,
    /// The scan runs; `elapsed_ms` of the polling window are spent.
    Scanning { elapsed_ms: u64 },
    /// A matching peripheral is visible; the link is not yet open.
    CandidateFound,
    /// The link is being opened.
    Connecting,
    /// The link is open; the characteristics are being enumerated.
    DiscoveringServices,
    /// The notification endpoint is being armed; `control` is the resolved
    /// control endpoint.
    Subscribing { control: usize },
    /// The link stands; commands go to endpoint `control`.
    Ready { control: usize },
    /// The lifecycle ended without a link.
    Failed { cause: ConnectError },
}

/// What the driver reports back to the machine.
#[derive(Clone, Copy, Debug, PartialEq, Eq, Structural)]
pub enum ConnEvent {
    /// The caller asks for a link.
    Start,
    /// A lookup of the visible peripherals found no matching name.
    PollNoMatch,
    /// A lookup found a matching peripheral.
    PollMatched,
    /// Step out of a state that asked for no transport work.
    Proceed,
    /// The link was opened.
    ConnectOk,
    /// The characteristics were enumerated and the endpoints resolved.
    ServicesResolved { control: Option<usize>, notify: Option<usize> },
    /// The notification endpoint was armed.
    SubscribeOk,
    /// The transport failed the action in flight.
    TransportFailed,
}

/// What the machine asks the driver to do next.
#[derive(Clone, Copy, Debug, PartialEq, Eq, Structural)]
pub enum ConnAction {
    /// Begin scanning, then wait `wait_ms` before the first lookup.
    StartScan { wait_ms: u64 },
    /// Wait `delay_ms`, then look the visible peripherals up again.
    Poll { delay_ms: u64 },
    /// Open the link to the matched peripheral.
    OpenLink,
    /// Enumerate the characteristics of the connected device.
    ListServices,
    /// Arm notifications on endpoint `endpoint`.
    Subscribe { endpoint: usize },
    /// The link stands: hand it to the caller.
    Deliver,
    /// Report the failure named in the state to the caller.
    Fail,
    /// No transport work is required.
    Nothing,
}

/// A state from which no further transition is taken.
pub open spec fn is_terminal(s: ConnState) -> bool {
    s is Ready || s is Failed
}

/// The transition function of the lifecycle. Every event the current state
/// does not expect leaves the state unchanged and asks for nothing.
pub open spec fn spec_step(s: ConnState, e: ConnEvent) -> (ConnState, ConnAction) {
    match (s, e) {
        (ConnState::Idle, ConnEvent::Start) => (
            ConnState::Scanning { elapsed_ms: 0 },
            ConnAction::StartScan { wait_ms: SCAN_SETTLE_MS },
        ),
        (ConnState::Scanning { elapsed_ms }, ConnEvent::PollNoMatch) => {
            if elapsed_ms >= DISCOVERY_TIMEOUT_MS - POLL_INTERVAL_MS {
                (ConnState::Failed { cause: ConnectError::DiscoveryTimeout }, ConnAction::Fail)
            } else {
                (
                    ConnState::Scanning { elapsed_ms: (elapsed_ms + POLL_INTERVAL_MS) as u64 },
                    ConnAction::Poll { delay_ms: POLL_INTERVAL_MS },
                )
            }
        },
        (ConnState::Scanning { .. }, ConnEvent::PollMatched) => (
            ConnState::CandidateFound,
            ConnAction::Nothing,
        ),
        (ConnState::CandidateFound, ConnEvent::Proceed) => (
            ConnState::Connecting,
            ConnAction::OpenLink,
        ),
        (ConnState::Connecting, ConnEvent::ConnectOk) => (
            ConnState::DiscoveringServices,
            ConnAction::ListServices,
        ),
        (ConnState::DiscoveringServices, ConnEvent::ServicesResolved { control, notify }) => {
            match (control, notify) {
                (None, _) => (
                    ConnState::Failed { cause: ConnectError::ControlEndpointMissing },
                    ConnAction::Fail,
                ),
                (Some(c), Some(n)) => (
                    ConnState::Subscribing { control: c },
                    ConnAction::Subscribe { endpoint: n },
                ),
                (Some(c), None) => (ConnState::Ready { control: c }, ConnAction::Deliver),
            }
        },
        (ConnState::Subscribing { control }, ConnEvent::SubscribeOk) => (
            ConnState::Ready { control },
            ConnAction::Deliver,
        ),
        (s, ConnEvent::TransportFailed) => {
            if is_terminal(s) {
                (s, ConnAction::Nothing)
            } else {
                (ConnState::Failed { cause: ConnectError::TransportError }, ConnAction::Fail)
            }
        },
        (s, _) => (s, ConnAction::Nothing),
    }
}

/// Take one step of the lifecycle.
pub fn step(s: ConnState, e: ConnEvent) -> (r: (ConnState, ConnAction))
    ensures
        r == spec_step(s, e),
{
    match (s, e) {
        (ConnState::Idle, ConnEvent::Start) => (
            ConnState::Scanning { elapsed_ms: 0 },
            ConnAction::StartScan { wait_ms: SCAN_SETTLE_MS },
        ),
        (ConnState::Scanning { elapsed_ms }, ConnEvent::PollNoMatch) => {
            if elapsed_ms >= DISCOVERY_TIMEOUT_MS - POLL_INTERVAL_MS {
                (ConnState::Failed { cause: ConnectError::DiscoveryTimeout }, ConnAction::Fail)
            } else {
                (
                    ConnState::Scanning { elapsed_ms: elapsed_ms + POLL_INTERVAL_MS },
                    ConnAction::Poll { delay_ms: POLL_INTERVAL_MS },
                )
            }
        },
        (ConnState::Scanning { .. }, ConnEvent::PollMatched) => (
            ConnState::CandidateFound,
            ConnAction::Nothing,
        ),
        (ConnState::CandidateFound, ConnEvent::Proceed) => (
            ConnState::Connecting,
            ConnAction::OpenLink,
        ),
        (ConnState::Connecting, ConnEvent::ConnectOk) => (
            ConnState::DiscoveringServices,
            ConnAction::ListServices,
        ),
        (ConnState::DiscoveringServices, ConnEvent::ServicesResolved { control, notify }) => {
            match (control, notify) {
                (None, _) => (
                    ConnState::Failed { cause: ConnectError::ControlEndpointMissing },
                    ConnAction::Fail,
                ),
                (Some(c), Some(n)) => (
                    ConnState::Subscribing { control: c },
                    ConnAction::Subscribe { endpoint: n },
                ),
                (Some(c), None) => (ConnState::Ready { control: c }, ConnAction::Deliver),
            }
        },
        (ConnState::Subscribing { control }, ConnEvent::SubscribeOk) => (
            ConnState::Ready { control },
            ConnAction::Deliver,
        ),
        (s, ConnEvent::TransportFailed) => {
            match s {
                ConnState::Ready { .. } => (s, ConnAction::Nothing),
                ConnState::Failed { .. } => (s, ConnAction::Nothing),
                _ => (ConnState::Failed { cause: ConnectError::TransportError }, ConnAction::Fail),
            }
        },
        (s, _) => (s, ConnAction::Nothing),
    }
}

/// The state after `k` lookups that found no match, counted from the start
/// of the polling window.
pub open spec fn after_no_match_polls(k: nat) -> ConnState
    decreases k,
{
    if k == 0 {
        ConnState::Scanning { elapsed_ms: 0 }
    } else {
        spec_step(after_no_match_polls((k - 1) as nat), ConnEvent::PollNoMatch).0
    }
}

/// Discovery gives up exactly when the polling window is spent: while the
/// lookups that found nothing cover less than the window the machine keeps
/// scanning, and from the lookup that fills the window on it reports
/// `DiscoveryTimeout`, never any other outcome.
pub proof fn lemma_discovery_timeout(k: nat)
    ensures
        k * POLL_INTERVAL_MS < DISCOVERY_TIMEOUT_MS ==> after_no_match_polls(k)
            == (ConnState::Scanning { elapsed_ms: (k * POLL_INTERVAL_MS) as u64 }),
        k * POLL_INTERVAL_MS >= DISCOVERY_TIMEOUT_MS ==> after_no_match_polls(k)
            == (ConnState::Failed { cause: ConnectError::DiscoveryTimeout }),
    decreases k,
{
    if k > 0 {
        lemma_discovery_timeout((k - 1) as nat);
        assert(k * POLL_INTERVAL_MS == (k - 1) * POLL_INTERVAL_MS + POLL_INTERVAL_MS)
            by (nonlinear_arith);
    }
}

} // verus!
