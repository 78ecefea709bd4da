//! Decisions of the local egress proxy runtime.
//!
//! The runtime accepts connections on the loopback address, applies the policy
//! of the listener's profile and publishes the decisions. The network work
//! lives in the application shell; what is decided about a listener, a
//! connection and a request is decided here.

use vstd::prelude::*;

use crate::decision::{target_result, EvaluationTarget};
use crate::error::{EgressError, ErrorCode};
use crate::listener::ListenerId;
use crate::outcome::{PolicySnapshot, ProxyDecision, ProxyDecisionReason};
use crate::text::{chars_of, contains_char, decimal, decimal_chars, string_from};

verus! {

/// Body of the answer to a request that the policy refused.
pub const DENIED_BODY: &'static str = "EgressKeeper: connection denied by policy\n";

/// Body of the answer to a request refused because the policy is unavailable.
pub const POLICY_UNAVAILABLE_BODY: &'static str = "EgressKeeper: policy is unavailable, connection denied\n";

/// Body of the answer to a request without a target.
pub const BAD_TARGET_BODY: &'static str = "EgressKeeper: proxy requires an absolute URI or CONNECT\n";

/// Body of the answer when the target server cannot be reached.
pub const BAD_GATEWAY_BODY: &'static str = "EgressKeeper: upstream connection failed\n";

/// A duration of whole seconds, with `std::time::Duration::from_secs`.
///
/// Nothing is claimed of the result: a duration is opaque here.
#[verifier::external_body]
fn seconds(secs: u64) -> (duration: std::time::Duration) {
    std::time::Duration::from_secs(secs)
}

/// Limits of the proxy runtime.
///
/// The values are configuration, so that tests can shorten the timeouts while
/// the production values stay in one place.
#[derive(Debug, Clone, Copy, PartialEq, Eq)]
pub struct ProxyLimits {
    /// Timeout of connecting to the target server.
    pub connect_timeout: std::time::Duration,
    /// Timeout of reading the request headers of a client.
    pub header_read_timeout: std::time::Duration,
    /// Largest number of simultaneous connections per listener.
    pub max_connections_per_listener: usize,
    /// Capacity of the queue of decisions for the user interface.
    pub decision_queue_capacity: usize,
}

impl Default for ProxyLimits {
    /// Ten seconds to connect, fifteen to read the headers, 128 connections
    /// per listener and 512 queued decisions.
    fn default() -> (limits: Self)
        ensures
            limits.max_connections_per_listener == 128,
            limits.decision_queue_capacity == 512,
    {
        ProxyLimits {
            connect_timeout: seconds(10),
            header_read_timeout: seconds(15),
            max_connections_per_listener: 128,
            decision_queue_capacity: 512,
        }
    }
}

/// Why a listener could not start.
#[derive(Debug, PartialEq, Eq)]
pub struct ListenerFailure {
    /// Machine-readable error code.
    pub code: ErrorCode,
    /// Message that is safe to show to the user.
    pub message: String,
}

impl Clone for ListenerFailure {
    fn clone(&self) -> (copy: Self)
        ensures
            copy.code == self.code,
            copy.message@ == self.message@,
    {
        ListenerFailure { code: self.code, message: self.message.clone() }
    }
}

/// State of a listener in the runtime.
#[derive(Debug, PartialEq, Eq)]
pub enum ListenerState {
    /// The listener is starting.
    Starting,
    /// The listener accepts connections.
    Running,
    /// The listener is stopped.
    Stopped,
    /// The listener failed to start.
    Failed(ListenerFailure),
}

impl Clone for ListenerState {
    fn clone(&self) -> (copy: Self)
        ensures
            copy.is_running() == self.is_running(),
            copy is Starting <==> self is Starting,
            copy is Running <==> self is Running,
            copy is Stopped <==> self is Stopped,
            copy is Failed <==> self is Failed,
    {
        match self {
            ListenerState::Starting => ListenerState::Starting,
            ListenerState::Running => ListenerState::Running,
            ListenerState::Stopped => ListenerState::Stopped,
            ListenerState::Failed(failure) => ListenerState::Failed(failure.clone()),
        }
    }
}

impl ListenerState {
    /// A listener counts as running while it accepts connections or starts.
    pub open spec fn is_running(&self) -> bool {
        self is Starting || self is Running
    }

    /// Whether the listener accepts connections or is starting.
    pub fn running(&self) -> (running: bool)
        ensures
            running == self.is_running(),
    {
        match self {
            ListenerState::Starting | ListenerState::Running => true,
            _ => false,
        }
    }
}

/// Observed state of a listener.
#[derive(Debug, PartialEq, Eq)]
pub struct ListenerHealth {
    /// Identifier of the listener.
    pub listener_id: ListenerId,
    /// State of the listener.
    pub state: ListenerState,
    /// Number of active connections.
    pub active_connections: u32,
}

/// Whether a start request launches a new task: a listener that runs or starts
/// already is left alone, so that a start request is idempotent.
pub fn should_start(current: Option<&ListenerState>) -> (start: bool)
    ensures
        start == match current {
            Some(state) => !state.is_running(),
            None => true,
        },
{
    match current {
        Some(state) => !state.running(),
        None => true,
    }
}

/// The message of a listener that could not bind its port.
pub open spec fn bind_failure_message(addr_in_use: bool) -> Seq<char> {
    if addr_in_use {
        "Порт уже занят другой программой."@
    } else {
        "Не удалось запустить listener proxy."@
    }
}

/// The failure a listener reports when binding its port failed; a port taken
/// by another program gets its own message.
pub fn bind_failure_of(addr_in_use: bool) -> (failure: ListenerFailure)
    ensures
        failure.code == ErrorCode::PortUnavailable,
        failure.message@ == bind_failure_message(addr_in_use),
{
    let message = if addr_in_use {
        "Порт уже занят другой программой."
    } else {
        "Не удалось запустить listener proxy."
    };
    ListenerFailure { code: ErrorCode::PortUnavailable, message: message.to_owned() }
}

/// An error of the operating system.
#[verifier::external_type_specification]
#[verifier::external_body]
pub struct ExIoError(std::io::Error);

/// Whether an I/O error is of the kind `std::io::ErrorKind::AddrInUse`, as
/// `std::io::Error::kind` reports it.
///
/// Nothing is claimed of the result: the kind is carried by the opaque error.
#[verifier::external_body]
fn is_addr_in_use(source: &std::io::Error) -> (in_use: bool) {
    matches!(source.kind(), std::io::ErrorKind::AddrInUse)
}

/// Converts a bind error into the failure a listener reports.
pub fn bind_failure(source: &std::io::Error) -> (failure: ListenerFailure)
    ensures
        failure.code == ErrorCode::PortUnavailable,
        failure.message@ == bind_failure_message(true) || failure.message@ == bind_failure_message(false),
{
    bind_failure_of(is_addr_in_use(source))
}

/// What the accept loop of a listener does with an accepted connection.
#[derive(Debug, Clone, Copy, PartialEq, Eq)]
pub enum AcceptDecision {
    /// Serve the connection.
    Serve,
    /// Close it: the peer is not on this machine.
    RejectRemotePeer,
    /// Close it: the listener already serves as many connections as it may.
    RejectOverLimit,
}

/// Decides about an accepted connection. Connections from outside the machine
/// are never served, even if the socket turned out reachable from outside;
/// the connection limit is asked only for local peers.
pub fn accept_decision(peer_is_loopback: bool, permit_available: bool) -> (decision: AcceptDecision)
    ensures
        !peer_is_loopback ==> decision == AcceptDecision::RejectRemotePeer,
        peer_is_loopback && !permit_available ==> decision == AcceptDecision::RejectOverLimit,
        peer_is_loopback && permit_available ==> decision == AcceptDecision::Serve,
{
    if !peer_is_loopback {
        AcceptDecision::RejectRemotePeer
    } else if !permit_available {
        AcceptDecision::RejectOverLimit
    } else {
        AcceptDecision::Serve
    }
}

/// The host of an authority in the form normalization understands: an IPv6
/// literal that came without brackets gets them back.
pub open spec fn authority_host(host: Seq<char>) -> Seq<char> {
    if host.contains(':') && !(host.len() > 0 && host[0] == '[') {
        seq!['['] + host + seq![']']
    } else {
        host
    }
}

/// Brings the host of an authority into the form normalization understands.
pub fn normalize_authority_host(host: &str) -> (normalized: String)
    ensures
        normalized@ == authority_host(host@),
{
    let chars = chars_of(host);
    if contains_char(chars.as_slice(), ':') && !(chars.len() > 0 && chars[0] == '[') {
        let mut bracketed: Vec<char> = Vec::new();
        bracketed.push('[');
        let mut i: usize = 0;
        while i < chars.len()
            invariant
                i <= chars.len(),
                bracketed@ == seq!['['] + chars@.take(i as int),
            decreases chars.len() - i,
        {
            bracketed.push(chars[i]);
            assert(chars@.take(i + 1) == chars@.take(i as int).push(chars@[i as int]));
            i += 1;
        }
        bracketed.push(']');
        assert(chars@.take(chars.len() as int) == chars@);
        return string_from(bracketed.as_slice());
    }
    host.to_owned()
}

/// The target of a request, given the host and port of its URI: a `CONNECT`
/// defaults to port 443, any other method to port 80. A request without a
/// host, or with an invalid target, has none.
pub open spec fn request_target_of(is_connect: bool, host: Option<Seq<char>>, port: Option<u16>) -> Option<(Seq<char>, u16)> {
    match host {
        None => None,
        Some(h) => {
            let p: u16 = match port {
                Some(p) => p,
                None => if is_connect { 443u16 } else { 80u16 },
            };
            match target_result(authority_host(h), p) {
                Ok(target) => Some(target),
                Err(_) => None,
            }
        },
    }
}

/// Parses the target of a request from the host and port of its URI (the
/// authority of a `CONNECT`, the absolute URI of any other method).
pub fn request_target(is_connect: bool, host: Option<&str>, port: Option<u16>) -> (target: Option<EvaluationTarget>)
    ensures
        match request_target_of(is_connect, match host { Some(h) => Some(h@), None => None }, port) {
            Some(v) => target matches Some(t) && t@ == v,
            None => target is None,
        },
{
    let host = match host {
        Some(host) => host,
        None => return None,
    };
    let port: u16 = match port {
        Some(port) => port,
        None => if is_connect { 443 } else { 80 },
    };
    let normalized = normalize_authority_host(host);
    match EvaluationTarget::parse(normalized.as_str(), port) {
        Ok(target) => Some(target),
        Err(_) => None,
    }
}

/// The authority of the target server: the normalized host, a colon and the port.
pub fn authority(target: &EvaluationTarget, port: u16) -> (text: String)
    ensures
        text@ == target@.0 + seq![':'] + decimal(port as nat),
{
    let host = chars_of(target.host().as_str());
    let digits = decimal_chars(port as u64);
    let mut all: Vec<char> = Vec::new();
    let mut i: usize = 0;
    while i < host.len()
        invariant
            i <= host.len(),
            all@ == host@.take(i as int),
        decreases host.len() - i,
    {
        all.push(host[i]);
        assert(host@.take(i + 1) == host@.take(i as int).push(host@[i as int]));
        i += 1;
    }
    assert(host@.take(host.len() as int) == host@);
    all.push(':');
    let mut j: usize = 0;
    while j < digits.len()
        invariant
            j <= digits.len(),
            all@ == host@ + seq![':'] + digits@.take(j as int),
        decreases digits.len() - j,
    {
        all.push(digits[j]);
        assert(digits@.take(j + 1) == digits@.take(j as int).push(digits@[j as int]));
        j += 1;
    }
    assert(digits@.take(digits.len() as int) == digits@);
    string_from(all.as_slice())
}

/// The error of a bind address that is not a loopback address.
pub open spec fn non_loopback_bind_error() -> EgressError {
    EgressError::Validation { field: "bind_address", reason: "must be a loopback address" }
}

/// A proxy without client authentication must not be reachable from the
/// network: only a loopback address may be bound.
pub fn check_bind_address(is_loopback: bool) -> (result: Result<(), EgressError>)
    ensures
        is_loopback ==> result is Ok,
        !is_loopback ==> result == Err::<(), EgressError>(non_loopback_bind_error()),
{
    if !is_loopback {
        return Err(EgressError::validation("bind_address", "must be a loopback address"));
    }
    Ok(())
}

/// The headers that belong to one connection with the proxy: they are meant
/// for the proxy, not for the target server, and are never passed on.
pub open spec fn hop_by_hop_names() -> Seq<Seq<char>> {
    seq![
        "connection"@,
        "proxy-authenticate"@,
        "proxy-authorization"@,
        "te"@,
        "trailer"@,
        "transfer-encoding"@,
        "upgrade"@,
        "keep-alive"@,
        "proxy-connection"@,
    ]
}

/// The names of the hop-by-hop headers, in lower case.
pub fn hop_by_hop_headers() -> (names: Vec<&'static str>)
    ensures
        names@.map_values(|name: &'static str| name@) == hop_by_hop_names(),
{
    let mut names: Vec<&'static str> = Vec::new();
    names.push("connection");
    names.push("proxy-authenticate");
    names.push("proxy-authorization");
    names.push("te");
    names.push("trailer");
    names.push("transfer-encoding");
    names.push("upgrade");
    names.push("keep-alive");
    names.push("proxy-connection");
    assert(names@.map_values(|name: &'static str| name@) =~= hop_by_hop_names());
    names
}

/// The path and query of the request to the target server: those of the
/// client's request, or `/` when it has none.
pub fn upstream_path(path_and_query: Option<&str>) -> (path: String)
    ensures
        path@ == match path_and_query {
            Some(p) => p@,
            None => "/"@,
        },
{
    match path_and_query {
        Some(path) => path.to_owned(),
        None => "/".to_owned(),
    }
}

/// The snapshot a connection is served with: a missing profile and a failed
/// read both mean there is nothing to apply, so the connection will be refused.
pub fn snapshot_or_unavailable(loaded: Result<Option<PolicySnapshot>, EgressError>) -> (snapshot: PolicySnapshot)
    ensures
        match loaded {
            Ok(Some(found)) => snapshot == found,
            _ => snapshot is Unavailable,
        },
{
    match loaded {
        Ok(Some(found)) => found,
        _ => PolicySnapshot::Unavailable,
    }
}

/// What the proxy does with a request once it is decided.
#[derive(Debug, Clone, Copy, PartialEq, Eq)]
pub enum RequestOutcome {
    /// Answer `403` with [`DENIED_BODY`].
    Denied,
    /// Answer `403` with [`POLICY_UNAVAILABLE_BODY`].
    PolicyUnavailable,
    /// Open a tunnel to the target.
    Tunnel,
    /// Forward the request to the target.
    Forward,
}

/// The outcome of a decided request: a refused one is answered with the
/// reason it was refused for, an allowed `CONNECT` opens a tunnel, any other
/// allowed request is forwarded.
pub fn request_outcome(decision: &ProxyDecision, is_connect: bool) -> (outcome: RequestOutcome)
    ensures
        decision.action is Deny && decision.reason is PolicyUnavailable ==> outcome == RequestOutcome::PolicyUnavailable,
        decision.action is Deny && !(decision.reason is PolicyUnavailable) ==> outcome == RequestOutcome::Denied,
        decision.action is Allow && is_connect ==> outcome == RequestOutcome::Tunnel,
        decision.action is Allow && !is_connect ==> outcome == RequestOutcome::Forward,
{
    if decision.is_denied() {
        match decision.reason {
            ProxyDecisionReason::PolicyUnavailable => RequestOutcome::PolicyUnavailable,
            _ => RequestOutcome::Denied,
        }
    } else if is_connect {
        RequestOutcome::Tunnel
    } else {
        RequestOutcome::Forward
    }
}

} // verus!
