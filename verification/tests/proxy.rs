use egresskeeper_core::action::Action;
use egresskeeper_core::decision::EvaluationTarget;
use egresskeeper_core::entities::{Profile, ProfileId};
use egresskeeper_core::error::{EgressError, ErrorCode};
use egresskeeper_core::listener::ListenerId;
use egresskeeper_core::outcome::{decide_at, PolicySnapshot};
use egresskeeper_core::proxy::{
    accept_decision, authority, bind_failure, bind_failure_of, normalize_authority_host,
    request_outcome, request_target, should_start, snapshot_or_unavailable, AcceptDecision,
    ListenerFailure, ListenerState, RequestOutcome,
};

#[test]
fn authority_keeps_ipv6_brackets() {
    let target = EvaluationTarget::parse("[::1]", 8080).expect("target");

    assert_eq!(authority(&target, target.port()), "[::1]:8080");
}

#[test]
fn bind_failure_reports_port_code() {
    let failure = bind_failure(&std::io::Error::new(
        std::io::ErrorKind::AddrInUse,
        "address in use",
    ));

    assert_eq!(failure.code, ErrorCode::PortUnavailable);
    assert!(failure.message.contains("занят"));
}

#[test]
fn other_bind_failures_get_the_generic_message() {
    let failure = bind_failure(&std::io::Error::new(
        std::io::ErrorKind::PermissionDenied,
        "denied",
    ));

    assert_eq!(failure.code, ErrorCode::PortUnavailable);
    assert_eq!(failure.message, "Не удалось запустить listener proxy.");
    assert_eq!(bind_failure_of(true).message, "Порт уже занят другой программой.");
}

#[test]
fn request_targets_get_default_ports() {
    let connect = request_target(true, Some("api.example.com"), None).expect("connect target");
    assert_eq!(connect.host().as_str(), "api.example.com");
    assert_eq!(connect.port(), 443);

    let plain = request_target(false, Some("Example.COM"), None).expect("absolute uri");
    assert_eq!(plain.host().as_str(), "example.com");
    assert_eq!(plain.port(), 80);

    let explicit = request_target(true, Some("api.example.com"), Some(8443)).expect("port");
    assert_eq!(explicit.port(), 8443);

    assert!(request_target(false, None, Some(80)).is_none());
    assert!(request_target(true, Some("bad host"), None).is_none());
    assert!(request_target(true, Some("api.example.com"), Some(0)).is_none());
}

#[test]
fn bare_ipv6_hosts_get_brackets() {
    assert_eq!(normalize_authority_host("::1"), "[::1]");
    assert_eq!(normalize_authority_host("[::1]"), "[::1]");
    assert_eq!(normalize_authority_host("example.com"), "example.com");

    let target = request_target(true, Some("::1"), Some(443)).expect("ipv6 target");
    assert_eq!(target.host().as_str(), "[::1]");
    assert_eq!(authority(&target, 443), "[::1]:443");
}

#[test]
fn authority_joins_host_and_port() {
    let target = EvaluationTarget::parse("API.example.com", 1).expect("target");

    assert_eq!(authority(&target, 65_535), "api.example.com:65535");
    assert_eq!(authority(&target, 7), "api.example.com:7");
}

#[test]
fn remote_peers_are_never_served() {
    assert_eq!(accept_decision(false, true), AcceptDecision::RejectRemotePeer);
    assert_eq!(accept_decision(false, false), AcceptDecision::RejectRemotePeer);
    assert_eq!(accept_decision(true, false), AcceptDecision::RejectOverLimit);
    assert_eq!(accept_decision(true, true), AcceptDecision::Serve);
}

#[test]
fn running_listeners_are_not_started_twice() {
    assert!(should_start(None));
    assert!(!should_start(Some(&ListenerState::Starting)));
    assert!(!should_start(Some(&ListenerState::Running)));
    assert!(should_start(Some(&ListenerState::Stopped)));
    let failed = ListenerState::Failed(ListenerFailure {
        code: ErrorCode::PortUnavailable,
        message: "x".to_owned(),
    });
    assert!(should_start(Some(&failed)));
    assert!(!failed.running());
}

#[test]
fn failed_policy_reads_become_unavailable() {
    let snapshot = snapshot_or_unavailable(Err(EgressError::storage_message("locked")));
    assert_eq!(snapshot, PolicySnapshot::Unavailable);
    assert_eq!(snapshot_or_unavailable(Ok(None)), PolicySnapshot::Unavailable);

    let profile = Profile {
        id: ProfileId::new(),
        name: "P".to_owned(),
        default_action: Action::Allow,
        created_at_unix_ms: 0,
        updated_at_unix_ms: 0,
    };
    let loaded = PolicySnapshot::Loaded { profile, rules: Vec::new() };
    assert_eq!(snapshot_or_unavailable(Ok(Some(loaded.clone()))), loaded);
}

#[test]
fn decided_requests_get_their_outcome() {
    let id = ListenerId::new();
    let target = EvaluationTarget::parse("api.example.com", 443).expect("target");
    let unavailable = decide_at(&id, 8787, &PolicySnapshot::Unavailable, &target, 0);
    assert_eq!(request_outcome(&unavailable, true), RequestOutcome::PolicyUnavailable);

    let looped_target = EvaluationTarget::parse("localhost", 8787).expect("target");
    let looped = decide_at(&id, 8787, &PolicySnapshot::Unavailable, &looped_target, 0);
    assert_eq!(request_outcome(&looped, false), RequestOutcome::Denied);

    let profile = Profile {
        id: ProfileId::new(),
        name: "P".to_owned(),
        default_action: Action::Allow,
        created_at_unix_ms: 0,
        updated_at_unix_ms: 0,
    };
    let open = PolicySnapshot::Loaded { profile, rules: Vec::new() };
    let allowed = decide_at(&id, 8787, &open, &target, 0);
    assert_eq!(request_outcome(&allowed, true), RequestOutcome::Tunnel);
    assert_eq!(request_outcome(&allowed, false), RequestOutcome::Forward);
}

#[test]
fn default_limits_are_the_production_values() {
    let limits = egresskeeper_core::proxy::ProxyLimits::default();

    assert_eq!(limits.connect_timeout, std::time::Duration::from_secs(10));
    assert_eq!(limits.header_read_timeout, std::time::Duration::from_secs(15));
    assert_eq!(limits.max_connections_per_listener, 128);
    assert_eq!(limits.decision_queue_capacity, 512);
}

#[test]
fn only_loopback_addresses_may_be_bound() {
    assert!(egresskeeper_core::proxy::check_bind_address(true).is_ok());
    let error = egresskeeper_core::proxy::check_bind_address(false).expect_err("remote bind");
    assert_eq!(error.invalid_field(), Some("bind_address"));
}

#[test]
fn hop_by_hop_headers_are_listed_and_paths_default_to_root() {
    let names = egresskeeper_core::proxy::hop_by_hop_headers();
    for expected in [
        "connection",
        "proxy-authenticate",
        "proxy-authorization",
        "te",
        "trailer",
        "transfer-encoding",
        "upgrade",
        "keep-alive",
        "proxy-connection",
    ] {
        assert!(names.contains(&expected), "{expected}");
    }
    assert_eq!(names.len(), 9);
    assert!(!names.contains(&"x-custom"));
    assert_eq!(egresskeeper_core::proxy::upstream_path(None), "/");
    assert_eq!(egresskeeper_core::proxy::upstream_path(Some("/a?b=c")), "/a?b=c");
}

type TestBody = http_body_util::Empty<bytes::Bytes>;

fn connect_request(target: &str) -> hyper::Request<TestBody> {
    hyper::Request::builder()
        .method(hyper::Method::CONNECT)
        .uri(target)
        .body(http_body_util::Empty::new())
        .expect("request")
}

fn get_request(target: &str) -> hyper::Request<TestBody> {
    hyper::Request::builder()
        .method(hyper::Method::GET)
        .uri(target)
        .body(http_body_util::Empty::new())
        .expect("request")
}

/// The target of a request, read the way the proxy shell reads it: the
/// authority of a `CONNECT`, the absolute URI of any other method.
fn target_of(request: &hyper::Request<TestBody>) -> Option<EvaluationTarget> {
    if request.method() == hyper::Method::CONNECT {
        let authority = request.uri().authority()?;
        return request_target(true, Some(authority.host()), authority.port_u16());
    }
    let uri = request.uri();
    request_target(false, uri.host(), uri.port_u16())
}

#[test]
fn connect_target_is_parsed_with_default_port() {
    let target = target_of(&connect_request("api.example.com:443")).expect("target");

    assert_eq!(target.host().as_str(), "api.example.com");
    assert_eq!(target.port(), 443);
}

#[test]
fn connect_target_without_port_uses_tls_default() {
    let target = target_of(&connect_request("api.example.com")).expect("target");

    assert_eq!(target.port(), 443);
}

#[test]
fn connect_target_supports_ipv6_literal() {
    let target = target_of(&connect_request("[::1]:8443")).expect("target");

    assert_eq!(target.host().as_str(), "[::1]");
    assert_eq!(target.port(), 8443);
}

#[test]
fn absolute_http_target_is_parsed() {
    let target = target_of(&get_request("http://api.example.com/path")).expect("target");

    assert_eq!(target.host().as_str(), "api.example.com");
    assert_eq!(target.port(), 80);
}

#[test]
fn origin_form_request_has_no_target() {
    assert!(target_of(&get_request("/path")).is_none());
}
