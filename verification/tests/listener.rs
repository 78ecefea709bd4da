use egresskeeper_core::error::{EgressError, ErrorCode};
use egresskeeper_core::listener::{ListenerId, ProxyPort, MAX_PROXY_PORT, MIN_PROXY_PORT};

#[test]
fn port_accepts_unprivileged_range() {
    for port in [MIN_PROXY_PORT, 8787, MAX_PROXY_PORT] {
        assert_eq!(ProxyPort::parse(port).expect("port is valid").get(), port);
    }
}

#[test]
fn port_rejects_privileged_and_zero_ports() {
    for port in [0, 80, 443, 1023] {
        let error = ProxyPort::parse(port).expect_err("port must be rejected");

        assert_eq!(error.code(), ErrorCode::Validation);
        assert_eq!(error.invalid_field(), Some("port"));
    }
}

#[test]
fn stored_port_rejects_invalid_values() {
    assert!(ProxyPort::from_stored(8787).is_ok());
    assert_eq!(
        ProxyPort::from_stored(70_000)
            .expect_err("out of range")
            .code(),
        ErrorCode::StorageUnavailable
    );
    assert!(ProxyPort::from_stored(-1).is_err());
}

#[test]
fn listener_id_round_trips_and_rejects_garbage() {
    let id = ListenerId::new();

    assert_eq!(ListenerId::parse(id.as_str()).expect("round trip"), id);
    assert_eq!(
        ListenerId::parse("not-a-uuid")
            .expect_err("invalid id")
            .invalid_field(),
        Some("listener_id")
    );
    assert_eq!(
        ListenerId::from_stored("broken")
            .expect_err("invalid stored id")
            .code(),
        ErrorCode::StorageUnavailable
    );
}

#[test]
fn stored_port_bounds_are_exact() {
    assert_eq!(ProxyPort::from_stored(1024).expect("lowest").get(), 1024);
    assert_eq!(ProxyPort::from_stored(65_535).expect("highest").get(), 65_535);
    match ProxyPort::from_stored(1023) {
        Err(EgressError::Storage { source }) => {
            assert_eq!(source, "stored listener has an invalid port");
        }
        other => panic!("unexpected {other:?}"),
    }
    assert!(ProxyPort::from_stored(65_536).is_err());
    assert_eq!(
        ProxyPort::parse(1023).expect_err("privileged").display_text(),
        "field `port` is invalid: must be between 1024 and 65535"
    );
}
