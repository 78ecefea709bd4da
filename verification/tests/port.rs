use egresskeeper_core::error::ErrorCode;
use egresskeeper_core::port::PortSpec;

#[test]
fn any_matches_every_valid_port() {
    let spec = PortSpec::any();

    assert!(spec.matches(1));
    assert!(spec.matches(443));
    assert!(spec.matches(65_535));
    assert!(!spec.matches(0));
}

#[test]
fn exactly_matches_single_port() {
    let spec = PortSpec::exactly(443).expect("port is valid");

    assert!(spec.matches(443));
    assert!(!spec.matches(8443));
}

#[test]
fn exactly_rejects_zero() {
    let error = PortSpec::exactly(0).expect_err("zero port");

    assert_eq!(error.code(), ErrorCode::Validation);
    assert_eq!(error.invalid_field(), Some("port"));
}

#[test]
fn range_matches_inclusive_bounds() {
    let spec = PortSpec::range(8000, 8100).expect("range is valid");

    for port in [8000, 8080, 8100] {
        assert!(spec.matches(port), "port {port} must match");
    }
    for port in [7999, 8101] {
        assert!(!spec.matches(port), "port {port} must not match");
    }
}

#[test]
fn range_accepts_single_port_range() {
    let spec = PortSpec::range(443, 443).expect("range is valid");

    assert!(spec.matches(443));
    assert!(!spec.matches(444));
}

#[test]
fn range_rejects_inverted_bounds() {
    let error = PortSpec::range(9000, 8000).expect_err("inverted range");

    assert_eq!(error.code(), ErrorCode::Validation);
    assert_eq!(error.invalid_field(), Some("port_end"));
}

#[test]
fn range_rejects_zero_start() {
    let error = PortSpec::range(0, 80).expect_err("zero start");

    assert_eq!(error.invalid_field(), Some("port_start"));
}

#[test]
fn kinds_and_bounds_describe_the_restriction() {
    assert_eq!(PortSpec::any().kind(), "any");
    assert_eq!(PortSpec::any().bounds(), (None, None));
    let one = PortSpec::exactly(443).expect("port");
    assert_eq!(one.kind(), "exactly");
    assert_eq!(one.bounds(), (Some(443), Some(443)));
    let range = PortSpec::range(8000, 8100).expect("range");
    assert_eq!(range.kind(), "range");
    assert_eq!(range.bounds(), (Some(8000), Some(8100)));
}

#[test]
fn no_valid_restriction_admits_port_zero() {
    for spec in [
        PortSpec::any(),
        PortSpec::exactly(1).expect("port"),
        PortSpec::range(1, 65_535).expect("range"),
    ] {
        assert!(!spec.matches(0));
    }
}
