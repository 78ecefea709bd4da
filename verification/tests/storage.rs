use egresskeeper_core::action::Action;
use egresskeeper_core::entities::{ProfileId, RuleId};
use egresskeeper_core::error::{EgressError, ErrorCode};
use egresskeeper_core::host::HostMatcher;
use egresskeeper_core::listener::ListenerId;
use egresskeeper_core::port::PortSpec;
use egresskeeper_core::storage::{
    check_assigned, check_next_position, check_reorder_count, latest_version, listener_write_error,
    matcher_columns, migrations, new_rule_position, pending_migrations, port_columns,
    profile_count, profile_write_error, reorder_position, require_affected, rule_count,
    should_seed_default_profile, storage_error, stored_port, RawListener, RawProfile, RawRule,
    POSITION_LIMIT,
};

fn storage_text(error: EgressError) -> String {
    match error {
        EgressError::Storage { source } => source,
        other => panic!("not a storage error: {other:?}"),
    }
}

fn raw_rule() -> RawRule {
    RawRule {
        id: RuleId::new().as_str().to_owned(),
        profile_id: ProfileId::new().as_str().to_owned(),
        position: 3,
        action: "allow".to_owned(),
        matcher_kind: "subdomains".to_owned(),
        matcher_value: "example.com".to_owned(),
        port_kind: "range".to_owned(),
        port_start: Some(8000),
        port_end: Some(8100),
    }
}

#[test]
fn stored_rule_rows_become_rules() {
    let raw = raw_rule();
    let id = raw.id.clone();
    let rule = raw.into_rule().expect("valid row");

    assert_eq!(rule.id.as_str(), id);
    assert_eq!(rule.position, 3);
    assert_eq!(rule.action, Action::Allow);
    assert_eq!(rule.host, HostMatcher::subdomains("example.com").expect("matcher"));
    assert_eq!(rule.port, PortSpec::range(8000, 8100).expect("range"));
}

#[test]
fn corrupted_rule_rows_are_storage_errors() {
    let cases: Vec<(RawRule, &str)> = vec![
        (RawRule { matcher_kind: "regex".to_owned(), ..raw_rule() }, "stored rule has an unknown host matcher kind"),
        (RawRule { matcher_value: "a..b".to_owned(), ..raw_rule() }, "stored rule has an invalid host matcher"),
        (RawRule { matcher_value: "10.0.0.1".to_owned(), ..raw_rule() }, "stored rule has an invalid host matcher"),
        (RawRule { port_kind: "some".to_owned(), ..raw_rule() }, "stored rule has an unknown port kind"),
        (RawRule { port_start: None, ..raw_rule() }, "stored rule has an invalid port"),
        (RawRule { port_end: Some(70_000), ..raw_rule() }, "stored rule has an invalid port"),
        (RawRule { port_start: Some(9000), ..raw_rule() }, "stored rule has an invalid port range"),
        (RawRule { port_kind: "exactly".to_owned(), port_start: Some(0), ..raw_rule() }, "stored rule has an invalid port"),
        (RawRule { action: "maybe".to_owned(), ..raw_rule() }, "stored rule has an invalid action"),
        (RawRule { position: -1, ..raw_rule() }, "stored rule has an invalid position"),
    ];
    for (raw, expected) in cases {
        let error = raw.into_rule().expect_err(expected);
        assert_eq!(error.code(), ErrorCode::StorageUnavailable);
        assert_eq!(storage_text(error), expected);
    }

    let error = RawRule { id: "broken".to_owned(), ..raw_rule() }.into_rule().expect_err("id");
    assert!(storage_text(error).starts_with("stored rule id is invalid: "));
    let error = RawRule { profile_id: "broken".to_owned(), ..raw_rule() }.into_rule().expect_err("profile");
    assert!(storage_text(error).starts_with("stored profile id is invalid: "));
}

#[test]
fn rules_read_back_from_their_columns() {
    for (host, port) in [
        (HostMatcher::exact("API.example.com").expect("exact"), PortSpec::any()),
        (HostMatcher::subdomains("example.org").expect("subdomains"), PortSpec::exactly(443).expect("port")),
        (HostMatcher::exact("[::1]").expect("ipv6"), PortSpec::range(1, 65_535).expect("range")),
    ] {
        let (matcher_kind, matcher_value) = matcher_columns(&host);
        let (port_kind, port_start, port_end) = port_columns(port);
        let raw = RawRule {
            id: RuleId::new().as_str().to_owned(),
            profile_id: ProfileId::new().as_str().to_owned(),
            position: 9,
            action: Action::Deny.as_str().to_owned(),
            matcher_kind: matcher_kind.to_owned(),
            matcher_value: matcher_value.to_owned(),
            port_kind: port_kind.to_owned(),
            port_start,
            port_end,
        };
        let rule = raw.into_rule().expect("round trip");
        assert_eq!(rule.host, host);
        assert_eq!(rule.port, port);
        assert_eq!(rule.action, Action::Deny);
    }
    assert_eq!(port_columns(PortSpec::exactly(22).expect("port")), ("exactly", Some(22), None));
}

#[test]
fn profile_and_listener_rows_are_checked() {
    let id = ProfileId::new();
    let profile = RawProfile {
        id: id.as_str().to_owned(),
        name: "Работа".to_owned(),
        default_action: "deny".to_owned(),
        created_at_unix_ms: 1,
        updated_at_unix_ms: 2,
    }
    .into_profile()
    .expect("profile");
    assert_eq!(profile.id, id);
    assert_eq!(profile.default_action, Action::Deny);
    assert_eq!(profile.updated_at_unix_ms, 2);

    let error = RawProfile {
        id: id.as_str().to_owned(),
        name: "x".to_owned(),
        default_action: "block".to_owned(),
        created_at_unix_ms: 1,
        updated_at_unix_ms: 2,
    }
    .into_profile()
    .expect_err("action");
    assert_eq!(storage_text(error), "stored profile has an invalid action");

    let listener_id = ListenerId::new();
    let raw = |port: i64, enabled: i64| RawListener {
        id: listener_id.as_str().to_owned(),
        port,
        profile_id: id.as_str().to_owned(),
        enabled,
        created_at_unix_ms: 5,
        updated_at_unix_ms: 6,
    };
    let listener = raw(8787, 1).into_listener().expect("listener");
    assert_eq!(listener.id, listener_id);
    assert_eq!(listener.port.get(), 8787);
    assert!(listener.enabled);
    assert!(!raw(8787, 0).into_listener().expect("listener").enabled);
    assert_eq!(
        storage_text(raw(80, 1).into_listener().expect_err("port")),
        "stored listener has an invalid port"
    );
}

#[test]
fn storage_decisions_follow_the_schema() {
    assert_eq!(stored_port(Some(65_535)).expect("port"), 65_535);
    assert!(stored_port(Some(-1)).is_err());
    assert!(stored_port(None).is_err());

    assert!(check_next_position(POSITION_LIMIT - 1).is_ok());
    assert_eq!(
        check_next_position(POSITION_LIMIT).expect_err("full").display_text(),
        "field `profile_id` is invalid: profile cannot hold more rules"
    );
    assert_eq!(new_rule_position(7).expect("position"), 7);
    assert!(new_rule_position(-1).is_err());

    assert!(check_reorder_count(3, 3).is_ok());
    assert_eq!(check_reorder_count(3, 2).expect_err("short").invalid_field(), Some("rule_ids"));
    assert_eq!(reorder_position(4).expect("index"), 4);
    assert!(check_assigned(1).is_ok());
    assert!(check_assigned(0).is_err());

    assert_eq!(require_affected(0, "rule").expect_err("missing").code(), ErrorCode::NotFound);
    assert!(require_affected(1, "rule").is_ok());

    assert_eq!(profile_count(2).expect("count"), 2);
    assert_eq!(storage_text(profile_count(-2).expect_err("count")), "profile count is invalid");
    assert_eq!(rule_count(4).expect("count"), 4);
    assert!(rule_count(i64::MAX).is_err());

    assert!(should_seed_default_profile(0));
    assert!(!should_seed_default_profile(1));
}

#[test]
fn write_failures_are_mapped() {
    assert_eq!(profile_write_error(true, "insert profile", "x").invalid_field(), Some("name"));
    assert_eq!(
        storage_text(profile_write_error(false, "insert profile", "disk full")),
        "insert profile: disk full"
    );
    assert_eq!(listener_write_error(true, "insert listener", "x").invalid_field(), Some("port"));
    assert_eq!(storage_text(storage_error("open database", "denied")), "open database: denied");
}

#[test]
fn migrations_bring_any_schema_to_the_latest_version() {
    let all: Vec<i64> = migrations().iter().map(|m| m.version).collect();
    assert_eq!(all, vec![1, 2, 3]);
    assert_eq!(latest_version(), 3);

    let versions = |current: i64| -> Vec<i64> {
        pending_migrations(current).iter().map(|m| m.version).collect()
    };
    assert_eq!(versions(0), vec![1, 2, 3]);
    assert_eq!(versions(1), vec![2, 3]);
    assert_eq!(versions(2), vec![3]);
    assert!(versions(3).is_empty());
    assert!(versions(7).is_empty());
    assert!(migrations()[0].sql.contains("CREATE TABLE profiles"));
    assert!(migrations()[2].sql.contains("CREATE TABLE settings"));
}
