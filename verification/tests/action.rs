use egresskeeper_core::action::Action;
use egresskeeper_core::error::ErrorCode;

#[test]
fn default_action_is_deny() {
    assert_eq!(Action::default(), Action::Deny);
}

#[test]
fn parse_accepts_known_values() {
    assert_eq!(Action::parse("allow").expect("allow"), Action::Allow);
    assert_eq!(Action::parse("deny").expect("deny"), Action::Deny);
}

#[test]
fn parse_rejects_unknown_values() {
    let error = Action::parse("maybe").expect_err("unknown action");

    assert_eq!(error.code(), ErrorCode::Validation);
    assert_eq!(error.invalid_field(), Some("action"));
}

#[test]
fn action_text_round_trips() {
    for action in [Action::Allow, Action::Deny] {
        assert_eq!(Action::parse(action.as_str()).expect("round trip"), action);
    }
    assert_eq!(Action::Deny.as_str(), "deny");
    assert!(Action::Allow.allows());
    assert!(!Action::Deny.allows());
    assert!(Action::parse("Allow").is_err());
}
