use egresskeeper_core::entities::{Profile, ProfileId, RuleId};
use egresskeeper_core::error::{EgressError, ErrorCode};

#[test]
fn generated_ids_are_unique_and_parseable() {
    let first = ProfileId::new();
    let second = ProfileId::new();

    assert_ne!(first, second);
    assert_eq!(ProfileId::parse(first.as_str()).expect("round trip"), first);
}

#[test]
fn parse_rejects_non_uuid_input() {
    let error = ProfileId::parse("not-a-uuid").expect_err("invalid id");

    assert_eq!(error.code(), ErrorCode::Validation);
    assert_eq!(error.invalid_field(), Some("profile_id"));

    let error = RuleId::parse("42").expect_err("invalid id");
    assert_eq!(error.invalid_field(), Some("rule_id"));
}

#[test]
fn stored_id_failure_is_a_storage_error() {
    let error = ProfileId::from_stored("broken").expect_err("invalid stored id");

    assert_eq!(error.code(), ErrorCode::StorageUnavailable);
}

#[test]
fn profile_name_is_trimmed_and_validated() {
    assert_eq!(
        Profile::validate_name("  Работа  ").expect("valid name"),
        "Работа"
    );

    let error = Profile::validate_name("   ").expect_err("empty name");
    assert_eq!(error.invalid_field(), Some("name"));
}

#[test]
fn profile_name_rejects_control_characters() {
    let error = Profile::validate_name("Работа\u{7}").expect_err("control character");

    assert_eq!(error.code(), ErrorCode::Validation);
}

#[test]
fn profile_name_folding_is_unicode_aware() {
    assert_eq!(Profile::fold_name("  Работа  "), "работа");
    assert_eq!(Profile::fold_name("РАБОТА"), "работа");
    assert_eq!(Profile::fold_name("Work"), "work");
}

#[test]
fn profile_name_rejects_too_long_values() {
    let name = "a".repeat(64 + 1);

    assert!(Profile::validate_name(&name).is_err());
}

#[test]
fn ids_are_brought_to_canonical_form() {
    let parsed = RuleId::parse("  {67E55044-10B1-426F-9247-BB680E5FE0C8}  ").expect("braced uuid");
    assert_eq!(parsed.as_str(), "67e55044-10b1-426f-9247-bb680e5fe0c8");

    let stored = ProfileId::from_stored("67E5504410B1426F9247BB680E5FE0C8").expect("simple uuid");
    assert_eq!(stored.as_str(), "67e55044-10b1-426f-9247-bb680e5fe0c8");

    match RuleId::from_stored(" 67e55044-10b1-426f-9247-bb680e5fe0c8") {
        Err(EgressError::Storage { source }) => {
            assert!(source.starts_with("stored rule id is invalid: "));
        }
        other => panic!("unexpected {other:?}"),
    }
}

#[test]
fn profile_name_limits_are_exact() {
    assert!(Profile::validate_name(&"я".repeat(64)).is_ok());
    assert_eq!(
        Profile::validate_name(&"я".repeat(65))
            .expect_err("too long")
            .display_text(),
        "field `name` is invalid: is too long"
    );
    assert_eq!(Profile::validate_name("\tИмя\n").expect("trimmed"), "Имя");
}
