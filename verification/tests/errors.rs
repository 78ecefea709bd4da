use egresskeeper_core::error::{EgressError, ErrorCode};

#[test]
fn validation_error_exposes_validation_code() {
    let error = EgressError::validation("app_version", "must not be empty");

    assert_eq!(error.code(), ErrorCode::Validation);
    assert_eq!(error.code().as_str(), "validation");
    assert_eq!(error.invalid_field(), Some("app_version"));
}

#[test]
fn state_dir_error_exposes_state_dir_code() {
    let error = EgressError::StateDirUnavailable {
        source: "boom".to_owned(),
    };

    assert_eq!(error.code(), ErrorCode::StateDirUnavailable);
    assert_eq!(error.code().as_str(), "state_dir_unavailable");
    assert_eq!(error.invalid_field(), None);
}

#[test]
fn internal_error_exposes_internal_code() {
    let error = EgressError::Internal {
        source: "boom".to_owned(),
    };

    assert_eq!(error.code(), ErrorCode::Internal);
    assert_eq!(error.code().as_str(), "internal");
}

#[test]
fn port_error_exposes_port_code() {
    let error = EgressError::PortUnavailable {
        source: "address in use".to_owned(),
    };

    assert_eq!(error.code(), ErrorCode::PortUnavailable);
    assert_eq!(error.code().as_str(), "port_unavailable");
    assert_eq!(error.invalid_field(), None);
}

#[test]
fn platform_feature_error_exposes_its_code() {
    let error = EgressError::platform_feature_unavailable("autostart");

    assert_eq!(error.code(), ErrorCode::PlatformFeatureUnavailable);
    assert_eq!(error.code().as_str(), "platform_feature_unavailable");
    assert!(!error.public_message().contains("autostart"));
}

#[test]
fn not_found_error_exposes_not_found_code() {
    let error = EgressError::not_found("profile");

    assert_eq!(error.code(), ErrorCode::NotFound);
    assert_eq!(error.code().as_str(), "not_found");
}

#[test]
fn storage_error_exposes_storage_code() {
    let error = EgressError::storage_message("disk is on fire");

    assert_eq!(error.code(), ErrorCode::StorageUnavailable);
    assert_eq!(error.code().as_str(), "storage_unavailable");
}

#[test]
fn public_message_does_not_leak_internal_details() {
    let secret_path = "/Users/secret-owner/private/state";
    let error = EgressError::StateDirUnavailable {
        source: format!("failed to create {secret_path}"),
    };

    let message = error.public_message();

    assert!(!message.contains(secret_path));
    assert!(!message.contains("secret-owner"));
    assert!(error.display_text().contains(secret_path));
}

#[test]
fn storage_public_message_does_not_leak_sql_or_paths() {
    let error = EgressError::storage_message(
        "SELECT * FROM rules WHERE profile_id = 'x' failed at /var/db/egresskeeper.sqlite3",
    );

    let message = error.public_message();

    assert!(!message.contains("SELECT"));
    assert!(!message.contains("/var/db"));
    assert!(message.contains("хранилищу"));
}

#[test]
fn display_text_names_the_field_and_the_cause() {
    assert_eq!(
        EgressError::validation("port", "must be between 1 and 65535").display_text(),
        "field `port` is invalid: must be between 1 and 65535"
    );
    assert_eq!(
        EgressError::not_found("rule").display_text(),
        "`rule` was not found"
    );
    assert_eq!(
        EgressError::storage("locked".to_owned()).display_text(),
        "storage failure: locked"
    );
    assert_eq!(
        EgressError::internal("clock".to_owned()).display_text(),
        "internal failure: clock"
    );
}

#[test]
fn every_error_code_has_its_contract_text() {
    assert_eq!(ErrorCode::NotFound.as_str(), "not_found");
    assert_eq!(ErrorCode::StorageUnavailable.as_str(), "storage_unavailable");
    assert_eq!(
        ErrorCode::PlatformFeatureUnavailable.as_str(),
        "platform_feature_unavailable"
    );
    assert_eq!(
        EgressError::internal("x".to_owned()).public_message(),
        "Внутренняя ошибка приложения."
    );
}
