use egresskeeper_core::error::{EgressError, ErrorCode};
use egresskeeper_core::state_dir::{check_is_directory, FsStateDirectory};

#[test]
fn path_accessor_returns_configured_path() {
    let directory = FsStateDirectory::new("/tmp/egresskeeper");

    assert_eq!(directory.path(), "/tmp/egresskeeper");
}

#[test]
fn empty_path_is_rejected_as_validation_error() {
    let error = FsStateDirectory::new("").check_path().expect_err("empty path must be rejected");

    assert_eq!(error.code(), ErrorCode::Validation);
    assert_eq!(error.invalid_field(), Some("state_dir"));
    assert!(FsStateDirectory::new("/state").check_path().is_ok());
}

#[test]
fn validation_error_for_empty_path_is_not_state_dir_failure() {
    let error = FsStateDirectory::new("").check_path().expect_err("empty path");

    assert!(matches!(error, EgressError::Validation { .. }));
    assert_eq!(
        error.public_message(),
        "Запрос содержит недопустимые данные."
    );
}

#[test]
fn a_file_in_place_of_the_directory_is_a_state_dir_failure() {
    assert!(check_is_directory(true).is_ok());
    match check_is_directory(false) {
        Err(EgressError::StateDirUnavailable { source }) => {
            assert_eq!(source, "state directory path exists and is not a directory");
        }
        other => panic!("unexpected {other:?}"),
    }
}
