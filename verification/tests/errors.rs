use tempdir::{to_new_error, Error, ErrorKind, ProviderErrorKind};

#[test]
fn test_to_new_error_not_found() {
    let e = to_new_error(ProviderErrorKind::NotFound, String::from("missing parent"));
    assert_eq!(e.kind(), ErrorKind::PathDoesNotExist);
}

#[test]
fn test_to_new_error_permission_denied() {
    let e = to_new_error(ProviderErrorKind::PermissionDenied, String::from("denied"));
    assert_eq!(e.kind(), ErrorKind::PermissionDenied);
}

#[test]
fn test_to_new_error_already_exists() {
    let e = to_new_error(ProviderErrorKind::AlreadyExists, String::from("taken"));
    assert_eq!(e.kind(), ErrorKind::AlreadyExists);
}

#[test]
fn test_to_new_error_other_keeps_cause_and_message() {
    let e = to_new_error(ProviderErrorKind::TimedOut, String::from("device slow"));
    assert_eq!(e.kind(), ErrorKind::OtherFilesystem);
    match e {
        Error::OtherFilesystem(kind, message) => {
            assert_eq!(kind, ProviderErrorKind::TimedOut);
            assert_eq!(message, "device slow");
        }
        _ => panic!("an unnamed cause must keep its kind and message"),
    }
}

#[test]
fn test_error_kind_classification() {
    assert_eq!(
        Error::EnvironmentLookupFailed.kind(),
        ErrorKind::EnvironmentLookupFailed
    );
    assert_eq!(
        Error::RetryBudgetExhausted.kind(),
        ErrorKind::RetryBudgetExhausted
    );
    assert_eq!(Error::AlreadyExists.kind(), ErrorKind::AlreadyExists);
}
