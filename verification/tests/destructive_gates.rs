use cog_core::destructive;
use cog_core::destructive::check_bulk_trash;
use cog_core::Error;

#[test]
fn bulk_trash_within_threshold() {
    assert!(check_bulk_trash(50).is_ok());
    assert!(check_bulk_trash(1).is_ok());
    assert!(check_bulk_trash(0).is_ok());
}

#[test]
fn bulk_trash_exceeds_threshold() {
    let result = check_bulk_trash(51);
    assert!(result.is_err());
    match result.unwrap_err() {
        Error::BulkTrashDenied { count } => assert_eq!(count, 51),
        e => panic!("unexpected error: {e:?}"),
    }
}

#[test]
fn bulk_trash_within_threshold_allowed() {
    assert!(destructive::check_bulk_trash(50).is_ok());
    assert!(destructive::check_bulk_trash(1).is_ok());
    assert!(destructive::check_bulk_trash(0).is_ok());
}

#[test]
fn bulk_trash_at_boundary() {
    // Exactly 50 is allowed; 51 is denied in the default build.
    assert!(destructive::check_bulk_trash(50).is_ok());
    let result = destructive::check_bulk_trash(51);
    assert!(result.is_err(), "51 items should be denied without feature");
    match result.unwrap_err() {
        Error::BulkTrashDenied { count } => {
            assert_eq!(count, 51);
        }
        e => panic!("expected BulkTrashDenied, got: {e:?}"),
    }
}

#[test]
fn bulk_trash_large_count() {
    let result = destructive::check_bulk_trash(10000);
    assert!(result.is_err());
}

#[test]
fn error_exit_code_for_permanent_delete_denied() {
    let err = Error::PermanentDeleteDenied;
    assert_eq!(err.exit_code(), 1);
}

#[test]
fn error_exit_code_for_bulk_trash_denied() {
    let err = Error::BulkTrashDenied { count: 100 };
    assert_eq!(err.exit_code(), 1);
}

#[test]
fn bulk_trash_threshold_is_fifty() {
    assert_eq!(destructive::BULK_TRASH_THRESHOLD, 50);
    assert!(check_bulk_trash(usize::MAX).is_err());
}

#[test]
fn exit_codes_of_every_error_kind() {
    assert_eq!(Error::AuthRequired("x".into()).exit_code(), 4);
    assert_eq!(Error::OAuth2("x".into()).exit_code(), 4);
    assert_eq!(Error::NotFound("x".into()).exit_code(), 5);
    assert_eq!(Error::PermissionDenied("x".into()).exit_code(), 6);
    assert_eq!(Error::RateLimited { retry_after_secs: None }.exit_code(), 7);
    assert_eq!(Error::Retryable("x".into()).exit_code(), 8);
    assert_eq!(Error::CircuitBreakerOpen { service: "s".into() }.exit_code(), 8);
    assert_eq!(Error::Config("x".into()).exit_code(), 10);
    assert_eq!(Error::Cancelled.exit_code(), 130);
    assert_eq!(Error::Other("x".into()).exit_code(), 1);
    assert_eq!(Error::Keyring("x".into()).exit_code(), 1);
    assert_eq!(Error::Json("x".into()).exit_code(), 1);
}
