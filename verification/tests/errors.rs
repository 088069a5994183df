use url_shortener::app::error::AppError;
use url_shortener::storage::error::StorageError;

#[test]
fn lock_error_becomes_storage_internal_error() {
    let err = AppError::from(StorageError::LockError("poisoned".to_owned()));
    assert_eq!(err, AppError::StorageInternalError("poisoned".to_owned()));
}

#[test]
fn not_found_becomes_url_not_found() {
    let err = AppError::from(StorageError::NotFound);
    assert_eq!(err, AppError::UrlNotFound);
}

#[test]
fn app_error_messages() {
    assert_eq!(AppError::UrlNotFound.message(), "Url not found".to_owned());
    assert_eq!(
        AppError::StorageInternalError("boom".to_owned()).message(),
        "Storage internal error: boom".to_owned()
    );
    assert_eq!(
        AppError::UrlParseError.message(),
        "Url parsing error".to_owned()
    );
}

#[test]
fn storage_error_messages() {
    assert_eq!(
        StorageError::NotFound.message(),
        "Full url not found".to_owned()
    );
    assert_eq!(
        StorageError::LockError("poisoned".to_owned()).message(),
        "poisoned".to_owned()
    );
}

#[test]
fn errors_of_different_kinds_are_unequal() {
    assert_ne!(AppError::UrlNotFound, AppError::UrlParseError);
    assert_ne!(
        AppError::StorageInternalError("a".to_owned()),
        AppError::StorageInternalError("b".to_owned())
    );
    assert_ne!(StorageError::NotFound, StorageError::LockError("x".to_owned()));
}
