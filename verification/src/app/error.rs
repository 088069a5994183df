use vstd::prelude::*;
use vstd::string::StringExecFns;

use crate::storage::error::StorageError;

verus! {

/// The application-level error taxonomy. `UrlNotFound` is the client-visible
/// absence of an identifier, `StorageInternalError` carries the diagnostic
/// detail of an unusable store, and `UrlParseError` rejects input that is not
/// a syntactically valid URL before it reaches the store.
#[derive(Debug)]
pub enum AppError {
    UrlNotFound,
    StorageInternalError(String),
    UrlParseError,
}

impl PartialEq for AppError {
    fn eq(&self, other: &Self) -> (r: bool) {
        match (self, other) {
            (AppError::UrlNotFound, AppError::UrlNotFound) => true,
            (AppError::StorageInternalError(a), AppError::StorageInternalError(b)) => *a == *b,
            (AppError::UrlParseError, AppError::UrlParseError) => true,
            _ => false,
        }
    }
}

impl vstd::std_specs::cmp::PartialEqSpecImpl for AppError {
    open spec fn obeys_eq_spec() -> bool {
        true
    }

    open spec fn eq_spec(&self, other: &Self) -> bool {
        match (self, other) {
            (AppError::UrlNotFound, AppError::UrlNotFound) => true,
            (AppError::StorageInternalError(a), AppError::StorageInternalError(b)) => a@ == b@,
            (AppError::UrlParseError, AppError::UrlParseError) => true,
            _ => false,
        }
    }
}

/// Pure translation of a storage failure into the application taxonomy:
/// an unusable lock becomes an internal error, an absent key becomes the
/// client-visible "not found".
impl From<StorageError> for AppError {
    fn from(value: StorageError) -> (r: Self) {
        match value {
            StorageError::LockError(err) => AppError::StorageInternalError(err),
            StorageError::NotFound => AppError::UrlNotFound,
        }
    }
}

impl vstd::std_specs::convert::FromSpecImpl<StorageError> for AppError {
    open spec fn obeys_from_spec() -> bool {
        true
    }

    open spec fn from_spec(value: StorageError) -> Self {
        match value {
            StorageError::LockError(err) => AppError::StorageInternalError(err),
            StorageError::NotFound => AppError::UrlNotFound,
        }
    }
}

impl AppError {
    /// The human-readable description of the error.
    pub open spec fn message_spec(&self) -> Seq<char> {
        match self {
            AppError::UrlNotFound => "Url not found"@,
            AppError::StorageInternalError(err) => "Storage internal error: "@ + err@,
            AppError::UrlParseError => "Url parsing error"@,
        }
    }

    pub fn message(&self) -> (r: String)
        ensures
            r@ == self.message_spec(),
    {
        match self {
            AppError::UrlNotFound => "Url not found".to_owned(),
            AppError::StorageInternalError(err) => {
                "Storage internal error: ".to_owned().concat(err.as_str())
            },
            AppError::UrlParseError => "Url parsing error".to_owned(),
        }
    }
}

} // verus!
