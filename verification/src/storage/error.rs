use vstd::prelude::*;

verus! {

/// What the store can report instead of an answer: the backing lock has become
/// unusable (carrying diagnostic detail), or the requested key is absent.
/// These are the only two failure kinds of the storage layer.
#[derive(Debug)]
pub enum StorageError {
    LockError(String),
    NotFound,
}

impl PartialEq for StorageError {
    fn eq(&self, other: &Self) -> (r: bool) {
        match (self, other) {
            (StorageError::LockError(a), StorageError::LockError(b)) => *a == *b,
            (StorageError::NotFound, StorageError::NotFound) => true,
            _ => false,
        }
    }
}

impl vstd::std_specs::cmp::PartialEqSpecImpl for StorageError {
    open spec fn obeys_eq_spec() -> bool {
        true
    }

    open spec fn eq_spec(&self, other: &Self) -> bool {
        match (self, other) {
            (StorageError::LockError(a), StorageError::LockError(b)) => a@ == b@,
            (StorageError::NotFound, StorageError::NotFound) => true,
            _ => false,
        }
    }
}

impl StorageError {
    /// The human-readable description of the error.
    pub open spec fn message_spec(&self) -> Seq<char> {
        match self {
            StorageError::LockError(err) => err@,
            StorageError::NotFound => "Full url not found"@,
        }
    }

    pub fn message(&self) -> (r: String)
        ensures
            r@ == self.message_spec(),
    {
        match self {
            StorageError::LockError(err) => err.clone(),
            StorageError::NotFound => "Full url not found".to_owned(),
        }
    }
}

} // verus!
