use vstd::prelude::*;

use crate::app::error::AppError;
use crate::storage::error::StorageError;

verus! {

/// The read side of the store, as the resolve query sees it.
pub trait GetFullUrlRepository {
    /// The invariant this store maintains across operations.
    spec fn inv(&self) -> bool;

    /// The mapping from short identifier to full URL this store answers from.
    spec fn entries(&self) -> Map<Seq<char>, Seq<char>>;

    /// Whether lookups on this store always reach the mapping: true of an
    /// in-memory store, not necessarily of one behind a poisonable lock.
    spec fn lookup_total(&self) -> bool;

    /// Returns the URL stored under `short_url`, `NotFound` if the key is
    /// absent, and a lock failure only on a store whose lookups are not
    /// total. No side effect in any case.
    fn get(&self, short_url: &str) -> (r: Result<String, StorageError>)
        requires
            self.inv(),
        ensures
            match r {
                Ok(full_url) => self.entries().contains_key(short_url@) && full_url@
                    == self.entries()[short_url@],
                Err(e) => match e {
                    StorageError::NotFound => !self.entries().contains_key(short_url@),
                    StorageError::LockError(_) => !self.lookup_total(),
                },
            },
    ;
}

/// Orchestrates a resolve: one lookup, with the storage error taxonomy
/// translated into the application one.
pub struct GetFullUrlQuery<R> where R: GetFullUrlRepository {
    repository: R,
}

impl<R> GetFullUrlQuery<R> where R: GetFullUrlRepository {
    /// The repository this query reads from.
    pub closed spec fn repo(&self) -> R {
        self.repository
    }

    pub fn new(repository: R) -> (r: Self)
        ensures
            r.repo() == repository,
    {
        Self { repository }
    }

    /// Looks `short_url` up. An absent identifier is reported as
    /// `UrlNotFound`; a lock failure (impossible on a store whose lookups
    /// are total) as `StorageInternalError`. No side effect in any case.
    pub fn get(&self, short_url: &str) -> (r: Result<String, AppError>)
        requires
            self.repo().inv(),
        ensures
            match r {
                Ok(full_url) => self.repo().entries().contains_key(short_url@) && full_url@
                    == self.repo().entries()[short_url@],
                Err(e) => match e {
                    AppError::UrlNotFound => !self.repo().entries().contains_key(short_url@),
                    AppError::StorageInternalError(_) => !self.repo().lookup_total(),
                    AppError::UrlParseError => false,
                },
            },
    {
        match self.repository.get(short_url) {
            Ok(full_url) => Ok(full_url),
            Err(e) => Err(AppError::from(e)),
        }
    }
}

} // verus!
