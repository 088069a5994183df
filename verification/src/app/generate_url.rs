use vstd::prelude::*;

use crate::app::error::AppError;
use crate::storage::error::StorageError;

verus! {

/// Produces candidate short identifiers for the generate command.
pub trait ShortUrlProvider {
    /// Validity of the provider's configuration: a provider promises
    /// non-empty identifiers only while this holds.
    spec fn wf(&self) -> bool;

    /// Which identifiers this provider can hand out in its current state.
    spec fn provides(&self, id: Seq<char>) -> bool;

    /// Draws one identifier. Infallible and non-empty by contract.
    fn provide(&self) -> (r: String)
        requires
            self.wf(),
        ensures
            self.provides(r@),
            r@.len() > 0,
    ;
}

/// The write side of the store, as the generate command sees it.
pub trait GenerateShortUrlRepository {
    /// The invariant this store maintains across operations.
    spec fn inv(&self) -> bool;

    /// The mapping from short identifier to full URL this store holds.
    spec fn stored(&self) -> Map<Seq<char>, Seq<char>>;

    /// Whether `save` on this store can never fail: true of an in-memory
    /// store, not necessarily of one behind a poisonable lock.
    spec fn save_total(&self) -> bool;

    /// Inserts or overwrites the entry for `short_url` (last write wins).
    /// On failure the mapping is left untouched and the error is a lock
    /// failure, never an absence.
    fn save(&mut self, short_url: String, full_url: String) -> (r: Result<(), StorageError>)
        requires
            old(self).inv(),
        ensures
            final(self).inv(),
            final(self).save_total() == old(self).save_total(),
            old(self).save_total() ==> r is Ok,
            match r {
                Ok(_) => final(self).stored() == old(self).stored().insert(
                    short_url@,
                    full_url@,
                ),
                Err(e) => final(self).stored() == old(self).stored() && e is LockError,
            },
    ;
}

/// Orchestrates "generate then save": draws a fresh identifier from the
/// provider, persists the pair, and returns the identifier.
pub struct GenerateShortUrlCommand<P, R> where P: ShortUrlProvider, R: GenerateShortUrlRepository {
    short_url_provider: P,
    repository: R,
}

impl<P, R> GenerateShortUrlCommand<P, R> where
    P: ShortUrlProvider,
    R: GenerateShortUrlRepository,
 {
    /// The provider this command draws identifiers from.
    pub closed spec fn provider(&self) -> P {
        self.short_url_provider
    }

    /// The repository this command persists into.
    pub closed spec fn repo(&self) -> R {
        self.repository
    }

    pub open spec fn wf(&self) -> bool {
        self.provider().wf() && self.repo().inv()
    }

    pub fn new(short_url_provider: P, repository: R) -> (r: Self)
        ensures
            r.provider() == short_url_provider,
            r.repo() == repository,
    {
        Self { short_url_provider, repository }
    }

    /// Borrow of the repository, to inspect the store after commands ran.
    pub fn repository(&self) -> (r: &R)
        ensures
            r == self.repo(),
    {
        &self.repository
    }

    /// Obtains a fresh identifier, persists `(identifier, full_url)`, and
    /// returns the identifier. The only possible failure is a storage
    /// failure, surfaced as `StorageInternalError`; a store whose `save` is
    /// total makes this command infallible.
    pub fn generate(&mut self, full_url: &str) -> (r: Result<String, AppError>)
        requires
            old(self).wf(),
        ensures
            final(self).wf(),
            final(self).provider() == old(self).provider(),
            final(self).repo().save_total() == old(self).repo().save_total(),
            old(self).repo().save_total() ==> r is Ok,
            match r {
                Ok(id) => id@.len() > 0 && old(self).provider().provides(id@)
                    && final(self).repo().stored()
                        == old(self).repo().stored().insert(id@, full_url@),
                Err(e) => e is StorageInternalError
                    && final(self).repo().stored() == old(self).repo().stored(),
            },
    {
        let short_url = self.short_url_provider.provide();
        match self.repository.save(short_url.clone(), full_url.to_owned()) {
            Ok(_) => Ok(short_url),
            Err(e) => Err(AppError::from(e)),
        }
    }
}

} // verus!
