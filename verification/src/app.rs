//! The application layer: error taxonomy, the generate command, the resolve
//! query, and the facade that composes them over one store.

use vstd::prelude::*;

pub mod error;
pub mod generate_url;
pub mod get_full_url;

use crate::app::error::AppError;
use crate::app::generate_url::GenerateShortUrlRepository;
use crate::app::generate_url::ShortUrlProvider;
use crate::app::get_full_url::GetFullUrlRepository;
use crate::storage::in_memory::InMemoryRepository;

verus! {

/// The facade the transport layer consumes: one provider and one in-memory
/// store back both operations, so what `generate` persists is exactly what
/// `resolve` answers from. The facade only delegates; it adds no logic.
pub struct App<P> where P: ShortUrlProvider {
    short_url_provider: P,
    repository: InMemoryRepository,
}

impl<P> App<P> where P: ShortUrlProvider {
    /// The provider this facade draws identifiers from.
    pub closed spec fn provider(&self) -> P {
        self.short_url_provider
    }

    /// The store backing both operations.
    pub closed spec fn repo(&self) -> InMemoryRepository {
        self.repository
    }

    pub open spec fn wf(&self) -> bool {
        self.provider().wf() && self.repo().wf()
    }

    pub fn new(short_url_provider: P, repository: InMemoryRepository) -> (r: Self)
        ensures
            r.provider() == short_url_provider,
            r.repo() == repository,
            r@ == repository@,
    {
        Self { short_url_provider, repository }
    }

    /// Draws a fresh identifier, persists `(identifier, full_url)`, and
    /// returns the identifier. Backed by the in-memory store this never
    /// fails.
    pub fn generate(&mut self, full_url: &str) -> (r: Result<String, AppError>)
        requires
            old(self).wf(),
        ensures
            final(self).wf(),
            final(self).provider() == old(self).provider(),
            r is Ok,
            match r {
                Ok(id) => id@.len() > 0 && old(self).provider().provides(id@)
                    && final(self)@ == old(self)@.insert(id@, full_url@),
                Err(_) => false,
            },
    {
        let short_url = self.short_url_provider.provide();
        match self.repository.save(short_url.clone(), full_url.to_owned()) {
            Ok(_) => Ok(short_url),
            Err(e) => Err(AppError::from(e)),
        }
    }

    /// Resolves an identifier back to its URL, `UrlNotFound` exactly when the
    /// store does not hold it. No side effect in any case.
    pub fn resolve(&self, short_url: &str) -> (r: Result<String, AppError>)
        requires
            self.wf(),
        ensures
            match r {
                Ok(full_url) => self@.contains_key(short_url@) && full_url@
                    == self@[short_url@],
                Err(e) => e is UrlNotFound && !self@.contains_key(short_url@),
            },
    {
        match self.repository.get(short_url) {
            Ok(full_url) => Ok(full_url),
            Err(e) => Err(AppError::from(e)),
        }
    }
}

impl<P> View for App<P> where P: ShortUrlProvider {
    type V = Map<Seq<char>, Seq<char>>;

    closed spec fn view(&self) -> Map<Seq<char>, Seq<char>> {
        self.repository@
    }
}

/// Round trip: resolving an identifier that a successful `generate` has just
/// persisted yields exactly the URL it was generated for. The hypothesis is
/// what `generate` ensures of the facade's mapping; the conclusion is what
/// `resolve` then returns for that identifier.
pub proof fn lemma_generate_resolve_round_trip<P: ShortUrlProvider>(
    before: App<P>,
    after: App<P>,
    id: Seq<char>,
    full_url: Seq<char>,
)
    requires
        after@ == before@.insert(id, full_url),
    ensures
        after@.contains_key(id),
        after@[id] == full_url,
{
}

/// A successful `generate` grows the mapping by exactly one entry — or keeps
/// the count when the identifier overwrote an existing one — and the entry
/// for the new identifier holds the URL that was passed in.
pub proof fn lemma_generate_store_growth<P: ShortUrlProvider>(
    before: App<P>,
    after: App<P>,
    id: Seq<char>,
    full_url: Seq<char>,
)
    requires
        after@ == before@.insert(id, full_url),
    ensures
        after@[id] == full_url,
        after@.len() == if before@.contains_key(id) {
            before@.len()
        } else {
            before@.len() + 1
        },
{
    before.repo().lemma_view_finite();
    vstd::set::axiom_set_insert_len(before@.dom(), id);
    assert(after@.dom() =~= before@.dom().insert(id));
}

/// Writers under distinct identifiers do not interfere: after two `generate`
/// results were persisted under different identifiers, in either order, each
/// identifier resolves to its own URL.
pub proof fn lemma_no_cross_talk<P: ShortUrlProvider>(
    before: App<P>,
    after: App<P>,
    id1: Seq<char>,
    url1: Seq<char>,
    id2: Seq<char>,
    url2: Seq<char>,
)
    requires
        id1 != id2,
        after@ == before@.insert(id1, url1).insert(id2, url2),
    ensures
        after@.contains_key(id1),
        after@.contains_key(id2),
        after@[id1] == url1,
        after@[id2] == url2,
{
}

} // verus!
