use vstd::prelude::*;

use crate::adapters::random_id;
use crate::adapters::ID_LENGTH;
use crate::app::generate_url::ShortUrlProvider;

verus! {

/// Draws random identifiers of a fixed length from a URL-safe alphabet; the
/// provider the generate command uses in production.
pub struct NanoUrlShortener;

impl ShortUrlProvider for NanoUrlShortener {
    open spec fn wf(&self) -> bool {
        true
    }

    open spec fn provides(&self, id: Seq<char>) -> bool {
        id.len() == ID_LENGTH
    }

    fn provide(&self) -> (r: String) {
        random_id(ID_LENGTH)
    }
}

/// Hands out one fixed identifier, settable by the caller; for testing.
pub struct FakeUrlShortener {
    id: String,
}

impl FakeUrlShortener {
    /// The identifier this fake currently hands out.
    pub closed spec fn current_id(&self) -> Seq<char> {
        self.id@
    }

    pub fn new(id: String) -> (r: Self)
        ensures
            r.current_id() == id@,
    {
        FakeUrlShortener { id }
    }

    pub fn set_id(&mut self, new_id: String)
        ensures
            final(self).current_id() == new_id@,
    {
        self.id = new_id;
    }
}

impl ShortUrlProvider for FakeUrlShortener {
    open spec fn wf(&self) -> bool {
        self.current_id().len() > 0
    }

    open spec fn provides(&self, id: Seq<char>) -> bool {
        id == self.current_id()
    }

    fn provide(&self) -> (r: String) {
        self.id.clone()
    }
}

} // verus!
