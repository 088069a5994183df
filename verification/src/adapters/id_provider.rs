use vstd::prelude::*;

use crate::adapters::random_id;
use crate::adapters::ID_LENGTH;

verus! {

/// Produces short identifier strings on demand. Stateless implementations
/// draw them at random; a deterministic one exists for testing.
pub trait IdProvider {
    /// Validity of the provider's configuration: a provider promises
    /// non-empty identifiers only while this holds.
    spec fn wf(&self) -> bool;

    /// Which identifiers this provider can hand out in its current state.
    spec fn provides(&self, id: Seq<char>) -> bool;

    /// Draws one identifier. Infallible and non-empty by contract.
    fn provide(&self) -> (r: String)
        requires
            self.wf(),
        ensures
            self.provides(r@),
            r@.len() > 0,
    ;
}

/// Draws random identifiers of a fixed length from a URL-safe alphabet.
pub struct NanoIdProvider;

impl IdProvider for NanoIdProvider {
    open spec fn wf(&self) -> bool {
        true
    }

    open spec fn provides(&self, id: Seq<char>) -> bool {
        id.len() == ID_LENGTH
    }

    fn provide(&self) -> (r: String) {
        random_id(ID_LENGTH)
    }
}

/// Hands out one fixed identifier, settable by the caller; for testing.
pub struct FakeIdProvider {
    id: String,
}

impl FakeIdProvider {
    /// The identifier this fake currently hands out.
    pub closed spec fn current_id(&self) -> Seq<char> {
        self.id@
    }

    pub fn new(id: String) -> (r: Self)
        ensures
            r.current_id() == id@,
    {
        FakeIdProvider { id }
    }

    pub fn set_id(&mut self, new_id: String)
        ensures
            final(self).current_id() == new_id@,
    {
        self.id = new_id;
    }
}

impl IdProvider for FakeIdProvider {
    open spec fn wf(&self) -> bool {
        self.current_id().len() > 0
    }

    open spec fn provides(&self, id: Seq<char>) -> bool {
        id == self.current_id()
    }

    fn provide(&self) -> (r: String) {
        self.id.clone()
    }
}

} // verus!
