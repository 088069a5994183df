//! Identifier providers: the random, nanoid-backed providers used in
//! production and the fixed providers used for testing.

use vstd::prelude::*;

pub mod id_provider;
pub mod short_url_provider;

verus! {

/// Length of the identifiers drawn by the nanoid-backed providers.
pub const ID_LENGTH: usize = 10;

/// Relies on nanoid::format with nanoid's URL-safe alphabet and its default
/// random source: the result is a string of exactly `len` characters drawn
/// from that (ASCII) alphabet. Nothing more is assumed of a random result.
#[verifier::external_body]
pub(crate) fn random_id(len: usize) -> (r: String)
    ensures
        r@.len() == len,
{
    nanoid::format(nanoid::rngs::default, &nanoid::alphabet::SAFE, len)
}

} // verus!
