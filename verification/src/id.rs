//! Generating request ids for client-side use.

use vstd::prelude::*;

use crate::jsonrpc::RequestId;

verus! {

/// A source of fresh request ids: every call expecting a response needs
/// one.
pub trait RequestIdGenerator {
    /// The next id.
    fn next_id(&self) -> RequestId;
}

/// Relies on uuid::Uuid::now_v7 and its hyphenated text form: a fresh
/// version-7 UUID rendered as 36 characters. Nothing more is claimed: the
/// value depends on the clock and on randomness.
#[verifier::external_body]
fn new_v7_string() -> (r: String)
    ensures
        r@.len() == 36,
{
    uuid::Uuid::now_v7().to_string()
}

/// Generates ids as version-7 UUID strings: no lock, no stored state, and
/// time-ordered, which suits serverless use and database locality.
pub struct Uuidv7RequestIdGenerator;

impl RequestIdGenerator for Uuidv7RequestIdGenerator {
    fn next_id(&self) -> (r: RequestId) {
        RequestId::Str(new_v7_string())
    }
}

} // verus!
