//! Trusted bindings to the outside facilities the catalog logic needs:
//! content digests, fresh identifiers, and the current time.

use sha2::{Digest, Sha256};
use vstd::prelude::*;

verus! {

/// The name this module gives to the SHA-256 digest of a character
/// sequence's UTF-8 encoding; the digest itself is computed by the
/// `sha2` crate and depends on the input characters alone.
pub uninterp spec fn sha256_of(s: Seq<char>) -> Seq<u8>;

/// Relies on `sha2::Sha256` (`Digest::new`, `Digest::update`,
/// `Digest::finalize`): a SHA-256 digest is 32 bytes and is a function of
/// the input bytes alone.
#[verifier::external_body]
pub(crate) fn sha256_bytes(content: &str) -> (r: Vec<u8>)
    ensures
        r@ == sha256_of(content@),
        r@.len() == 32,
{
    let mut hasher = Sha256::new();
    hasher.update(content.as_bytes());
    hasher.finalize().to_vec()
}

/// Relies on `uuid::Uuid::new_v4` and its `Display` impl: the hyphenated
/// form of a UUID is always 36 characters. The value itself is random, so
/// nothing more is promised of it.
#[verifier::external_body]
pub(crate) fn new_id() -> (r: String)
    ensures
        r@.len() == 36,
{
    uuid::Uuid::new_v4().to_string()
}

/// Relies on `chrono::Utc::now` and `DateTime::timestamp_millis`: the
/// current moment as milliseconds since the Unix epoch. The clock decides
/// the value, so nothing is promised of it.
#[verifier::external_body]
pub(crate) fn now_millis() -> i64 {
    chrono::Utc::now().timestamp_millis()
}

} // verus!
