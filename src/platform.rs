//! The calls into outside crates that the library relies on, each with the
//! contract that the outside crate's source shows.

use vstd::prelude::*;

verus! {

/// Whether `password` verifies against the bcrypt `hash`: a function of the
/// two strings alone. A malformed hash does not verify.
pub uninterp spec fn password_matches(password: Seq<char>, hash: Seq<char>) -> bool;

/// The cost bounds that bcrypt accepts.
pub const MIN_HASH_COST: u32 = 4;

pub const MAX_HASH_COST: u32 = 31;

/// Relies on bcrypt::hash: with a cost in 4..=31 it fails only when the
/// operating system's random source does; the hash is
/// `$2b$` + two cost digits + `$` + 53 characters of salt and digest, and
/// bcrypt::verify, which re-hashes with the salt and cost read from it,
/// accepts the password against it.
#[verifier::external_body]
pub(crate) fn hash_password(password: &str, cost: u32) -> (r: Option<String>)
    requires
        MIN_HASH_COST <= cost <= MAX_HASH_COST,
    ensures
        r matches Some(h) ==> h@.len() == 60 && password_matches(password@, h@),
{
    bcrypt::hash(password, cost).ok()
}

/// Relies on bcrypt::verify, which recomputes the digest with the salt and
/// cost read from `hash`; an error (a malformed hash) counts as no match.
#[verifier::external_body]
pub(crate) fn verify_password(password: &str, hash: &str) -> (r: bool)
    ensures
        r == password_matches(password@, hash@),
{
    bcrypt::verify(password, hash).unwrap_or(false)
}

/// Relies on uuid::Uuid::new_v4 and its `Display`, the hyphenated lower-case
/// form of 36 characters. The value is random.
#[verifier::external_body]
pub(crate) fn fresh_id() -> (r: String)
    ensures
        r@.len() == 36,
{
    uuid::Uuid::new_v4().to_string()
}

/// Relies on chrono::Utc::now and DateTime::timestamp_micros: the current
/// time as microseconds since the Unix epoch. Nothing is promised of it.
#[verifier::external_body]
pub(crate) fn now_micros() -> (r: i64) {
    chrono::Utc::now().timestamp_micros()
}

} // verus!
