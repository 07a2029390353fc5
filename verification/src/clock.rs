//! Identifiers and timestamps, which come from the clock and the random
//! number generator.

use vstd::prelude::*;

verus! {

/// A fresh UUID v7 in its hyphenated text form (`uuid::Uuid::now_v7`). The
/// value depends on the clock and on chance; the `uuid` crate documents the
/// hyphenated form as 36 characters long, which is all that is stated.
#[verifier::external_body]
pub(crate) fn uuid_v7() -> (r: String)
    ensures
        r@.len() == 36,
{
    uuid::Uuid::now_v7().to_string()
}

/// The current UTC time formatted as `%Y-%m-%dT%H:%M:%S%.3fZ`
/// (`chrono::Utc::now` then `format`). It depends on the clock, so nothing is
/// stated of it.
#[verifier::external_body]
pub(crate) fn now_iso() -> String {
    chrono::Utc::now().format("%Y-%m-%dT%H:%M:%S%.3fZ").to_string()
}

} // verus!
