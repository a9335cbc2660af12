//! The wall clock, read through `chrono`. What comes back differs from one
//! call to the next, so nothing is stated of it.

use vstd::prelude::*;

verus! {

/// `chrono::Utc::now`, written with `to_rfc3339`: the present moment as an
/// RFC 3339 text.
#[verifier::external_body]
pub(crate) fn utc_rfc3339() -> (r: String) {
    chrono::Utc::now().to_rfc3339()
}

/// `chrono::Utc::now`, read with `timestamp`: the present moment in seconds
/// since the start of 1970.
#[verifier::external_body]
pub(crate) fn utc_seconds() -> (r: i64) {
    chrono::Utc::now().timestamp()
}

} // verus!
