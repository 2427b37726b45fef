//! The wall clock, read as text.
use vstd::prelude::*;

verus! {

/// Reads the wall clock through chrono: `Utc::now()` written out by
/// `to_rfc3339()`. The text depends on the moment of the call, so nothing is
/// claimed of it; callers state what holds for every text. chrono gives up
/// where the machine's clock stands before the year 1970, which no argument
/// of this function can rule out.
#[verifier::external_body]
pub(crate) fn utc_now_rfc3339() -> String {
    chrono::Utc::now().to_rfc3339()
}

} // verus!
