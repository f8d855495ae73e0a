//! The clock. Every function of the library that depends on the time has a
//! form that takes the time as an argument; the forms without it read the
//! clock here and hand the reading on.

use crate::types::Timestamp;
use vstd::prelude::*;

verus! {

/// Reads the wall clock as milliseconds since the Unix epoch, with
/// `chrono::Utc::now` and `DateTime::timestamp_millis`. The reading differs
/// from call to call, so nothing is claimed of it. `Utc::now` does not
/// return where the system clock stands before 1970 or beyond the years
/// that chrono can hold; whoever must rule that out calls the forms that
/// take the time as an argument.
#[verifier::external_body]
pub(crate) fn now_millis() -> Timestamp {
    chrono::Utc::now().timestamp_millis()
}

} // verus!
