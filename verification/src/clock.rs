//! The clock.

use vstd::prelude::*;

verus! {

/// `chrono::Utc::now().timestamp()`: seconds since the epoch. What the clock
/// shows depends on the machine, so nothing is claimed of the number.
#[verifier::external_body]
pub(crate) fn utc_timestamp() -> (seconds: i64) {
    chrono::Utc::now().timestamp()
}

/// `chrono::Local::now()`, formatted as hours, minutes and seconds. What the
/// clock shows depends on the machine, so nothing is claimed of the text.
#[verifier::external_body]
pub(crate) fn local_time_text() -> (r: String) {
    chrono::Local::now().format("%H:%M:%S").to_string()
}

} // verus!
