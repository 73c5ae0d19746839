//! The wall-clock texts the firmware narrative displays.  Both depend on
//! the time of the call, so nothing is promised of their content.

use vstd::prelude::*;

verus! {

/// Relies on chrono::Local::now and chrono::DateTime::format with
/// "%m/%d/%Y": the current local date as text.
#[verifier::external_body]
pub(crate) fn now_date_mdy() -> String {
    chrono::Local::now().format("%m/%d/%Y").to_string()
}

/// Relies on chrono::Local::now and chrono::DateTime::format with
/// "%H:%M:%S": the current local time as text.
#[verifier::external_body]
pub(crate) fn now_time_hms() -> String {
    chrono::Local::now().format("%H:%M:%S").to_string()
}

} // verus!
