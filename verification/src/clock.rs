//! Wall-clock timestamps for newly recorded entries.

use vstd::prelude::*;

verus! {

/// Relies on chrono's `Local::now` and `DateTime::format`: returns the
/// current local wall-clock time rendered at second resolution in the form
/// `YYYY-MM-DD HH:MM:SS`. Nothing is assumed of the result, since it depends
/// on the machine's clock and time zone.
#[verifier::external_body]
pub(crate) fn now_formatted() -> String {
    chrono::Local::now().format("%Y-%m-%d %H:%M:%S").to_string()
}

} // verus!
