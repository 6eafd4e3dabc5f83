//! The one outside call the log logic needs: the current local time as text.

use vstd::prelude::*;

verus! {

/// Relies on chrono's `Local::now` and `format`: renders the current local
/// time, to second precision, as `%Y-%m-%d %H:%M:%S`. The result depends on
/// the clock, so nothing is promised of it; every caller is verified for
/// every value it may take.
#[verifier::external_body]
pub(crate) fn local_time_string() -> String {
    chrono::Local::now().format("%Y-%m-%d %H:%M:%S").to_string()
}

} // verus!
