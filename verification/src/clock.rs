//! The one clock call the library makes: the creation timestamp stamped
//! onto new presets.

use vstd::prelude::*;

verus! {

/// Relies on chrono's Local::now and DateTime::to_rfc3339: the current
/// local time as RFC 3339 text. Nothing is claimed of the value, which
/// depends on the clock.
#[verifier::external_body]
pub(crate) fn local_now_rfc3339() -> String {
    chrono::Local::now().to_rfc3339()
}

} // verus!
