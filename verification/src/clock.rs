//! The time of a sign-up.

use vstd::prelude::*;

verus! {

/// Calls `time::now` and formats the result with `Tm::rfc3339`: the local
/// time of the call as text. Nothing is claimed of the text, since it
/// depends on the moment and on the machine's time zone.
#[verifier::external_body]
pub(crate) fn timestamp() -> (now: String) {
    format!("{}", time::now().rfc3339())
}

} // verus!
