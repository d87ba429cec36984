//! The library's outside calls: minting stable identifiers and reading the
//! current date. Each is a single trusted wrapper around one outside
//! function; everything built on their results is verified for every value
//! they could return.
use vstd::prelude::*;

verus! {

/// Relies on uuid's `Uuid::new_v4` and its `Display` rendering: a freshly
/// drawn random identifier, rendered in the hyphenated lower-case form,
/// which is 36 characters. The identifier is random, so nothing more is
/// promised of it.
#[verifier::external_body]
pub(crate) fn fresh_stable_id() -> (r: String)
    ensures
        r@.len() == 36,
{
    uuid::Uuid::new_v4().to_string()
}

/// Relies on chrono's `Local::now` and its `format`: the current local
/// date rendered like `January 02, 2006`. The result depends on the clock
/// and the machine's time zone, so nothing is promised of it.
#[verifier::external_body]
pub fn today_string() -> String {
    chrono::Local::now().format("%B %d, %Y").to_string()
}

} // verus!
