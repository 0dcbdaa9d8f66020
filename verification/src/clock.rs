//! The timestamp of the receipt's date line.

use vstd::prelude::*;

verus! {

/// Relies on chrono's `Local::now` and `DateTime::format`: the current local
/// date and time rendered as `DD/MM/YYYY HH:MM`. The result depends on the
/// clock, so nothing is promised of its value.
#[verifier::external_body]
pub(crate) fn current_timestamp() -> (r: String) {
    chrono::Local::now().format("%d/%m/%Y %H:%M").to_string()
}

} // verus!
