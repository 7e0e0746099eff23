//! The wall clock that stamps each message.

use vstd::prelude::*;

verus! {

/// Reads the local wall-clock time and writes it out without a zone offset.
///
/// This calls chrono's `Local::now`, takes the date and time of day that
/// `DateTime::naive_local` gives for it, and formats them with
/// `NaiveDateTime`'s `Display` impl. Nothing is claimed of the text: it is
/// different at every call and follows the machine's time zone.
#[verifier::external_body]
pub(crate) fn local_timestamp() -> (stamp: String) {
    chrono::Local::now().naive_local().to_string()
}

} // verus!
