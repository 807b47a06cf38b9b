//! The calendar, as far as the calculation needs it.

use vstd::prelude::*;
use chrono::Datelike;

verus! {

/// The current calendar year in the local time zone, as `chrono::Local::now()`
/// and `Datelike::year` report it.
///
/// Nothing is claimed of the result: it depends on the clock and the time zone of
/// the machine. `Local::now` panics if the system clock stands before 1970.
#[verifier::external_body]
pub fn get_current_year() -> i32 {
    chrono::Local::now().year()
}

} // verus!
