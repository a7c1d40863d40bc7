//! The local wall clock, read through `chrono`.

use crate::reminder::ends_with_offset;
use crate::validation::is_valid_time;
use vstd::prelude::*;

verus! {

/// The pattern of a time of day to the minute: the hour from 00 to 23, a colon,
/// the minute from 00 to 59.
pub open spec fn hour_minute_pattern() -> Seq<char> {
    "%H:%M"@
}

/// `chrono::Local::now`, written out by `chrono::DateTime::format` with
/// `pattern`. For the pattern `%H:%M`, `%H` is the hour from 00 to 23 and `%M`
/// the minute from 00 to 59, each padded with a zero to two digits, so
/// whatever the moment, the text is a time of day in the form `HH:MM`. Which
/// one is not claimed. Reading the clock panics if the system's clock stands
/// before 1970 or if the machine's time zone data gives no offset for the
/// moment.
#[verifier::external_body]
pub(crate) fn local_now_as(pattern: &str) -> (text: String)
    requires
        pattern@ == hour_minute_pattern(),
    ensures
        is_valid_time(text@),
{
    chrono::Local::now().format(pattern).to_string()
}

/// `chrono::Local::now`, written out by `chrono::DateTime::to_rfc3339`: the
/// current local date and time with its offset from UTC. Whatever the moment,
/// the text is a year of at least four characters, `-`, two digits of month,
/// `-`, two digits of day, `T`, the time as `HH:MM:SS`, a fraction of the
/// second or none, and the offset as a sign, two digits of hours, a colon and
/// two digits of minutes. Of this the contract keeps the least length and the
/// shape of the offset. Which moment is not claimed. Reading the clock panics
/// if the system's clock stands before 1970 or if the machine's time zone data
/// gives no offset for the moment.
#[verifier::external_body]
pub(crate) fn local_now_rfc3339() -> (text: String)
    ensures
        ends_with_offset(text@),
{
    chrono::Local::now().to_rfc3339()
}

} // verus!
