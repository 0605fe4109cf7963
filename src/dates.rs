//! Text forms of instants, as the calendar library writes them.
use vstd::prelude::*;

use crate::cache::valid_instant;

verus! {

/// The instant `secs` written as "Mon DD, YYYY" in UTC.
pub uninterp spec fn calendar_date_text(secs: int) -> Seq<char>;

/// The instant `secs` written in RFC 3339 form in UTC.
pub uninterp spec fn rfc3339_text(secs: int) -> Seq<char>;

/// Relies on chrono's `DateTime::from_timestamp` and its `format("%b %d, %Y")`:
/// the text depends on the instant alone, and every instant within the
/// calendar's range converts.
#[verifier::external_body]
pub(crate) fn format_calendar_date(secs: i64) -> (r: Option<String>)
    ensures
        r is Some ==> r->0@ == calendar_date_text(secs as int),
        valid_instant(secs) ==> r is Some,
{
    chrono::DateTime::from_timestamp(secs, 0).map(|d| d.format("%b %d, %Y").to_string())
}

/// Relies on chrono's `DateTime::from_timestamp` and `to_rfc3339`: the text
/// depends on the instant alone, and every instant within the calendar's range
/// converts.
#[verifier::external_body]
pub(crate) fn format_rfc3339(secs: i64) -> (r: Option<String>)
    ensures
        r is Some ==> r->0@ == rfc3339_text(secs as int),
        valid_instant(secs) ==> r is Some,
{
    chrono::DateTime::from_timestamp(secs, 0).map(|d| d.to_rfc3339())
}

/// What an optional instant shows as, given how one instant is written.
pub open spec fn shown_instant(t: Option<i64>, shown: Option<String>, text: spec_fn(int) -> Seq<char>) -> bool {
    match t {
        None => shown is None,
        Some(secs) => (shown is Some ==> shown->0@ == text(secs as int)) && (valid_instant(secs)
            ==> shown is Some),
    }
}

/// An optional instant as a calendar date.
pub fn calendar_date_of(t: Option<i64>) -> (r: Option<String>)
    ensures
        shown_instant(t, r, |s: int| calendar_date_text(s)),
{
    match t {
        Some(secs) => format_calendar_date(secs),
        None => None,
    }
}

/// An optional instant in RFC 3339 form.
pub fn rfc3339_of(t: Option<i64>) -> (r: Option<String>)
    ensures
        shown_instant(t, r, |s: int| rfc3339_text(s)),
{
    match t {
        Some(secs) => format_rfc3339(secs),
        None => None,
    }
}

} // verus!
