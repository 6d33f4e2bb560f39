//! Instants as `chrono` keeps a `DateTime<Utc>`, and their rendering through
//! `chrono`'s `strftime` formatting.
use vstd::prelude::*;

verus! {

/// A point in time in UTC, as `chrono` stores it: whole seconds since the
/// Unix epoch, and the nanoseconds past that second (`1_000_000_000` and up
/// only within a leap second).
#[derive(Clone, Copy, Debug, PartialEq, Eq)]
pub struct UtcInstant {
    pub secs: i64,
    pub nanos: u32,
}

/// The `strftime` conversions that a plain pattern may use: year, month, day,
/// hour, minute and second.
pub open spec fn is_plain_conversion(c: char) -> bool {
    c == 'Y' || c == 'm' || c == 'd' || c == 'H' || c == 'M' || c == 'S'
}

/// A `strftime` pattern whose every `%` starts one of the plain conversions.
/// `chrono` formats every such pattern for every `DateTime<Utc>` without error
/// (other conversions, and a stray `%`, can make its `Display` fail).
pub open spec fn is_plain_pattern(p: Seq<char>) -> bool {
    forall|i: int|
        0 <= i < p.len() && #[trigger] p[i] == '%' ==> i + 1 < p.len() && is_plain_conversion(
            p[i + 1],
        )
}

/// The first second that `chrono` represents: the start of
/// January 1 of year -262143 (UTC), in seconds since the Unix epoch.
pub open spec fn first_second() -> int {
    -8_334_601_228_800
}

/// The last second that `chrono` represents: the last second of
/// December 31 of year 262142 (UTC), in seconds since the Unix epoch.
pub open spec fn last_second() -> int {
    8_210_266_876_799
}

/// Whether `chrono` has an instant `secs` seconds and `nanos` nanoseconds
/// after the Unix epoch: the second lies in its range of years, and the
/// nanoseconds stay below one second, or below two seconds within the last
/// second of a minute (a leap second).
pub open spec fn is_chrono_instant(secs: i64, nanos: u32) -> bool {
    &&& first_second() <= secs <= last_second()
    &&& (nanos < 1_000_000_000 || (nanos < 2_000_000_000 && secs % 60 == 59))
}

/// What `chrono` writes for the instant `(secs, nanos)` with the `strftime`
/// pattern `pattern`: `None` where `DateTime::from_timestamp` has no such
/// instant.
pub uninterp spec fn chrono_utc_text(secs: i64, nanos: u32, pattern: Seq<char>) -> Option<
    Seq<char>,
>;

/// Calls `chrono`'s `DateTime::from_timestamp(secs, nanos)` and, where it
/// gives an instant, formats it with `DateTime::format(pattern)` and
/// `ToString`.  Claimed: the result is the named `chrono_utc_text`; and, as
/// the source of `from_timestamp` (with `NaiveDate::from_num_days_from_ce_opt`
/// and `NaiveTime::from_num_seconds_from_midnight_opt`) shows, there is a
/// result exactly for the instants that `is_chrono_instant` describes.
#[verifier::external_body]
fn chrono_format_utc(secs: i64, nanos: u32, pattern: &str) -> (r: Option<String>)
    requires
        is_plain_pattern(pattern@),
    ensures
        match r {
            Some(text) => chrono_utc_text(secs, nanos, pattern@) == Some(text@),
            None => chrono_utc_text(secs, nanos, pattern@) is None,
        },
        r is Some <==> is_chrono_instant(secs, nanos),
{
    match chrono::DateTime::from_timestamp(secs, nanos) {
        Some(t) => Some(t.format(pattern).to_string()),
        None => None,
    }
}

/// The pattern in which session times are shown.
pub open spec fn session_time_pattern() -> Seq<char> {
    "%Y-%m-%d %H:%M:%S UTC"@
}

/// Renders an instant as session listings show it, `%Y-%m-%d %H:%M:%S UTC`;
/// `None` where `chrono` has no such instant.
pub fn format_session_time(t: &UtcInstant) -> (r: Option<String>)
    ensures
        match r {
            Some(text) => chrono_utc_text(t.secs, t.nanos, session_time_pattern()) == Some(
                text@,
            ),
            None => chrono_utc_text(t.secs, t.nanos, session_time_pattern()) is None,
        },
        r is Some <==> is_chrono_instant(t.secs, t.nanos),
{
    let pattern = "%Y-%m-%d %H:%M:%S UTC";
    proof {
        reveal_strlit("%Y-%m-%d %H:%M:%S UTC");
        assert(is_plain_pattern(pattern@));
    }
    chrono_format_utc(t.secs, t.nanos, pattern)
}

} // verus!
