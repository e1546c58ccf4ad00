use vstd::prelude::*;

verus! {

/// The strftime pattern that names the log files of a task: compact ISO 8601,
/// e.g. `20240131T235959`.
pub open spec fn stamp_pattern() -> Seq<char> {
    "%Y%m%dT%H%M%S"@
}

/// Whether `c` is a decimal digit.
pub open spec fn is_digit(c: char) -> bool {
    '0' <= c <= '9'
}

/// A time stamp as `%Y%m%dT%H%M%S` renders a time from 1970 on: the year,
/// then month, day, `T`, hour, minute and second of two digits each. The year
/// has four digits, or, past 9999, a `+` and five or six digits; so the text
/// has 15 to 18 characters, `T` is the seventh from the end, and every other
/// character is a digit but a leading `+` in a text longer than 15.
pub open spec fn is_stamp(t: Seq<char>) -> bool {
    &&& 15 <= t.len() <= 18
    &&& t[t.len() - 7] == 'T'
    &&& forall|i: int|
        0 <= i < t.len() && i != t.len() - 7 ==> (is_digit(#[trigger] t[i]) || (i == 0
            && t.len() > 15 && t[i] == '+'))
    &&& t.len() > 15 ==> t[0] == '+'
}

/// What chrono renders, with `pattern`, for the UTC instant `secs` seconds and
/// `nanos` nanoseconds after 1970-01-01T00:00:00, or `None` where
/// `DateTime::from_timestamp` holds no such instant.
pub uninterp spec fn formatted_utc(secs: i64, nanos: u32, pattern: Seq<char>) -> Option<
    Seq<char>,
>;

/// Whether `t` is the text chrono renders, with the stamp pattern, for some
/// instant from 1970 on.
pub open spec fn renders_an_instant(t: Seq<char>) -> bool {
    exists|secs: i64, nanos: u32|
        0 <= secs && #[trigger] formatted_utc(secs, nanos, stamp_pattern()) == Some(t)
}

/// Reads the system clock with `std::time::SystemTime::now` and measures it
/// with `duration_since(UNIX_EPOCH)`, handing out the whole seconds and the
/// nanoseconds of the `Duration`.
///
/// `None` where the clock reads before 1970. The nanoseconds are below one
/// billion, as `Duration::subsec_nanos` documents; nothing else is stated,
/// the time depending on when the call is made.
#[verifier::external_body]
fn unix_time_now() -> (t: Option<(u64, u32)>)
    ensures
        t matches Some((_, nanos)) ==> nanos < 1_000_000_000,
{
    match std::time::SystemTime::now().duration_since(std::time::UNIX_EPOCH) {
        Ok(since) => Some((since.as_secs(), since.subsec_nanos())),
        Err(_) => None,
    }
}

/// Renders an instant with `chrono::DateTime::from_timestamp(secs, nanos)`,
/// then `DateTime::format(pattern)` and `to_string`; `None` where
/// `from_timestamp` holds no such instant (out of range, or invalid
/// nanoseconds).
///
/// The text is named `formatted_utc`. For an instant from 1970 on it has the
/// shape `is_stamp` describes: chrono's `%Y` writes a zero-padded four-digit
/// year, or, past 9999, the year with a `+` sign (at most 262143, the last year
/// chrono holds); `%m`, `%d`, `%H`, `%M` and `%S` write two digits each.
/// `requires` admits only the one pattern this crate uses, a pattern chrono
/// renders without error (an invalid pattern makes the rendering panic).
#[verifier::external_body]
fn format_utc(secs: i64, nanos: u32, pattern: &str) -> (r: Option<String>)
    requires
        pattern@ == stamp_pattern(),
    ensures
        match r {
            Some(text) => formatted_utc(secs, nanos, pattern@) == Some(text@) && (secs >= 0
                ==> is_stamp(text@)),
            None => formatted_utc(secs, nanos, pattern@) is None,
        },
{
    match chrono::DateTime::from_timestamp(secs, nanos) {
        Some(instant) => Some(instant.format(pattern).to_string()),
        None => None,
    }
}

/// The stamp of the instant `secs` seconds and `nanos` nanoseconds after
/// 1970-01-01T00:00:00 UTC: exactly what chrono renders for that instant with
/// the stamp pattern, or `None` where chrono holds no such instant.
pub fn stamp_for(secs: u64, nanos: u32) -> (stamp: Option<String>)
    ensures
        secs <= i64::MAX ==> match stamp {
            Some(s) => formatted_utc(secs as i64, nanos, stamp_pattern()) == Some(s@) && is_stamp(
                s@,
            ),
            None => formatted_utc(secs as i64, nanos, stamp_pattern()) is None,
        },
        secs > i64::MAX ==> stamp is None,
{
    if secs <= i64::MAX as u64 {
        format_utc(secs as i64, nanos, "%Y%m%dT%H%M%S")
    } else {
        None
    }
}

/// The current UTC time as a compact time stamp (`20240131T235959`): the
/// clock is read once and [`stamp_for`] renders that reading; `None` where the
/// clock reads before 1970 or beyond the last date chrono holds.
pub fn current_stamp() -> (stamp: Option<String>)
    ensures
        stamp matches Some(s) ==> is_stamp(s@) && renders_an_instant(s@),
{
    match unix_time_now() {
        Some((secs, nanos)) => stamp_for(secs, nanos),
        None => None,
    }
}

} // verus!
