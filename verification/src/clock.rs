//! Points in time, identifiers, and the outside calls that produce them.

use vstd::prelude::*;

verus! {

/// A point in time: whole seconds since the Unix epoch (UTC) and the
/// nanoseconds past that second.
#[derive(Debug, Clone, Copy, PartialEq, Eq)]
pub struct Timestamp {
    pub secs: i64,
    pub nanos: u32,
}

/// The current time, read with `chrono::Utc::now`. Nothing is claimed of it:
/// it depends on the clock.
#[verifier::external_body]
pub(crate) fn now() -> (t: Timestamp) {
    let d = chrono::Utc::now();
    Timestamp { secs: d.timestamp(), nanos: d.timestamp_subsec_nanos() }
}

/// A lowercase hexadecimal digit.
pub open spec fn is_lower_hex_digit(c: char) -> bool {
    ('0' <= c && c <= '9') || ('a' <= c && c <= 'f')
}

/// The text of a version-4 UUID as `Display` writes it: 36 characters,
/// lowercase hexadecimal digits in groups of 8, 4, 4, 4 and 12 joined by
/// `-`, with the version digit `4` and a variant digit among `8`, `9`, `a`,
/// `b`.
pub open spec fn is_uuid_v4_text(s: Seq<char>) -> bool {
    &&& s.len() == 36
    &&& forall|i: int|
        0 <= i < 36 ==> if i == 8 || i == 13 || i == 18 || i == 23 {
            #[trigger] s[i] == '-'
        } else {
            is_lower_hex_digit(s[i])
        }
    &&& s[14] == '4'
    &&& (s[19] == '8' || s[19] == '9' || s[19] == 'a' || s[19] == 'b')
}

/// A fresh random identifier from `uuid::Uuid::new_v4`, in the hyphenated
/// lowercase form that its `Display` writes. The claim: it is the text of a
/// version-4 UUID (which one is random).
#[verifier::external_body]
pub(crate) fn new_id() -> (r: String)
    ensures
        is_uuid_v4_text(r@),
{
    uuid::Uuid::new_v4().to_string()
}

/// The `chrono` format string for a date with hours and minutes.
pub open spec fn minute_format() -> Seq<char> {
    "%Y-%m-%d %H:%M"@
}

/// The text that `chrono` writes for the UTC time `secs`/`nanos` under the
/// date-and-minutes format, or `None` when `DateTime::from_timestamp` rejects
/// the time as out of range.
pub uninterp spec fn utc_minute_text(secs: i64, nanos: u32) -> Option<Seq<char>>;

/// Formats a time with `chrono::DateTime::<Utc>::from_timestamp` and `format`.
/// The claim: the result is `utc_minute_text` of the time. Only the
/// date-and-minutes format is accepted, since `chrono` panics when asked to
/// write a malformed format.
#[verifier::external_body]
fn format_utc(t: Timestamp, fmt: &str) -> (r: Option<String>)
    requires
        fmt@ == minute_format(),
    ensures
        match r {
            Some(s) => utc_minute_text(t.secs, t.nanos) == Some(s@),
            None => utc_minute_text(t.secs, t.nanos) is None,
        },
{
    chrono::DateTime::<chrono::Utc>::from_timestamp(t.secs, t.nanos).map(|d| d.format(fmt).to_string())
}

/// The date and minute of a time, as `YYYY-MM-DD HH:MM` in UTC.
pub fn minute_text(t: Timestamp) -> (r: Option<String>)
    ensures
        match r {
            Some(s) => utc_minute_text(t.secs, t.nanos) == Some(s@),
            None => utc_minute_text(t.secs, t.nanos) is None,
        },
{
    format_utc(t, "%Y-%m-%d %H:%M")
}

/// An ASCII decimal digit.
pub open spec fn is_ascii_digit(c: char) -> bool {
    '0' <= c && c <= '9'
}

/// The number that two ASCII digits write.
pub open spec fn two_digit_value(a: char, b: char) -> int {
    (a as int - 48) * 10 + (b as int - 48)
}

/// A year as `chrono` writes `%Y`: four digits, or, for years before 0 or
/// after 9999, a sign followed by at least four digits.
pub open spec fn is_year_text(y: Seq<char>) -> bool {
    ||| y.len() == 4 && forall|i: int| 0 <= i < 4 ==> is_ascii_digit(#[trigger] y[i])
    ||| y.len() >= 5 && (y[0] == '+' || y[0] == '-') && forall|i: int|
        1 <= i < y.len() ==> is_ascii_digit(#[trigger] y[i])
}

/// A date and minute as `chrono` writes `%Y-%m-%d %H:%M`: the year, then
/// `-MM-DD HH:MM` with the month 01 to 12, the day 01 to 31, the hour 00 to
/// 23 and the minute 00 to 59, each two digits.
pub open spec fn is_minute_text(s: Seq<char>) -> bool {
    let n = s.len() as int;
    &&& n >= 16
    &&& is_year_text(s.take(n - 12))
    &&& s[n - 12] == '-' && s[n - 9] == '-' && s[n - 6] == ' ' && s[n - 3] == ':'
    &&& is_ascii_digit(s[n - 11]) && is_ascii_digit(s[n - 10])
    &&& is_ascii_digit(s[n - 8]) && is_ascii_digit(s[n - 7])
    &&& is_ascii_digit(s[n - 5]) && is_ascii_digit(s[n - 4])
    &&& is_ascii_digit(s[n - 2]) && is_ascii_digit(s[n - 1])
    &&& 1 <= two_digit_value(s[n - 11], s[n - 10]) <= 12
    &&& 1 <= two_digit_value(s[n - 8], s[n - 7]) <= 31
    &&& two_digit_value(s[n - 5], s[n - 4]) <= 23
    &&& two_digit_value(s[n - 2], s[n - 1]) <= 59
}

/// The current local date and minute, written by `chrono::Local::now` and
/// `format`. The claim, from `chrono`'s documentation of the specifiers
/// `%Y`, `%m`, `%d`, `%H` and `%M`: the text has the shape of
/// `is_minute_text`. Which date and minute it holds depends on the clock and
/// on the machine's time zone, and is not stated. Only the date-and-minutes
/// format is accepted, since `chrono` panics when asked to write a malformed
/// format.
#[verifier::external_body]
fn format_local_now(fmt: &str) -> (r: String)
    requires
        fmt@ == minute_format(),
    ensures
        is_minute_text(r@),
{
    chrono::Local::now().format(fmt).to_string()
}

/// The current local date and minute, as `YYYY-MM-DD HH:MM` (the year
/// signed when outside 0 to 9999).
pub fn local_minute_text_now() -> (r: String)
    ensures
        is_minute_text(r@),
{
    format_local_now("%Y-%m-%d %H:%M")
}

} // verus!
