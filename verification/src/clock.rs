use vstd::prelude::*;
use vstd::string::*;
use chrono::Datelike;

use crate::decimal::{decimal_text, i64_to_text, lemma_decimal_text, signed_decimal_text};

verus! {

/// An instant: whole seconds since 1970-01-01T00:00:00Z and the nanoseconds
/// past them (above 999,999,999 only within a leap second).
#[derive(Debug, Clone, Copy, PartialEq, Eq, Structural)]
pub struct Timestamp {
    pub seconds: i64,
    pub nanos: u32,
}

/// A calendar date.
#[derive(Debug, Clone, Copy, PartialEq, Eq, Structural)]
pub struct Date {
    pub year: i32,
    pub month: u32,
    pub day: u32,
}

/// The instant, as whole seconds and nanoseconds, that chrono's RFC 3339
/// parser reads from `text`; `None` where it refuses the text.
pub uninterp spec fn rfc3339_instant(text: Seq<char>) -> Option<(i64, u32)>;

/// The RFC 3339 text that chrono writes for the UTC instant `seconds` and
/// `nanos`; `None` where chrono holds no such instant.
pub uninterp spec fn rfc3339_text(seconds: i64, nanos: u32) -> Option<Seq<char>>;

/// The year, month and day that chrono reads from `text` in the format
/// `%Y-%m-%d`; `None` where it refuses the text.
pub uninterp spec fn iso_date(text: Seq<char>) -> Option<(i32, u32, u32)>;

/// The text that chrono's `Display` writes for the calendar date `year`,
/// `month`, `day`; `None` where that is no calendar date.
pub uninterp spec fn iso_date_text(year: i32, month: u32, day: u32) -> Option<Seq<char>>;

/// The view of an optional string.
pub open spec fn text_view(t: Option<String>) -> Option<Seq<char>> {
    match t {
        Some(s) => Some(s@),
        None => None,
    }
}

/// Whether chrono can write `ts` as RFC 3339 text.
pub open spec fn writable_instant(ts: Timestamp) -> bool {
    rfc3339_text(ts.seconds, ts.nanos) is Some
}

/// Whether chrono can write `d` as a date.
pub open spec fn writable_date(d: Date) -> bool {
    iso_date_text(d.year, d.month, d.day) is Some
}

/// The current instant, read from the system clock with std's
/// `SystemTime::now`, as the time elapsed since 1970 (`duration_since`).
///
/// Claimed: a reading lies at or after 1970, with fewer than 10^9
/// nanoseconds past its second (std documents `subsec_nanos` so). `None`
/// comes where the clock stands before 1970 or its seconds do not fit in
/// `i64`. Which instant comes back is left unsaid: it is the time of the call.
#[verifier::external_body]
pub(crate) fn clock_now() -> (now: Option<Timestamp>)
    ensures
        now matches Some(ts) ==> ts.seconds >= 0 && ts.nanos < 1_000_000_000,
{
    match std::time::SystemTime::now().duration_since(std::time::UNIX_EPOCH) {
        Ok(elapsed) => match i64::try_from(elapsed.as_secs()) {
            Ok(seconds) => Some(Timestamp { seconds, nanos: elapsed.subsec_nanos() }),
            Err(_) => None,
        },
        Err(_) => None,
    }
}

/// Whether `ts` lies in the years 0000 to 9999 (UTC), the years that RFC 3339
/// text writes with four digits.
pub open spec fn four_digit_year(ts: Timestamp) -> bool {
    -62_167_219_200 <= ts.seconds <= 253_402_300_799
}

/// Parses RFC 3339 text with chrono's `DateTime::parse_from_rfc3339`, and
/// takes the instant it denotes.
///
/// Claimed: the result is the named `rfc3339_instant` of the text, and
/// chrono can write a parsed instant back (the `from_timestamp` round trip
/// that chrono documents).
#[verifier::external_body]
pub(crate) fn parse_rfc3339(text: &str) -> (instant: Option<Timestamp>)
    ensures
        match rfc3339_instant(text@) {
            Some((s, n)) => instant == Some(Timestamp { seconds: s, nanos: n }),
            None => instant is None,
        },
        instant matches Some(ts) ==> writable_instant(ts),
{
    match chrono::DateTime::parse_from_rfc3339(text) {
        Ok(parsed) => Some(Timestamp {
            seconds: parsed.timestamp(),
            nanos: parsed.timestamp_subsec_nanos(),
        }),
        Err(_) => None,
    }
}

/// Writes the UTC instant `ts` as RFC 3339 text with chrono's `to_rfc3339`,
/// after building it with `DateTime::from_timestamp`.
///
/// Claimed: the result is the named `rfc3339_text` of the instant; and
/// where the year has four digits, chrono's RFC 3339 parser reads the text
/// back as the same instant (`write_rfc3339` writes the year, every nonzero
/// nanosecond digit and a leap second as `:60`, all of which
/// `parse_rfc3339` takes back; a year outside 0000..=9999 is written with a
/// sign, which that parser refuses).
#[verifier::external_body]
pub(crate) fn format_rfc3339(ts: Timestamp) -> (text: Option<String>)
    ensures
        text_view(text) == rfc3339_text(ts.seconds, ts.nanos),
        text is Some && four_digit_year(ts) ==> rfc3339_instant(text.unwrap()@) == Some(
            (ts.seconds, ts.nanos),
        ),
{
    match chrono::DateTime::from_timestamp(ts.seconds, ts.nanos) {
        Some(instant) => Some(instant.to_rfc3339()),
        None => None,
    }
}

/// Parses a date with chrono's `NaiveDate::parse_from_str` in the format
/// `%Y-%m-%d`.
///
/// Claimed: the result is the named `iso_date` of the text, and chrono can
/// write a parsed date back (`NaiveDate::from_ymd_opt` takes the year, month
/// and day of any date).
#[verifier::external_body]
pub(crate) fn parse_iso_date(text: &str) -> (date: Option<Date>)
    ensures
        match iso_date(text@) {
            Some((y, m, d)) => date == Some(Date { year: y, month: m, day: d }),
            None => date is None,
        },
        date matches Some(d) ==> writable_date(d),
{
    match chrono::NaiveDate::parse_from_str(text, "%Y-%m-%d") {
        Ok(parsed) => Some(Date { year: parsed.year(), month: parsed.month(), day: parsed.day() }),
        Err(_) => None,
    }
}

/// Writes a date with chrono's `Display` for `NaiveDate`, after building it
/// with `NaiveDate::from_ymd_opt`.
///
/// Claimed: the result is the named `iso_date_text` of the date, and
/// chrono reads that text back as the same date (chrono documents that the
/// `Display` output is `%Y-%m-%d` and can be parsed back; `parse_from_str`
/// with `%Y-%m-%d` reads the same year, month and day items).
#[verifier::external_body]
pub(crate) fn format_iso_date(date: Date) -> (text: Option<String>)
    ensures
        text_view(text) == iso_date_text(date.year, date.month, date.day),
        text is Some ==> iso_date(text.unwrap()@) == Some((date.year, date.month, date.day)),
{
    match chrono::NaiveDate::from_ymd_opt(date.year, date.month, date.day) {
        Some(d) => Some(d.to_string()),
        None => None,
    }
}

/// Nanoseconds since 1970 of an instant, as chrono's `timestamp_nanos_opt`
/// computes them: none where the count, or the step chrono takes through
/// (whole seconds, for negative instants one second later, times 10^9),
/// leaves the range of `i64`.
pub open spec fn nanos_since_epoch_spec(ts: Timestamp) -> Option<i64> {
    let seconds: int = if ts.seconds < 0 { ts.seconds + 1 } else { ts.seconds as int };
    let rest: int = if ts.seconds < 0 { ts.nanos - 1_000_000_000 } else { ts.nanos as int };
    let whole: int = seconds * 1_000_000_000;
    if i64::MIN <= whole <= i64::MAX && i64::MIN <= whole + rest <= i64::MAX {
        Some((whole + rest) as i64)
    } else {
        None
    }
}

/// Nanoseconds since 1970 of `ts`, or `None` where they do not fit in `i64`.
pub fn nanos_since_epoch(ts: Timestamp) -> (nanos: Option<i64>)
    ensures
        nanos == nanos_since_epoch_spec(ts),
{
    let seconds: i128 = if ts.seconds < 0 { ts.seconds as i128 + 1 } else { ts.seconds as i128 };
    let rest: i128 = if ts.seconds < 0 {
        ts.nanos as i128 - 1_000_000_000
    } else {
        ts.nanos as i128
    };
    assert(-9_223_372_036_854_775_807 <= seconds <= 9_223_372_036_854_775_807);
    let whole: i128 = seconds * 1_000_000_000;
    if whole < i64::MIN as i128 || whole > i64::MAX as i128 {
        return None;
    }
    let total: i128 = whole + rest;
    if total < i64::MIN as i128 || total > i64::MAX as i128 {
        return None;
    }
    Some(total as i64)
}

/// The identifier given to a task created at the instant `ts`: `local-`
/// followed by its nanoseconds since 1970, or by 0 where those do not fit.
pub open spec fn local_uuid_spec(ts: Timestamp) -> Seq<char> {
    let nanos: i64 = match nanos_since_epoch_spec(ts) {
        Some(n) => n,
        None => 0,
    };
    "local-"@ + signed_decimal_text(nanos as int)
}

/// The identifier of a task created at the instant `ts`.
pub fn local_uuid_at(ts: Timestamp) -> (uuid: String)
    ensures
        uuid@ == local_uuid_spec(ts),
{
    let nanos: i64 = match nanos_since_epoch(ts) {
        Some(n) => n,
        None => 0,
    };
    let mut uuid = "local-".to_owned();
    uuid.append(i64_to_text(nanos).as_str());
    uuid
}

/// A fresh identifier for a task created now: `local-` followed by the
/// current time in nanoseconds since 1970; `None` where the clock cannot be
/// read.
pub fn generate_local_uuid() -> (uuid: Option<String>)
    ensures
        uuid matches Some(u) ==> exists|ts: Timestamp| ts.seconds >= 0 && u@ == local_uuid_spec(ts),
{
    match clock_now() {
        Some(now) => Some(local_uuid_at(now)),
        None => None,
    }
}

/// Signed decimal texts of different integers differ.
proof fn lemma_signed_decimal_text_injective(a: int, b: int)
    requires
        signed_decimal_text(a) == signed_decimal_text(b),
    ensures
        a == b,
{
    let ma: nat = if a < 0 { (-a) as nat } else { a as nat };
    let mb: nat = if b < 0 { (-b) as nat } else { b as nat };
    lemma_decimal_text(ma);
    lemma_decimal_text(mb);
    let ta = signed_decimal_text(a);
    if a < 0 && b < 0 {
        assert(ta.drop_first() =~= decimal_text(ma));
        assert(signed_decimal_text(b).drop_first() =~= decimal_text(mb));
    } else if a < 0 {
        assert(ta[0] == '-');
        assert(decimal_text(mb)[0] != '-');
    } else if b < 0 {
        assert(signed_decimal_text(b)[0] == '-');
        assert(decimal_text(ma)[0] != '-');
    }
}

/// The identifier of a task names the instant it was created at: two
/// instants (with fewer than 10^9 nanoseconds, whose nanoseconds since 1970
/// fit in `i64`) with the same identifier are the same instant.
pub proof fn lemma_local_uuid_names_instant(a: Timestamp, b: Timestamp)
    requires
        a.nanos < 1_000_000_000,
        b.nanos < 1_000_000_000,
        nanos_since_epoch_spec(a) is Some,
        nanos_since_epoch_spec(b) is Some,
        local_uuid_spec(a) == local_uuid_spec(b),
    ensures
        a == b,
{
    let na = nanos_since_epoch_spec(a)->0;
    let nb = nanos_since_epoch_spec(b)->0;
    let prefix = "local-"@;
    assert(local_uuid_spec(a).subrange(prefix.len() as int, local_uuid_spec(a).len() as int)
        =~= signed_decimal_text(na as int));
    assert(local_uuid_spec(b).subrange(prefix.len() as int, local_uuid_spec(b).len() as int)
        =~= signed_decimal_text(nb as int));
    lemma_signed_decimal_text_injective(na as int, nb as int);
    let sa: int = a.seconds as int;
    let sb: int = b.seconds as int;
    let ra: int = a.nanos as int;
    let rb: int = b.nanos as int;
    assert(na == sa * 1_000_000_000 + ra);
    assert(nb == sb * 1_000_000_000 + rb);
    assert(sa == sb && ra == rb) by (nonlinear_arith)
        requires
            sa * 1_000_000_000 + ra == sb * 1_000_000_000 + rb,
            0 <= ra < 1_000_000_000,
            0 <= rb < 1_000_000_000,
    ;
}

} // verus!
