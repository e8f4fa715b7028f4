//! Instants as the API writes them (RFC 3339), held as plain numbers.

use vstd::prelude::*;

verus! {

#[verifier::external_type_specification]
#[verifier::external_body]
pub struct ExChronoParseError(chrono::ParseError);

/// An instant together with the UTC offset it was written in.
///
/// `seconds` counts from 1970-01-01T00:00:00Z; `nanos` is the part of the
/// second (above 999,999,999 only within a leap second); `offset_seconds` is
/// local time minus UTC.
#[derive(Debug, Clone, Copy, PartialEq, Eq, Structural)]
pub struct Timestamp {
    pub seconds: i64,
    pub nanos: u32,
    pub offset_seconds: i32,
}

/// The instant that chrono reads from an RFC 3339 text, as
/// `(seconds, nanos, offset_seconds)`, or `None` when it rejects the text.
pub uninterp spec fn rfc3339_reading(s: Seq<char>) -> Option<(i64, u32, i32)>;

pub open spec fn timestamp_of(t: (i64, u32, i32)) -> Timestamp {
    Timestamp { seconds: t.0, nanos: t.1, offset_seconds: t.2 }
}

/// The timestamp an RFC 3339 text denotes, if it is one.
pub open spec fn rfc3339_timestamp(s: Seq<char>) -> Option<Timestamp> {
    match rfc3339_reading(s) {
        Some(t) => Some(timestamp_of(t)),
        None => None,
    }
}

/// Relies on `chrono::DateTime::parse_from_rfc3339` and the accessors
/// `timestamp`, `timestamp_subsec_nanos` and `FixedOffset::local_minus_utc`
/// of its result.
#[verifier::external_body]
fn read_rfc3339(s: &str) -> (r: Result<Timestamp, chrono::ParseError>)
    ensures
        r is Ok <==> rfc3339_reading(s@) is Some,
        r matches Ok(t) ==> rfc3339_reading(s@) == Some((t.seconds, t.nanos, t.offset_seconds)),
{
    match chrono::DateTime::parse_from_rfc3339(s) {
        Ok(d) => Ok(Timestamp {
            seconds: d.timestamp(),
            nanos: d.timestamp_subsec_nanos(),
            offset_seconds: d.offset().local_minus_utc(),
        }),
        Err(e) => Err(e),
    }
}

/// Reads an RFC 3339 timestamp such as `2022-11-14T03:01:58.056+01:00`.
pub fn rfc3339_to_date_time(s: &str) -> (r: Result<Timestamp, chrono::ParseError>)
    ensures
        r is Ok <==> rfc3339_timestamp(s@) is Some,
        r matches Ok(t) ==> rfc3339_timestamp(s@) == Some(t),
{
    read_rfc3339(s)
}

/// How timestamps are written in the CSV of a notice export, e.g.
/// `2023-10-25 09:23:00 .000+0100`.
pub const EXPORT_TIMESTAMP_FORMAT: &'static str = "%Y-%m-%d %H:%M:%S %.3f%z";

/// The instant that chrono reads from `s` laid out by the format string
/// `fmt`, as `(seconds, nanos, offset_seconds)`, or `None` when it rejects
/// the text.
pub uninterp spec fn formatted_reading(s: Seq<char>, fmt: Seq<char>) -> Option<(i64, u32, i32)>;

/// The timestamp that `s`, laid out as `fmt`, denotes.
pub open spec fn formatted_timestamp(s: Seq<char>, fmt: Seq<char>) -> Option<Timestamp> {
    match formatted_reading(s, fmt) {
        Some(t) => Some(timestamp_of(t)),
        None => None,
    }
}

/// Relies on `chrono::DateTime::parse_from_str` and the accessors
/// `timestamp`, `timestamp_subsec_nanos` and `FixedOffset::local_minus_utc`
/// of its result.
#[verifier::external_body]
fn read_formatted(s: &str, fmt: &str) -> (r: Result<Timestamp, chrono::ParseError>)
    ensures
        r is Ok <==> formatted_reading(s@, fmt@) is Some,
        r matches Ok(t) ==> formatted_reading(s@, fmt@) == Some((t.seconds, t.nanos, t.offset_seconds)),
{
    match chrono::DateTime::parse_from_str(s, fmt) {
        Ok(d) => Ok(Timestamp {
            seconds: d.timestamp(),
            nanos: d.timestamp_subsec_nanos(),
            offset_seconds: d.offset().local_minus_utc(),
        }),
        Err(e) => Err(e),
    }
}

/// Reads a timestamp of a notice export's CSV, laid out as
/// [`EXPORT_TIMESTAMP_FORMAT`].
pub fn export_timestamp_to_date_time(s: &str) -> (r: Result<Timestamp, chrono::ParseError>)
    ensures
        r is Ok <==> formatted_timestamp(s@, EXPORT_TIMESTAMP_FORMAT@) is Some,
        r matches Ok(t) ==> formatted_timestamp(s@, EXPORT_TIMESTAMP_FORMAT@) == Some(t),
{
    read_formatted(s, EXPORT_TIMESTAMP_FORMAT)
}

/// RFC 3339 with milliseconds and a numeric offset, e.g.
/// `2022-11-14T03:01:58.056+01:00`.
pub const RFC3339_MILLIS_FORMAT: &'static str = "%Y-%m-%dT%H:%M:%S%.3f%:z";

/// The text chrono writes for the instant `(seconds, nanos)` shown in the
/// offset `offset_seconds`, laid out by the format string `fmt`, or `None`
/// when chrono cannot represent that instant or offset.
pub uninterp spec fn formatted_writing(seconds: i64, nanos: u32, offset_seconds: i32, fmt: Seq<char>) -> Option<Seq<char>>;

/// Relies on `chrono::FixedOffset::east_opt`, `chrono::DateTime::from_timestamp`,
/// `DateTime::with_timezone` and `DateTime::format`; the format strings
/// admitted are valid, so writing them cannot fail.
#[verifier::external_body]
fn write_formatted(t: &Timestamp, fmt: &str) -> (r: Option<String>)
    requires
        fmt@ == RFC3339_MILLIS_FORMAT@ || fmt@ == EXPORT_TIMESTAMP_FORMAT@,
    ensures
        match formatted_writing(t.seconds, t.nanos, t.offset_seconds, fmt@) {
            Some(x) => r matches Some(y) && y@ == x,
            None => r is None,
        },
{
    let offset = chrono::FixedOffset::east_opt(t.offset_seconds)?;
    let instant = chrono::DateTime::from_timestamp(t.seconds, t.nanos)?;
    Some(format!("{}", instant.with_timezone(&offset).format(fmt)))
}

/// The text of a timestamp under `fmt`, if chrono can represent it.
pub open spec fn timestamp_text(t: Timestamp, fmt: Seq<char>) -> Option<Seq<char>> {
    formatted_writing(t.seconds, t.nanos, t.offset_seconds, fmt)
}

pub open spec fn text_view(s: Option<String>) -> Option<Seq<char>> {
    match s {
        Some(x) => Some(x@),
        None => None,
    }
}

/// Writes a timestamp as RFC 3339 with milliseconds, in its own offset;
/// `None` when the instant or offset is beyond what chrono represents.
pub fn date_time_to_rfc3339(t: &Timestamp) -> (r: Option<String>)
    ensures
        text_view(r) == timestamp_text(*t, RFC3339_MILLIS_FORMAT@),
{
    write_formatted(t, RFC3339_MILLIS_FORMAT)
}

/// Writes a timestamp as in the CSV of a notice export; `None` when the
/// instant or offset is beyond what chrono represents.
pub fn date_time_to_export_timestamp(t: &Timestamp) -> (r: Option<String>)
    ensures
        text_view(r) == timestamp_text(*t, EXPORT_TIMESTAMP_FORMAT@),
{
    write_formatted(t, EXPORT_TIMESTAMP_FORMAT)
}

/// Whether `a` is a later instant than `b`, whatever their offsets.
pub open spec fn is_later(a: Timestamp, b: Timestamp) -> bool {
    a.seconds > b.seconds || (a.seconds == b.seconds && a.nanos > b.nanos)
}

impl Timestamp {
    /// Whether this is a later instant than `other`.
    pub fn is_later_than(&self, other: &Timestamp) -> (r: bool)
        ensures
            r == is_later(*self, *other),
    {
        self.seconds > other.seconds || (self.seconds == other.seconds && self.nanos > other.nanos)
    }
}

} // verus!
