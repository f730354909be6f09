//! Points in time with a fixed offset from UTC, and their text in the store.

use vstd::prelude::*;

verus! {

/// A point in time as a clock at a fixed offset from UTC shows it.
#[derive(Clone, Copy, Debug, PartialEq, Eq, Structural)]
pub struct Timestamp {
    /// Whole seconds since 1970-01-01T00:00:00 UTC, leap seconds not counted.
    pub seconds: i64,
    /// Nanoseconds since the last whole second.
    pub nanoseconds: u32,
    /// Seconds that the local clock is ahead of UTC.
    pub offset_seconds: i32,
}

/// The text that `chrono::DateTime::to_rfc3339` writes for the date and time with the
/// given seconds, nanoseconds and offset, or `None` where chrono has no such date and time.
pub uninterp spec fn rfc3339_text(seconds: i64, nanoseconds: u32, offset_seconds: i32) -> Option<Seq<char>>;

/// The seconds, nanoseconds and offset of the date and time that chrono reads from a
/// text, or `None` where it rejects the text.
pub uninterp spec fn rfc3339_parse(text: Seq<char>) -> Option<(i64, u32, i32)>;

/// Calls `chrono::DateTime::to_rfc3339` on the date and time that
/// `chrono::DateTime::from_timestamp` and `chrono::FixedOffset::east_opt` make of the
/// arguments. Nothing is claimed of the text but that it depends on the arguments alone.
#[verifier::external_body]
fn write_rfc3339(seconds: i64, nanoseconds: u32, offset_seconds: i32) -> (text: Option<String>)
    ensures
        match text {
            Some(written) => rfc3339_text(seconds, nanoseconds, offset_seconds) == Some(written@),
            None => rfc3339_text(seconds, nanoseconds, offset_seconds) is None,
        },
{
    let utc = chrono::DateTime::from_timestamp(seconds, nanoseconds)?;
    let offset = chrono::FixedOffset::east_opt(offset_seconds)?;
    Some(utc.with_timezone(&offset).to_rfc3339())
}

/// Calls the `FromStr` impl of `chrono::DateTime<FixedOffset>`, which reads RFC 3339.
/// Nothing is claimed of the result but that it depends on the text alone.
#[verifier::external_body]
fn read_rfc3339(text: &str) -> (parts: Option<(i64, u32, i32)>)
    ensures
        parts == rfc3339_parse(text@),
{
    match text.parse::<chrono::DateTime<chrono::FixedOffset>>() {
        Ok(read) => Some((read.timestamp(), read.timestamp_subsec_nanos(), read.offset().local_minus_utc())),
        Err(_) => None,
    }
}

impl Timestamp {
    /// The text of this point in time, where it has one.
    pub open spec fn text(self) -> Option<Seq<char>> {
        rfc3339_text(self.seconds, self.nanoseconds, self.offset_seconds)
    }

    /// The point in time that a text stands for, where it stands for one.
    pub open spec fn parsed(text: Seq<char>) -> Option<Timestamp> {
        match rfc3339_parse(text) {
            Some((seconds, nanoseconds, offset_seconds)) => Some(Timestamp { seconds, nanoseconds, offset_seconds }),
            None => None,
        }
    }

    /// Whether reading the text of this point in time gives it back. It does not where the
    /// text cannot hold all of it: the text keeps the offset to the minute only.
    pub open spec fn survives_text(self) -> bool {
        match self.text() {
            Some(text) => Timestamp::parsed(text) == Some(self),
            None => false,
        }
    }

    /// Writes the RFC 3339 text, with a numeric offset. `None` where the fields are no
    /// date and time: seconds out of range, nanoseconds that are no part of a second, or
    /// an offset of a day or more.
    pub fn to_rfc3339(&self) -> (text: Option<String>)
        ensures
            match text {
                Some(written) => self.text() == Some(written@),
                None => self.text() is None,
            },
    {
        write_rfc3339(self.seconds, self.nanoseconds, self.offset_seconds)
    }

    /// Reads an RFC 3339 text.
    pub fn parse_from_rfc3339(text: &str) -> (read: Option<Timestamp>)
        ensures
            read == Timestamp::parsed(text@),
    {
        match read_rfc3339(text) {
            Some((seconds, nanoseconds, offset_seconds)) => Some(Timestamp { seconds, nanoseconds, offset_seconds }),
            None => None,
        }
    }
}

} // verus!
