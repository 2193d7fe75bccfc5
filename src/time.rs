//! Timestamps with their UTC offset kept.
use vstd::prelude::*;

verus! {

/// An instant with the fixed UTC offset it was written in.
#[derive(Debug, Clone, Copy, PartialEq, Eq, Structural)]
pub struct Timestamp {
    /// Seconds since the Unix epoch.
    pub unix_seconds: i64,
    /// Nanoseconds past that second.
    pub nanos: u32,
    /// The offset east of UTC, in seconds.
    pub offset_seconds: i32,
}

/// The instant an RFC 3339 text names, if it is one.
pub uninterp spec fn rfc3339_parse(s: Seq<char>) -> Option<Timestamp>;

/// Relies on chrono::DateTime::parse_from_rfc3339: parses the text with its
/// offset; the parts are read back with `timestamp`, `timestamp_subsec_nanos`
/// and `local_minus_utc`.
#[verifier::external_body]
fn parse_rfc3339(s: &str) -> (r: Option<Timestamp>)
    ensures
        r == rfc3339_parse(s@),
{
    chrono::DateTime::parse_from_rfc3339(s).ok().map(|d| Timestamp {
        unix_seconds: d.timestamp(),
        nanos: d.timestamp_subsec_nanos(),
        offset_seconds: d.offset().local_minus_utc(),
    })
}

/// How chrono prints an instant in its offset, if the parts name one.
pub uninterp spec fn timestamp_string(t: Timestamp) -> Option<Seq<char>>;

/// Relies on chrono::FixedOffset::east_opt, DateTime::from_timestamp and the
/// Display of DateTime<FixedOffset>.
#[verifier::external_body]
fn timestamp_text(t: Timestamp) -> (r: Option<String>)
    ensures
        match r {
            Some(s) => timestamp_string(t) == Some(s@),
            None => timestamp_string(t) is None,
        },
{
    let offset = chrono::FixedOffset::east_opt(t.offset_seconds)?;
    let utc = chrono::DateTime::from_timestamp(t.unix_seconds, t.nanos)?;
    Some(utc.with_timezone(&offset).to_string())
}

impl Timestamp {
    /// Parses an RFC 3339 timestamp, keeping its offset.
    pub fn parse(s: &str) -> (r: Option<Timestamp>)
        ensures
            r == rfc3339_parse(s@),
    {
        parse_rfc3339(s)
    }

    /// The instant as text, in its own offset.
    pub fn to_text(&self) -> (r: Option<String>)
        ensures
            match r {
                Some(s) => timestamp_string(*self) == Some(s@),
                None => timestamp_string(*self) is None,
            },
    {
        timestamp_text(*self)
    }
}

} // verus!
