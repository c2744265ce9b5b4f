//! Points in time, and everything this library takes on trust about `time`.
//!
//! A timestamp is opaque here. The library only asks for its RFC 3339 text,
//! for the timestamp that such a text denotes, and for the current time.

use time::format_description::well_known::Rfc3339;
use time::OffsetDateTime;
use vstd::prelude::*;

verus! {

/// A date and time with a UTC offset.
#[verifier::external_type_specification]
#[verifier::external_body]
pub struct ExOffsetDateTime(OffsetDateTime);

/// The error of `time`'s formatter.
#[verifier::external_type_specification]
#[verifier::external_body]
pub struct ExFormatError(time::error::Format);

/// The error of `time`'s parser.
#[verifier::external_type_specification]
#[verifier::external_body]
pub struct ExParseError(time::error::Parse);

/// The RFC 3339 text of a timestamp, for the timestamps that have one.
pub uninterp spec fn rfc3339_text(t: OffsetDateTime) -> Option<Seq<char>>;

/// The timestamp that an RFC 3339 text denotes, if it is well-formed.
pub uninterp spec fn rfc3339_parse(s: Seq<char>) -> Option<OffsetDateTime>;

/// `OffsetDateTime::format` with `Rfc3339`: the text of the timestamp, or the
/// formatter's error where RFC 3339 cannot express it (a year outside
/// 0..=9999, an offset with seconds).
#[verifier::external_body]
pub(crate) fn format_rfc3339(t: &OffsetDateTime) -> (r: Result<String, time::error::Format>)
    ensures
        match r {
            Ok(s) => rfc3339_text(*t) == Some(s@),
            Err(_) => rfc3339_text(*t) is None,
        },
{
    t.format(&Rfc3339)
}

/// `OffsetDateTime::parse` with `Rfc3339`: the timestamp that the text
/// denotes, or the parser's error.
#[verifier::external_body]
pub(crate) fn parse_rfc3339(s: &str) -> (r: Result<OffsetDateTime, time::error::Parse>)
    ensures
        match r {
            Ok(t) => rfc3339_parse(s@) == Some(t),
            Err(_) => rfc3339_parse(s@) is None,
        },
{
    OffsetDateTime::parse(s, &Rfc3339)
}

/// `OffsetDateTime::now_utc`: the current time. Nothing is known of it.
#[verifier::external_body]
pub(crate) fn now_utc() -> OffsetDateTime {
    OffsetDateTime::now_utc()
}

} // verus!
