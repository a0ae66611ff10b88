//! Run times of a pipeline: instants read from the service's timestamp text.

use crate::text::{decimal_text, render_decimal};
use chrono::TimeZone;
use vstd::prelude::*;

verus! {

/// The layout of every timestamp of the service: year, month, day, the
/// letter `T`, hour, minute, second; no offset, the instant is meant in UTC.
pub const RUN_TIME_FORMAT: &'static str = "%Y-%m-%dT%H:%M:%S";

/// An instant in UTC, to the second.
#[derive(PartialEq, Eq, Structural, Debug, Clone, Copy)]
pub struct Timestamp {
    /// Seconds since 1970-01-01T00:00:00 UTC, leap seconds not counted.
    pub unix_seconds: i64,
}

/// What reading `text` against `format` as a UTC date and time yields: the
/// seconds since the Unix epoch, or `None` where the text does not fit.
pub uninterp spec fn utc_seconds_of(text: Seq<char>, format: Seq<char>) -> Option<i64>;

/// The instant that a timestamp text of the service denotes, if it is well
/// formed.
pub open spec fn run_time_of(text: Seq<char>) -> Option<Timestamp> {
    match utc_seconds_of(text, RUN_TIME_FORMAT@) {
        Some(seconds) => Some(Timestamp { unix_seconds: seconds }),
        None => None,
    }
}

/// The whole seconds from `ago` to `now`, in base 10; negative where `ago`
/// lies after `now`. Absent where there is no instant to count from.
pub open spec fn elapsed_text(now: Timestamp, ago: Option<Timestamp>) -> Option<Seq<char>> {
    match ago {
        Some(instant) => Some(decimal_text(now.unix_seconds - instant.unix_seconds)),
        None => None,
    }
}

/// Calls `chrono::TimeZone::datetime_from_str` on `chrono::Utc` and hands out
/// the parsed instant through `chrono::DateTime::timestamp`.
///
/// Trusted: the outcome is a function of the two texts alone, named
/// `utc_seconds_of`; a text that chrono rejects gives `None`. Of the texts
/// that are rejected only the empty one is named: the layout begins with a
/// number, and chrono takes the absence of digits as an error. Nothing is
/// claimed about which texts are accepted.
#[verifier::external_body]
fn parse_utc_seconds(text: &str, format: &str) -> (seconds: Option<i64>)
    requires
        format@ == RUN_TIME_FORMAT@,
    ensures
        seconds == utc_seconds_of(text@, format@),
        text@.len() == 0 ==> seconds is None,
{
    match chrono::Utc.datetime_from_str(text, format) {
        Ok(instant) => Some(instant.timestamp()),
        Err(_) => None,
    }
}

/// Reads a timestamp of the service. Any text that does not fit the layout
/// (wrong separators, a missing component, the empty text) yields `None`.
pub fn convert_to_date_time(timestamp: &str) -> (instant: Option<Timestamp>)
    ensures
        instant == run_time_of(timestamp@),
        timestamp@.len() == 0 ==> instant is None,
{
    match parse_utc_seconds(timestamp, RUN_TIME_FORMAT) {
        Some(seconds) => Some(Timestamp { unix_seconds: seconds }),
        None => None,
    }
}

/// The seconds from `ago` to `now` as a base-10 text, for an instant that
/// has already been read.
pub fn seconds_between(now: &Timestamp, ago: Option<Timestamp>) -> (elapsed: Option<String>)
    ensures
        elapsed.deep_view() == elapsed_text(*now, ago),
{
    match ago {
        Some(instant) => {
            let difference: i128 = now.unix_seconds as i128 - instant.unix_seconds as i128;
            Some(render_decimal(difference))
        },
        None => None,
    }
}

/// The seconds from the instant written in `ago` to `now`, as a base-10
/// text; `None` where `ago` is no well-formed timestamp.
pub fn seconds_ago(now: &Timestamp, ago: &str) -> (elapsed: Option<String>)
    ensures
        elapsed.deep_view() == elapsed_text(*now, run_time_of(ago@)),
        ago@.len() == 0 ==> elapsed is None,
{
    seconds_between(now, convert_to_date_time(ago))
}

} // verus!
