//! The cursor: the instant that separates the commit history already
//! harvested from the history still to harvest, in whole seconds of UTC.

use chrono::{LocalResult, TimeZone, Utc};
use vstd::prelude::*;

verus! {

/// The seconds since 1970-01-01 00:00:00 UTC of a calendar date and time of
/// day in UTC, or `None` where the fields name no such instant.
pub uninterp spec fn utc_timestamp(
    year: i32,
    month: u32,
    day: u32,
    hour: u32,
    min: u32,
    sec: u32,
) -> Option<i64>;

/// The text that stands for an instant, given in seconds since
/// 1970-01-01 00:00:00 UTC, or `None` where the calendar cannot hold it.
pub uninterp spec fn utc_text(seconds: i64) -> Option<Seq<char>>;

/// Calls chrono's `Utc.with_ymd_and_hms` and reads the seconds of the instant
/// with `DateTime::timestamp`. The contract only names the outcome: it is a
/// function of the six fields, `None` where chrono finds no single instant.
#[verifier::external_body]
fn timestamp_of_utc(year: i32, month: u32, day: u32, hour: u32, min: u32, sec: u32) -> (result:
    Option<i64>)
    ensures
        result == utc_timestamp(year, month, day, hour, min, sec),
{
    match Utc.with_ymd_and_hms(year, month, day, hour, min, sec) {
        LocalResult::Single(instant) => Some(instant.timestamp()),
        LocalResult::None => None,
        LocalResult::Ambiguous(_, _) => None,
    }
}

/// Makes the instant with chrono's `Utc.timestamp_opt` and renders it with
/// the `Display` of `DateTime<Utc>`. The contract only names the outcome: it
/// is a function of the seconds, `None` where chrono cannot hold the instant.
#[verifier::external_body]
fn text_of_utc(seconds: i64) -> (result: Option<String>)
    ensures
        result.is_some() == utc_text(seconds).is_some(),
        result.is_some() ==> result.unwrap()@ == utc_text(seconds).unwrap(),
{
    match Utc.timestamp_opt(seconds, 0) {
        LocalResult::Single(instant) => Some(instant.to_string()),
        LocalResult::None => None,
        LocalResult::Ambiguous(_, _) => None,
    }
}

/// An instant in UTC, in whole seconds since 1970-01-01 00:00:00.
#[derive(Debug, Clone, Copy, PartialEq, Eq, Structural, Hash)]
pub struct Cursor {
    pub seconds: i64,
}

impl Cursor {
    /// The later of two cursors.
    pub open spec fn spec_latest(self, other: Cursor) -> Cursor {
        if other.seconds > self.seconds {
            other
        } else {
            self
        }
    }

    /// The cursor before the first harvest: 2007-01-01 01:01:01 UTC, early
    /// enough for the first harvest to take the whole history.
    pub fn epoch() -> (result: Option<Cursor>)
        ensures
            result == match utc_timestamp(2007, 1, 1, 1, 1, 1) {
                Some(seconds) => Some(Cursor { seconds }),
                None => None,
            },
    {
        match timestamp_of_utc(2007, 1, 1, 1, 1, 1) {
            Some(seconds) => Some(Cursor { seconds }),
            None => None,
        }
    }

    /// The cursor as upstream takes it in a "since" parameter.
    pub fn to_query_value(&self) -> (result: Option<String>)
        ensures
            result.is_some() == utc_text(self.seconds).is_some(),
            result.is_some() ==> result.unwrap()@ == utc_text(self.seconds).unwrap(),
    {
        text_of_utc(self.seconds)
    }

    /// The later of two cursors: a cursor never moves back.
    pub fn latest(self, other: Cursor) -> (result: Cursor)
        ensures
            result == self.spec_latest(other),
            result.seconds >= self.seconds,
            result.seconds >= other.seconds,
    {
        if other.seconds > self.seconds {
            other
        } else {
            self
        }
    }
}

} // verus!
