use chrono::{Datelike, NaiveDate};
use vstd::prelude::*;

verus! {

/// `chrono::ParseError`, why a text is no date. It is handed on and never
/// looked into.
#[verifier::external_type_specification]
#[verifier::external_body]
pub struct ExParseError(chrono::ParseError);

/// The day that a text of the form `YYYY-MM-DD` names, as its number in
/// the proleptic Gregorian calendar with 1 January of the year 1 as day 1;
/// none where the text names no day.
pub uninterp spec fn parsed_day(text: Seq<char>) -> Option<int>;

/// The midnight that begins a day, written as `YYYY-MM-DDT00:00:00Z`; none
/// where the calendar does not reach that day.
pub uninterp spec fn day_stamp(day: int) -> Option<Seq<char>>;

/// `NaiveDate::parse_from_str` with the format `%Y-%m-%d`, and
/// `Datelike::num_days_from_ce` on the date it found. The result is a
/// function of the text alone: the day's number where the text names a day,
/// the parser's error where it does not.
#[verifier::external_body]
fn parse_day(text: &str) -> (r: Result<i32, chrono::ParseError>)
    ensures
        r matches Ok(day) ==> parsed_day(text@) == Some(day as int),
        r is Err ==> parsed_day(text@).is_none(),
{
    match NaiveDate::parse_from_str(text, "%Y-%m-%d") {
        Ok(date) => Ok(date.num_days_from_ce()),
        Err(error) => Err(error),
    }
}

/// `NaiveDate::from_num_days_from_ce_opt`, and `NaiveDate::format` with the
/// format `%Y-%m-%dT00:00:00Z` on the date it made. The result is a function
/// of the day's number alone: the text where the calendar reaches the day,
/// none where it does not.
#[verifier::external_body]
fn stamp_of_day(day: i32) -> (r: Option<String>)
    ensures
        r matches Some(stamp) ==> day_stamp(day as int) == Some(stamp@),
        r is None ==> day_stamp(day as int).is_none(),
{
    match NaiveDate::from_num_days_from_ce_opt(day) {
        Some(date) => Some(date.format("%Y-%m-%dT00:00:00Z").to_string()),
        None => None,
    }
}

/// The characters of a text that may be missing.
pub open spec fn text_of(text: Option<String>) -> Option<Seq<char>> {
    match text {
        Some(text) => Some(text@),
        None => None,
    }
}

/// Walks through the calendar day by day and writes each day it reaches as
/// the timestamp of its midnight, for use as a bound in a date filter.
#[derive(Debug, PartialEq, Eq)]
pub struct DateIterator {
    current_day: i32,
}

impl DateIterator {
    /// The number of the day the iterator stands on.
    pub closed spec fn day(&self) -> int {
        self.current_day as int
    }

    /// Starts on the day that `start_date` names in the form `YYYY-MM-DD`.
    /// A text that names no day is refused with the parser's error.
    pub fn new(start_date: &str) -> (r: Result<Self, chrono::ParseError>)
        ensures
            r matches Ok(dates) ==> parsed_day(start_date@) == Some(dates.day()),
            r is Err ==> parsed_day(start_date@).is_none(),
    {
        match parse_day(start_date) {
            Ok(day) => Ok(DateIterator { current_day: day }),
            Err(error) => Err(error),
        }
    }

    /// Tells the number of the day the iterator stands on.
    pub fn current(&self) -> (day: i32)
        ensures
            day == self.day(),
    {
        self.current_day
    }

    /// Moves on to `day` where that day could be written, and hands its
    /// timestamp out; stays where it is where it could not.
    pub fn move_to(&mut self, day: i32, stamp: Option<String>) -> (r: Option<String>)
        ensures
            r == stamp,
            stamp.is_some() ==> final(self).day() == day,
            stamp.is_none() ==> *final(self) == *old(self),
    {
        if stamp.is_some() {
            self.current_day = day;
        }
        stamp
    }

    /// Moves on to the next day and writes it as the timestamp of its
    /// midnight. At the end of the calendar there is no next day: the
    /// iterator stays where it is and hands out nothing.
    pub fn next(&mut self) -> (r: Option<String>)
        ensures
            old(self).day() < i32::MAX ==> text_of(r) == day_stamp(old(self).day() + 1),
            old(self).day() == i32::MAX ==> r.is_none(),
            r.is_some() ==> final(self).day() == old(self).day() + 1,
            r.is_none() ==> *final(self) == *old(self),
    {
        if self.current_day == i32::MAX {
            return None;
        }
        let day = self.current_day + 1;
        let stamp = stamp_of_day(day);
        self.move_to(day, stamp)
    }
}

} // verus!
