//! Readings of the local clock.
use std::fmt::Write;
use chrono::{Datelike, Timelike};
use vstd::prelude::*;
use crate::naming::Moment;

verus! {

/// What the ranges of a calendar date and a time of day allow.
pub open spec fn plausible(m: Moment) -> bool {
    &&& 1 <= m.month <= 12
    &&& 1 <= m.day <= 31
    &&& m.hour <= 23
    &&& m.minute <= 59
    &&& m.second <= 59
}

/// One look at the clock: the moment, and the date and the time as text.
/// A text is missing where its format could not be applied.
#[derive(Debug)]
pub struct Reading {
    pub moment: Moment,
    pub date: Option<String>,
    pub time: Option<String>,
}

/// `chrono::Local::now`, taken apart with `Datelike` and `Timelike`.
/// Nothing is claimed of which moment comes back, only the ranges that
/// chrono documents for month, day, hour, minute and second. chrono stops
/// the program if the system clock stands before 1970.
#[verifier::external_body]
pub(crate) fn local_now() -> (m: Moment)
    ensures
        plausible(m),
{
    let now = chrono::Local::now();
    Moment {
        year: now.year(),
        month: now.month(),
        day: now.day(),
        hour: now.hour(),
        minute: now.minute(),
        second: now.second(),
    }
}

/// `chrono::Local::now` shown through `DateTime::format` with the given
/// strftime pattern. `None` stands for a pattern that chrono cannot apply.
/// Nothing is claimed of the text: it depends on the time.
#[verifier::external_body]
pub(crate) fn local_time_text(pattern: &str) -> (text: Option<String>) {
    let mut text = String::new();
    match write!(text, "{}", chrono::Local::now().format(pattern)) {
        Ok(()) => Some(text),
        Err(_) => None,
    }
}

/// Reads the clock once for the moment and once for each text.
pub fn read_clock(date_pattern: &str, time_pattern: &str) -> (reading: Reading)
    ensures
        plausible(reading.moment),
{
    let moment = local_now();
    let date = local_time_text(date_pattern);
    let time = local_time_text(time_pattern);
    Reading { moment, date, time }
}

} // verus!
