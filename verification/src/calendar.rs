//! Days, wall-clock instants and weeks.
//!
//! A day is its number in the proleptic Gregorian calendar, January 1 of the
//! year 1 being day 1. An instant is a count of seconds of local wall-clock
//! time, `86_400` for each day number plus the seconds since midnight.
//!
//! The rules are stated over plain numbers. `Day` and `Instant` hold the
//! numbers that the scheduler works with, so that whoever has one needs no
//! further check.

use vstd::prelude::*;

verus! {

/// The seconds of a day of the wall clock.
pub const SECONDS_PER_DAY: i64 = 86_400;

/// The seconds of an hour.
pub const SECONDS_PER_HOUR: i64 = 3_600;

/// The hour of the day at which the scheduler looks at the next day's duty.
pub const CHECK_HOUR: i64 = 18;

/// December 31 of the year 9999.
pub const LAST_DAY: i32 = 3_652_059;

/// A day of the week.
#[derive(Clone, Copy, Debug, PartialEq, Eq, Structural)]
pub enum Weekday {
    Mon,
    Tue,
    Wed,
    Thu,
    Fri,
    Sat,
    Sun,
}

/// The days this library works with: those of the years 1 to 9999.
pub open spec fn valid_day(day: int) -> bool {
    1 <= day <= LAST_DAY
}

/// The day that holds `instant`.
pub open spec fn day_of(instant: int) -> int {
    instant / 86_400
}

/// The hour of the day at `instant`, from 0 to 23.
pub open spec fn hour_of(instant: int) -> int {
    (instant % 86_400) / 3_600
}

/// The instants at which the scheduler can act: the day and the seven days
/// that follow it are valid days.
pub open spec fn valid_now(instant: int) -> bool {
    valid_day(day_of(instant)) && valid_day(day_of(instant) + 7)
}

/// The check hour of `day`.
pub open spec fn check_time_on(day: int) -> int {
    day * 86_400 + 18 * 3_600
}

/// The check hour of the day after the one that holds `instant`.
pub open spec fn next_day_check(instant: int) -> int {
    check_time_on(day_of(instant) + 1)
}

/// The first check hour that `instant` has not passed yet.
pub open spec fn upcoming_check(instant: int) -> int {
    if hour_of(instant) < 18 {
        check_time_on(day_of(instant))
    } else {
        next_day_check(instant)
    }
}

/// Day 1 is a Monday, and the days of the week follow one another.
pub open spec fn weekday_of(day: int) -> Weekday {
    let index = (day - 1) % 7;
    if index == 0 {
        Weekday::Mon
    } else if index == 1 {
        Weekday::Tue
    } else if index == 2 {
        Weekday::Wed
    } else if index == 3 {
        Weekday::Thu
    } else if index == 4 {
        Weekday::Fri
    } else if index == 5 {
        Weekday::Sat
    } else {
        Weekday::Sun
    }
}

/// A day of the calendar this library works with.
#[derive(Clone, Copy, Debug, PartialEq, Eq)]
pub struct Day {
    number: i32,
}

impl View for Day {
    type V = int;

    closed spec fn view(&self) -> int {
        self.number as int
    }
}

impl Day {
    #[verifier::type_invariant]
    spec fn inv(self) -> bool {
        valid_day(self@)
    }

    /// The day with the given number, if this library works with it.
    pub fn new(number: i32) -> (day: Option<Day>)
        ensures
            day is Some <==> valid_day(number as int),
            day matches Some(made) ==> made@ == number,
    {
        if 1 <= number && number <= LAST_DAY {
            Some(Day { number })
        } else {
            None
        }
    }

    /// The number of the day.
    pub fn number(&self) -> (number: i32)
        ensures
            number == self@,
            valid_day(self@),
    {
        proof {
            use_type_invariant(self);
        }
        self.number
    }

    /// The day of the week on which the day falls.
    pub fn weekday(&self) -> (w: Weekday)
        ensures
            w == weekday_of(self@),
    {
        proof {
            use_type_invariant(self);
        }
        let index: i32 = (self.number - 1) % 7;
        if index == 0 {
            Weekday::Mon
        } else if index == 1 {
            Weekday::Tue
        } else if index == 2 {
            Weekday::Wed
        } else if index == 3 {
            Weekday::Thu
        } else if index == 4 {
            Weekday::Fri
        } else if index == 5 {
            Weekday::Sat
        } else {
            Weekday::Sun
        }
    }

    /// The ISO week that holds the day, counted from 0.
    pub fn iso_week0(&self) -> (week: u32)
        ensures
            week == iso_week0_of(self@),
            week <= 52,
    {
        proof {
            use_type_invariant(self);
        }
        chrono_iso_week0(self.number).unwrap()
    }
}

/// An instant at which the scheduler can act.
#[derive(Clone, Copy, Debug, PartialEq, Eq)]
pub struct Instant {
    seconds: i64,
}

impl View for Instant {
    type V = int;

    closed spec fn view(&self) -> int {
        self.seconds as int
    }
}

impl Instant {
    #[verifier::type_invariant]
    spec fn inv(self) -> bool {
        valid_now(self@)
    }

    /// The instant at so many seconds, if the scheduler can act at it.
    pub fn new(seconds: i64) -> (instant: Option<Instant>)
        ensures
            instant is Some <==> valid_now(seconds as int),
            instant matches Some(made) ==> made@ == seconds,
    {
        if SECONDS_PER_DAY <= seconds && seconds < (LAST_DAY as i64 - 6) * SECONDS_PER_DAY {
            Some(Instant { seconds })
        } else {
            None
        }
    }

    /// The instant so many seconds after midnight on the day with the given
    /// number, if the day has so many seconds and the scheduler can act on
    /// it.
    pub fn at(day: i32, second_of_day: u32) -> (instant: Option<Instant>)
        ensures
            instant is Some <==> second_of_day < 86_400 && valid_now(
                day * 86_400 + second_of_day,
            ),
            instant matches Some(made) ==> made@ == day * 86_400 + second_of_day,
    {
        if second_of_day < 86_400 {
            Instant::new(day as i64 * SECONDS_PER_DAY + second_of_day as i64)
        } else {
            None
        }
    }

    /// The seconds of the instant.
    pub fn seconds(&self) -> (seconds: i64)
        ensures
            seconds == self@,
            valid_now(self@),
    {
        proof {
            use_type_invariant(self);
        }
        self.seconds
    }

    /// The day that holds the instant.
    pub fn day(&self) -> (day: Day)
        ensures
            day@ == day_of(self@),
    {
        proof {
            use_type_invariant(self);
        }
        Day { number: (self.seconds / SECONDS_PER_DAY) as i32 }
    }

    /// The day after the one that holds the instant.
    pub fn tomorrow(&self) -> (day: Day)
        ensures
            day@ == day_of(self@) + 1,
    {
        proof {
            use_type_invariant(self);
        }
        Day { number: (self.seconds / SECONDS_PER_DAY + 1) as i32 }
    }

    /// One of the seven days after the one that holds the instant, or that
    /// day itself.
    pub fn day_after(&self, days: u8) -> (day: Option<Day>)
        ensures
            day is Some <==> days <= 7,
            day matches Some(made) ==> made@ == day_of(self@) + days,
    {
        proof {
            use_type_invariant(self);
        }
        if days <= 7 {
            Some(Day { number: (self.seconds / SECONDS_PER_DAY + days as i64) as i32 })
        } else {
            None
        }
    }
}

/// The check hour of the day after `now`.
pub fn tomorrow_evening(now: Instant) -> (next: i64)
    ensures
        next == next_day_check(now@),
        next > now@,
{
    (now.seconds() / SECONDS_PER_DAY + 1) * SECONDS_PER_DAY + CHECK_HOUR * SECONDS_PER_HOUR
}

/// The instant at which a scheduler that starts at `now` first acts: the
/// check hour of the same day if it is still to come, else that of the next.
pub fn compute_next_trigger(now: Instant) -> (next: i64)
    ensures
        next == upcoming_check(now@),
        next > now@,
        next - now@ <= 86_400,
{
    let seconds = now.seconds();
    let day: i64 = seconds / SECONDS_PER_DAY;
    let hour: i64 = (seconds % SECONDS_PER_DAY) / SECONDS_PER_HOUR;
    if hour < CHECK_HOUR {
        day * SECONDS_PER_DAY + CHECK_HOUR * SECONDS_PER_HOUR
    } else {
        tomorrow_evening(now)
    }
}

/// The number of the ISO 8601 week that holds `day`, counted from 0.
pub uninterp spec fn iso_week0_of(day: int) -> nat;

/// Asks chrono for the ISO week of a day: `NaiveDate::from_num_days_from_ce_opt`
/// makes the date, `Datelike::iso_week` and `IsoWeek::week0` give the week
/// number counted from 0. Believed of chrono: the number depends on the day
/// alone and is at most 52, and every day of the years 1 to 9999 is a date.
#[verifier::external_body]
fn chrono_iso_week0(day: i32) -> (week: Option<u32>)
    ensures
        week matches Some(w) ==> w == iso_week0_of(day as int) && w <= 52,
        valid_day(day as int) ==> week is Some,
{
    match chrono::NaiveDate::from_num_days_from_ce_opt(day) {
        Some(date) => Some(chrono::Datelike::iso_week(&date).week0()),
        None => None,
    }
}

/// What chrono writes for a day under a `strftime` pattern, if the day is a
/// date and the pattern can be applied to it.
pub uninterp spec fn formatted_day(day: int, pattern: Seq<char>) -> Option<Seq<char>>;

/// Asks chrono to write a day: `NaiveDate::from_num_days_from_ce_opt` makes
/// the date, `NaiveDate::format` and `DelayedFormat::write_to` write it.
/// Believed of chrono: what is written depends on the day and the pattern
/// alone.
#[verifier::external_body]
pub(crate) fn chrono_format_day(day: i32, pattern: &str) -> (text: Option<String>)
    ensures
        match text {
            Some(written) => formatted_day(day as int, pattern@) == Some(written@),
            None => formatted_day(day as int, pattern@) is None,
        },
{
    let date = chrono::NaiveDate::from_num_days_from_ce_opt(day)?;
    let mut text = String::new();
    match date.format(pattern).write_to(&mut text) {
        Ok(()) => Some(text),
        Err(_) => None,
    }
}

/// The day that chrono reads out of a text under a `strftime` pattern, if
/// the text follows the pattern and names a date.
pub uninterp spec fn parsed_date(text: Seq<char>, pattern: Seq<char>) -> Option<i32>;

/// Asks chrono to read a date: `NaiveDate::parse_from_str` reads it,
/// `Datelike::num_days_from_ce` gives its day number. Believed of chrono:
/// what is read depends on the text and the pattern alone.
#[verifier::external_body]
pub(crate) fn chrono_parse_date(text: &str, pattern: &str) -> (day: Option<i32>)
    ensures
        day == parsed_date(text@, pattern@),
{
    match chrono::NaiveDate::parse_from_str(text, pattern) {
        Ok(date) => Some(chrono::Datelike::num_days_from_ce(&date)),
        Err(_) => None,
    }
}

} // verus!
