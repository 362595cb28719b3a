//! What is said to the household and to the member on duty.

use crate::calendar::{day_of, weekday_of, Instant, Weekday};
use crate::data_grabber::{ScheduleModel, TrashType, TrashesSchedule};
use vstd::prelude::*;
use vstd::string::*;

verus! {

impl TrashType {
    /// The kind in words.
    pub open spec fn spec_name(self) -> Seq<char> {
        match self {
            TrashType::WeRecycle => "WeRecycle"@,
            TrashType::Normal => "Normal"@,
            TrashType::Bio => "Bio"@,
            TrashType::Cardboard => "Cardboard"@,
            TrashType::Paper => "Paper"@,
        }
    }

    /// The kind in words.
    pub fn name(&self) -> (name: &'static str)
        ensures
            name@ == self.spec_name(),
    {
        match self {
            TrashType::WeRecycle => "WeRecycle",
            TrashType::Normal => "Normal",
            TrashType::Bio => "Bio",
            TrashType::Cardboard => "Cardboard",
            TrashType::Paper => "Paper",
        }
    }
}

impl Weekday {
    /// The day of the week in three letters.
    pub open spec fn spec_name(self) -> Seq<char> {
        match self {
            Weekday::Mon => "Mon"@,
            Weekday::Tue => "Tue"@,
            Weekday::Wed => "Wed"@,
            Weekday::Thu => "Thu"@,
            Weekday::Fri => "Fri"@,
            Weekday::Sat => "Sat"@,
            Weekday::Sun => "Sun"@,
        }
    }

    /// The day of the week in three letters.
    pub fn name(&self) -> (name: &'static str)
        ensures
            name@ == self.spec_name(),
    {
        match self {
            Weekday::Mon => "Mon",
            Weekday::Tue => "Tue",
            Weekday::Wed => "Wed",
            Weekday::Thu => "Thu",
            Weekday::Fri => "Fri",
            Weekday::Sat => "Sat",
            Weekday::Sun => "Sun",
        }
    }
}

/// The kinds in words, each with a blank in front of it.
pub open spec fn kinds_text(kinds: Seq<TrashType>) -> Seq<char>
    decreases kinds.len(),
{
    if kinds.len() == 0 {
        Seq::empty()
    } else {
        kinds_text(kinds.drop_last()) + " "@ + kinds.last().spec_name()
    }
}

/// What the household is told when the duty passes to `name`.
pub open spec fn new_master_text(name: Seq<char>) -> Seq<char> {
    "The new food master is "@ + name + "."@
}

/// What the member on duty is asked to do for the next morning.
pub open spec fn daily_text(name: Seq<char>, kinds: Seq<TrashType>) -> Seq<char> {
    "Hello "@ + name + " !\nDon't forget the "@ + kinds_text(kinds)
        + " trashes out before tomorrow morning! Have a nice evening!"@
}

/// What the member on duty is told when nothing is collected the next day.
pub open spec fn no_trashes_text(name: Seq<char>) -> Seq<char> {
    "Hi "@ + name + "\nNo trashes tomorrow!\nHave a nice evening."@
}

/// What the household is told when the member on duty does not do it.
pub open spec fn shame_text(name: Seq<char>, kinds: Seq<TrashType>) -> Seq<char> {
    "Unfortunately "@ + name
        + " is not able to fulfill his role as Food master today!\n\n            Could someone put the "@
        + kinds_text(kinds) + " trashes out before tomorrow morning? Have a nice evening!"@
}

/// The line of the week's plan for `day`: nothing where nothing is collected.
pub open spec fn day_line(schedule: ScheduleModel, day: i32) -> Seq<char> {
    if schedule.dates.contains_key(day) {
        kinds_text(schedule.dates[day]) + " on "@ + weekday_of(day as int).spec_name() + ",\n"@
    } else {
        Seq::empty()
    }
}

/// The lines of the `days` days that follow `today`, in their order.
pub open spec fn week_lines(schedule: ScheduleModel, today: i32, days: nat) -> Seq<char>
    decreases days,
{
    if days == 0 {
        Seq::empty()
    } else {
        week_lines(schedule, today, (days - 1) as nat) + day_line(
            schedule,
            (today + days) as i32,
        )
    }
}

/// What the new member on duty is told about the week to come.
pub open spec fn weekly_text(schedule: ScheduleModel, today: i32) -> Seq<char> {
    "Hello "@ + schedule.tomorrow_master_name
        + "!\nYou are the new food master.\nThis week you need to put these trashes in front of the house before 7am.\nHere is the schedule:\n"@
        + week_lines(schedule, today, 7) + "Do we need new we-recycle bags ?"@
}

/// The kinds in words, each with a blank in front of it.
pub fn trashes_text(kinds: &Vec<TrashType>) -> (text: String)
    ensures
        text@ == kinds_text(kinds@),
{
    let mut text = String::new();
    let mut i: usize = 0;
    while i < kinds.len()
        invariant
            i <= kinds.len(),
            text@ == kinds_text(kinds@.take(i as int)),
        decreases kinds.len() - i,
    {
        proof {
            assert(kinds@.take(i + 1).drop_last() == kinds@.take(i as int));
        }
        text.append(" ");
        text.append(kinds[i].name());
        i += 1;
    }
    proof {
        assert(kinds@.take(i as int) == kinds@);
    }
    text
}

/// The words for the household when the duty passes to `name`.
pub fn new_master_update(name: &str) -> (text: String)
    ensures
        text@ == new_master_text(name@),
{
    let mut text = String::from_str("The new food master is ");
    text.append(name);
    text.append(".");
    text
}

/// The words that ask `name` to put out `kinds` for the next morning.
pub fn daily_update(name: &str, kinds: &Vec<TrashType>) -> (text: String)
    ensures
        text@ == daily_text(name@, kinds@),
{
    let mut text = String::from_str("Hello ");
    text.append(name);
    text.append(" !\nDon't forget the ");
    text.append(trashes_text(kinds).as_str());
    text.append(" trashes out before tomorrow morning! Have a nice evening!");
    text
}

/// The words that tell `name` that nothing is collected the next day.
pub fn no_trashes_update(name: &str) -> (text: String)
    ensures
        text@ == no_trashes_text(name@),
{
    let mut text = String::from_str("Hi ");
    text.append(name);
    text.append("\nNo trashes tomorrow!\nHave a nice evening.");
    text
}

/// The words that tell the household that `name` does not put out `kinds`.
pub fn shame_update(name: &str, kinds: &Vec<TrashType>) -> (text: String)
    ensures
        text@ == shame_text(name@, kinds@),
{
    let mut text = String::from_str("Unfortunately ");
    text.append(name);
    text.append(
        " is not able to fulfill his role as Food master today!\n\n            Could someone put the ",
    );
    text.append(trashes_text(kinds).as_str());
    text.append(" trashes out before tomorrow morning? Have a nice evening!");
    text
}

/// The words that tell the new member on duty what is collected on each of
/// the seven days after the one that holds `now`.
pub fn weekly_update(schedule: &TrashesSchedule, now: Instant) -> (text: String)
    ensures
        text@ == weekly_text(schedule@, day_of(now@) as i32),
{
    let ghost today = day_of(now@) as i32;
    let mut lines = String::new();
    let mut i: u8 = 1;
    while i < 8
        invariant
            1 <= i <= 8,
            today == day_of(now@) as i32,
            lines@ == week_lines(schedule@, today, (i - 1) as nat),
        decreases 8 - i,
    {
        match now.day_after(i) {
            Some(day) => {
                let number = day.number();
                assert(number == (today + i) as i32);
                match schedule.trashes_on(number) {
                    Some(kinds) => {
                        lines.append(trashes_text(kinds).as_str());
                        lines.append(" on ");
                        lines.append(day.weekday().name());
                        lines.append(",\n");
                    },
                    None => {
                        proof {
                            assert(lines@ + Seq::<char>::empty() == lines@);
                        }
                    },
                }
            },
            None => {},
        }
        i += 1;
    }
    let mut text = String::from_str("Hello ");
    text.append(schedule.tomorrow_master_name());
    text.append(
        "!\nYou are the new food master.\nThis week you need to put these trashes in front of the house before 7am.\nHere is the schedule:\n",
    );
    text.append(lines.as_str());
    text.append("Do we need new we-recycle bags ?");
    text
}

} // verus!
