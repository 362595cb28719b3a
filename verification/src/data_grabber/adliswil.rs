//! The municipal collection calendar.

use crate::calendar::{chrono_format_day, formatted_day};
use crate::data_grabber::{in_window, Pickup, TrashType};
use vstd::prelude::*;
use vstd::string::*;

verus! {

/// The municipal collection calendar.
pub struct AdliswilWasteGrabber;

/// One entry of the municipal calendar: a day and the number of a kind.
#[derive(Clone, Copy, Debug, PartialEq, Eq, Structural)]
pub struct Event {
    pub day: i32,
    pub waste_type: i32,
}

/// The kind that the municipal calendar numbers `waste_type`.
pub open spec fn kind_of(waste_type: i32) -> Option<TrashType> {
    if waste_type == 1 {
        Some(TrashType::Normal)
    } else if waste_type == 2 {
        Some(TrashType::Bio)
    } else if waste_type == 3 {
        Some(TrashType::Cardboard)
    } else if waste_type == 4 {
        Some(TrashType::Paper)
    } else {
        None
    }
}

/// The pickup that an entry stands for: none if its day lies outside the
/// span or its kind is unknown.
pub open spec fn pickup_of(event: Event, from: i32, to: i32) -> Option<Pickup> {
    if in_window(event.day, from, to) {
        match kind_of(event.waste_type) {
            Some(kind) => Some(Pickup { day: event.day, kind }),
            None => None,
        }
    } else {
        None
    }
}

/// Where the calendar of a month is found.
pub open spec fn calendar_url(month_and_year: Seq<char>) -> Seq<char> {
    "https://adliswil.entsorglos.swiss/backend/widget/calendar-dates/"@ + month_and_year + "/"@
}

/// The address of the calendar of a month, given as chrono writes it.
pub fn calendar_address(month_and_year: &str) -> (address: String)
    ensures
        address@ == calendar_url(month_and_year@),
{
    let mut address = String::from_str(
        "https://adliswil.entsorglos.swiss/backend/widget/calendar-dates/",
    );
    address.append(month_and_year);
    address.append("/");
    address
}

impl AdliswilWasteGrabber {
    /// The address of the calendar of the month that holds `from`: none if
    /// chrono cannot write that day as a month and a year.
    pub fn url(&self, from: i32) -> (address: Option<String>)
        ensures
            match formatted_day(from as int, "%m-%Y"@) {
                Some(month_and_year) => address matches Some(a) && a@ == calendar_url(
                    month_and_year,
                ),
                None => address is None,
            },
    {
        match chrono_format_day(from, "%m-%Y") {
            Some(month_and_year) => Some(calendar_address(month_and_year.as_str())),
            None => None,
        }
    }

    /// The pickups among `events` that lie after `from` and not after `to`,
    /// in the order of the calendar. Entries of an unknown kind are left out.
    pub fn get_trashes(&self, events: &Vec<Event>, from: i32, to: i32) -> (pickups: Vec<Pickup>)
        ensures
            pickups@ == events@.filter_map(|event: Event| pickup_of(event, from, to)),
    {
        let ghost choose_pickup = |event: Event| pickup_of(event, from, to);
        let mut pickups: Vec<Pickup> = Vec::new();
        let mut i: usize = 0;
        while i < events.len()
            invariant
                i <= events.len(),
                choose_pickup == |event: Event| pickup_of(event, from, to),
                pickups@ == events@.take(i as int).filter_map(choose_pickup),
            decreases events.len() - i,
        {
            let event = events[i];
            proof {
                events@.lemma_filter_map_take_succ(choose_pickup, i as int);
            }
            if from < event.day && event.day <= to {
                if event.waste_type == 1 {
                    pickups.push(Pickup { day: event.day, kind: TrashType::Normal });
                } else if event.waste_type == 2 {
                    pickups.push(Pickup { day: event.day, kind: TrashType::Bio });
                } else if event.waste_type == 3 {
                    pickups.push(Pickup { day: event.day, kind: TrashType::Cardboard });
                } else if event.waste_type == 4 {
                    pickups.push(Pickup { day: event.day, kind: TrashType::Paper });
                }
            }
            i += 1;
        }
        proof {
            assert(events@.take(i as int) == events@);
        }
        pickups
    }
}

} // verus!
