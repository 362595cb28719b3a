//! The calendar of the recycling service, read out of its documents.

use crate::calendar::{chrono_parse_date, parsed_date};
use crate::data_grabber::{in_window, Pickup, TrashType};
use crate::error::GstaldergeistError;
use crate::text::{contains_pair, contains_text, decimal_of, decimal_text};
use vstd::prelude::*;
use vstd::seq_lib::{to_multiset_build, to_multiset_insert};
use vstd::string::*;

verus! {

/// The calendar of the recycling service.
pub struct WeRecycleWasteGrabber;

/// A row of the calendar: a day and a month, two capital letters for the
/// day of the week, and the regions that are served, if any are named.
pub const DATE_ROW_PATTERN: &'static str =
    r"(\d{1,2}\.\d{1,2}\.)\s+([A-Z]{2})\s*([\d\s\+\-]+(?:\s+\d+\s*-\s*\d+)?(?:\s+\d+\s*-\s*\d+)*)??\s+";

/// A link to a document whose name ends in a number.
pub const LINK_PATTERN: &'static str = r#"href="([^"]+\d+.pdf)""#;

/// A day, a month and a year, with a dot after the day and after the month.
pub const DATE_PATTERN: &'static str = "%d.%m.%Y";

/// What one match holds: the text of each group of the pattern, the whole
/// match first, and nothing for a group that took no part in it.
pub type Groups = Seq<Option<Seq<char>>>;

/// What the regex crate finds when it searches a text with a pattern: the
/// matches that do not overlap, from left to right, if the pattern is one.
pub uninterp spec fn regex_captures_of(pattern: Seq<char>, text: Seq<char>) -> Option<Seq<Groups>>;

/// A pattern that the regex crate does not take.
#[verifier::external_type_specification]
#[verifier::external_body]
pub struct ExRegexError(regex::Error);

/// Searches a text with the regex crate: `Regex::new` compiles the pattern,
/// `Regex::captures_iter` finds the matches and `Captures::iter` gives the
/// groups of each. Believed of the crate: what is found depends on the
/// pattern and the text alone, and a pattern is refused or taken whatever
/// the text is.
#[verifier::external_body]
fn regex_captures(pattern: &str, text: &str) -> (found: Result<
    Vec<Vec<Option<String>>>,
    regex::Error,
>)
    ensures
        match found {
            Ok(rows) => regex_captures_of(pattern@, text@) == Some(rows.deep_view()),
            Err(_) => regex_captures_of(pattern@, text@) is None,
        },
{
    let compiled = regex::Regex::new(pattern)?;
    let mut rows = Vec::new();
    for captures in compiled.captures_iter(text) {
        let mut row = Vec::new();
        for group in captures.iter() {
            row.push(match group {
                Some(found) => Some(found.as_str().to_string()),
                None => None,
            });
        }
        rows.push(row);
    }
    Ok(rows)
}

/// The words of the regex crate about a pattern that it does not take:
/// `Error`'s `to_string`.
#[verifier::external_body]
fn regex_error_text(error: &regex::Error) -> (text: String) {
    error.to_string()
}

/// Whether no day stands before an earlier one.
pub open spec fn ascending(days: Seq<i32>) -> bool {
    forall|i: int, j: int| 0 <= i <= j < days.len() ==> days[i] <= days[j]
}

/// The same days in ascending order.
pub fn sort_days(days: &Vec<i32>) -> (sorted: Vec<i32>)
    ensures
        ascending(sorted@),
        sorted@.to_multiset() == days@.to_multiset(),
{
    let mut sorted: Vec<i32> = Vec::new();
    let mut i: usize = 0;
    proof {
        assert(days@.take(0) =~= sorted@);
    }
    while i < days.len()
        invariant
            i <= days.len(),
            ascending(sorted@),
            sorted@.to_multiset() == days@.take(i as int).to_multiset(),
        decreases days.len() - i,
    {
        let day = days[i];
        let mut at: usize = 0;
        while at < sorted.len() && sorted[at] <= day
            invariant
                at <= sorted.len(),
                forall|k: int| 0 <= k < at ==> sorted@[k] <= day,
            decreases sorted.len() - at,
        {
            at += 1;
        }
        proof {
            let before = sorted@;
            let after = before.insert(at as int, day);
            to_multiset_insert(before, at as int, day);
            to_multiset_build(days@.take(i as int), day);
            assert(days@.take(i + 1) == days@.take(i as int).push(day));
            assert forall|a: int, b: int| 0 <= a <= b < after.len() implies after[a] <= after[b] by {
                if b < at {
                    assert(after[a] == before[a] && after[b] == before[b]);
                } else if a > at {
                    assert(after[a] == before[a - 1] && after[b] == before[b - 1]);
                } else if a == at {
                    if b > at {
                        assert(after[b] == before[b - 1]);
                        assert(before[at as int] <= before[b - 1]);
                    }
                } else {
                    assert(after[a] == before[a]);
                    if b > at {
                        assert(after[b] == before[b - 1]);
                        assert(before[a] <= before[b - 1]);
                    }
                }
            }
        }
        sorted.insert(at, day);
        i += 1;
    }
    proof {
        assert(days@.take(i as int) == days@);
    }
    sorted
}

/// The day that a row of the calendar names for the household: the day and
/// month of the row in the given year, if the row serves region 19 and
/// chrono reads a date out of it.
pub open spec fn row_date(date: Seq<char>, regions: Option<Seq<char>>, year: int) -> Option<i32> {
    match regions {
        Some(served) => if contains_text(served, seq!['1', '9']) {
            parsed_date(date + decimal_of(year), DATE_PATTERN@)
        } else {
            None
        },
        None => None,
    }
}

/// The day that a match of the row pattern names: the first group is the
/// day and month, the third the regions.
pub open spec fn groups_date(groups: Groups, year: int) -> Option<i32> {
    if groups.len() > 3 && groups[1] is Some {
        row_date(groups[1].unwrap(), groups[3], year)
    } else {
        None
    }
}

/// The link that a match of the link pattern holds: its first group.
pub open spec fn groups_link(groups: Groups) -> Option<Seq<char>> {
    if groups.len() > 1 {
        groups[1]
    } else {
        None
    }
}

/// The days of all the lists, the first list first.
pub open spec fn flattened(parts: Seq<Seq<i32>>) -> Seq<i32>
    decreases parts.len(),
{
    if parts.len() == 0 {
        Seq::empty()
    } else {
        flattened(parts.drop_last()) + parts.last()
    }
}

/// The day of a row of the calendar, for the household's region.
pub fn regex_caps_to_datetime(date: &str, regions: Option<&str>, current_year: i32) -> (day:
    Option<i32>)
    ensures
        day == row_date(
            date@,
            match regions {
                Some(served) => Some(served@),
                None => None,
            },
            current_year as int,
        ),
{
    match regions {
        Some(served) => {
            if contains_pair(served, '1', '9') {
                let mut text = String::from_str(date);
                text.append(decimal_text(current_year as i64).as_str());
                chrono_parse_date(text.as_str(), DATE_PATTERN)
            } else {
                None
            }
        },
        None => None,
    }
}

/// The days that the matches of the row pattern name for the household's
/// region in `current_year`, in ascending order. A match that names no date
/// is passed over.
pub fn dates_in_rows(rows: &Vec<Vec<Option<String>>>, current_year: i32) -> (days: Vec<i32>)
    ensures
        ascending(days@),
        days@.to_multiset() == rows.deep_view().filter_map(
            |groups: Groups| groups_date(groups, current_year as int),
        ).to_multiset(),
{
    let ghost read = |groups: Groups| groups_date(groups, current_year as int);
    let mut days: Vec<i32> = Vec::new();
    let mut i: usize = 0;
    while i < rows.len()
        invariant
            i <= rows.len(),
            read == |groups: Groups| groups_date(groups, current_year as int),
            days@ == rows.deep_view().take(i as int).filter_map(read),
        decreases rows.len() - i,
    {
        let row = &rows[i];
        proof {
            rows.deep_view().lemma_filter_map_take_succ(read, i as int);
            assert(rows.deep_view()[i as int] == row.deep_view());
        }
        if row.len() > 3 {
            assert(row.deep_view()[1] == row[1].deep_view());
            assert(row.deep_view()[3] == row[3].deep_view());
            match &row[1] {
                Some(date) => {
                    let regions: Option<&str> = match &row[3] {
                        Some(served) => Some(served.as_str()),
                        None => None,
                    };
                    match regex_caps_to_datetime(date.as_str(), regions, current_year) {
                        Some(day) => {
                            days.push(day);
                        },
                        None => {},
                    }
                },
                None => {},
            }
        }
        i += 1;
    }
    proof {
        assert(rows.deep_view().take(i as int) == rows.deep_view());
    }
    sort_days(&days)
}

/// The days that a document of the recycling service names for the
/// household's region in `current_year`, in ascending order. It fails only
/// if the regex crate does not take the row pattern.
pub fn extract_dates_from_txt(text: &str, current_year: i32) -> (found: Result<
    Vec<i32>,
    GstaldergeistError,
>)
    ensures
        match regex_captures_of(DATE_ROW_PATTERN@, text@) {
            Some(rows) => {
                &&& found matches Ok(days)
                &&& ascending(days@)
                &&& days@.to_multiset() == rows.filter_map(
                    |groups: Groups| groups_date(groups, current_year as int),
                ).to_multiset()
            },
            None => found matches Err(error) && error is Other,
        },
{
    match regex_captures(DATE_ROW_PATTERN, text) {
        Ok(rows) => Ok(dates_in_rows(&rows, current_year)),
        Err(error) => Err(GstaldergeistError::Other(regex_error_text(&error))),
    }
}

/// The links that the matches of the link pattern hold, in their order. A
/// match without a link makes the page unreadable.
pub fn links_in_rows(rows: &Vec<Vec<Option<String>>>) -> (found: Result<
    Vec<String>,
    GstaldergeistError,
>)
    ensures
        if forall|i: int| 0 <= i < rows@.len() ==> groups_link(rows.deep_view()[i]) is Some {
            &&& found matches Ok(links)
            &&& links.deep_view() == rows.deep_view().map_values(
                |groups: Groups| groups_link(groups).unwrap(),
            )
        } else {
            found matches Err(error) && error is Other
        },
{
    let ghost matches = rows.deep_view();
    let mut links: Vec<String> = Vec::new();
    let mut i: usize = 0;
    while i < rows.len()
        invariant
            i <= rows.len(),
            links.len() == i,
            matches == rows.deep_view(),
            forall|k: int| 0 <= k < i ==> #[trigger] groups_link(matches[k]) == Some(links[k]@),
        decreases rows.len() - i,
    {
        let row = &rows[i];
        proof {
            assert(matches[i as int] == row.deep_view());
        }
        if row.len() > 1 {
            assert(row.deep_view()[1] == row[1].deep_view());
            match &row[1] {
                Some(link) => {
                    links.push(link.clone());
                },
                None => {
                    assert(groups_link(matches[i as int]) is None);
                    return Err(GstaldergeistError::Other(String::from_str("pdf url corrupted")));
                },
            }
        } else {
            assert(groups_link(matches[i as int]) is None);
            return Err(GstaldergeistError::Other(String::from_str("pdf url corrupted")));
        }
        i += 1;
    }
    proof {
        assert forall|k: int| 0 <= k < matches.len() implies groups_link(matches[k]) is Some by {
            assert(groups_link(matches[k]) == Some(links[k]@));
        }
        assert(links.deep_view() =~= matches.map_values(
            |groups: Groups| groups_link(groups).unwrap(),
        ));
    }
    Ok(links)
}

/// The links to the documents of the recycling service that a page holds,
/// in the order of the page.
pub fn pdf_links(body: &str) -> (found: Result<Vec<String>, GstaldergeistError>)
    ensures
        match regex_captures_of(LINK_PATTERN@, body@) {
            Some(rows) => if forall|i: int| 0 <= i < rows.len() ==> groups_link(rows[i]) is Some {
                &&& found matches Ok(links)
                &&& links.deep_view() == rows.map_values(
                    |groups: Groups| groups_link(groups).unwrap(),
                )
            } else {
                found matches Err(error) && error is Other
            },
            None => found matches Err(error) && error is Other,
        },
{
    match regex_captures(LINK_PATTERN, body) {
        Ok(rows) => links_in_rows(&rows),
        Err(error) => Err(GstaldergeistError::Other(regex_error_text(&error))),
    }
}

/// The days of all the documents together, in ascending order.
pub fn download_pdf(parts: &Vec<Vec<i32>>) -> (days: Vec<i32>)
    ensures
        ascending(days@),
        days@.to_multiset() == flattened(parts.deep_view()).to_multiset(),
{
    let mut days: Vec<i32> = Vec::new();
    let mut i: usize = 0;
    while i < parts.len()
        invariant
            i <= parts.len(),
            days@ == flattened(parts.deep_view().take(i as int)),
        decreases parts.len() - i,
    {
        let part = &parts[i];
        proof {
            assert(parts.deep_view().take(i + 1).drop_last() == parts.deep_view().take(i as int));
            assert(parts.deep_view().take(i + 1).last() == part.deep_view());
            assert(part.deep_view() == part@);
        }
        let mut j: usize = 0;
        while j < part.len()
            invariant
                j <= part.len(),
                days@ == flattened(parts.deep_view().take(i as int)) + part@.take(j as int),
            decreases part.len() - j,
        {
            days.push(part[j]);
            proof {
                assert(part@.take(j + 1) == part@.take(j as int).push(part@[j as int]));
            }
            j += 1;
        }
        proof {
            assert(part@.take(j as int) == part@);
        }
        i += 1;
    }
    proof {
        assert(parts.deep_view().take(i as int) == parts.deep_view());
    }
    sort_days(&days)
}

impl WeRecycleWasteGrabber {
    /// A pickup by the recycling service on each of `dates` that lies after
    /// `from` and not after `to`, in the order of `dates`.
    pub fn get_trashes(&self, dates: &Vec<i32>, from: i32, to: i32) -> (pickups: Vec<Pickup>)
        ensures
            pickups@ == dates@.filter_map(
                |day: i32|
                    if in_window(day, from, to) {
                        Some(Pickup { day, kind: TrashType::WeRecycle })
                    } else {
                        None
                    },
            ),
    {
        let ghost choose_pickup = |day: i32|
            if in_window(day, from, to) {
                Some(Pickup { day, kind: TrashType::WeRecycle })
            } else {
                None
            };
        let mut pickups: Vec<Pickup> = Vec::new();
        let mut i: usize = 0;
        while i < dates.len()
            invariant
                i <= dates.len(),
                choose_pickup == |day: i32|
                    if in_window(day, from, to) {
                        Some(Pickup { day, kind: TrashType::WeRecycle })
                    } else {
                        None
                    },
                pickups@ == dates@.take(i as int).filter_map(choose_pickup),
            decreases dates.len() - i,
        {
            let day = dates[i];
            proof {
                dates@.lemma_filter_map_take_succ(choose_pickup, i as int);
            }
            if from < day && day <= to {
                pickups.push(Pickup { day, kind: TrashType::WeRecycle });
            }
            i += 1;
        }
        proof {
            assert(dates@.take(i as int) == dates@);
        }
        pickups
    }
}

} // verus!
