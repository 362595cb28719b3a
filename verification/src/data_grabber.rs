//! Kinds of waste, and the schedule of their collection.

pub mod adliswil;
pub mod we_recycle;

use crate::calendar::{day_of, Instant};
use crate::config::Config;
use crate::error::GstaldergeistError;
use crate::rotation::{member_on, today_food_master_id, tomorrow_food_master_id};
use crate::text::{decimal_of, decimal_text};
use std::collections::HashMap;
use vstd::pervasive::unreached;
use vstd::prelude::*;
use vstd::std_specs::hash::*;
use vstd::string::*;
use vstd::utf8::*;

verus! {

/// What is collected on a collection day.
#[derive(Clone, Copy, Debug, PartialEq, Eq, Structural)]
pub enum TrashType {
    WeRecycle,
    Normal,
    Bio,
    Cardboard,
    Paper,
}

impl TrashType {
    /// The number under which the kind is stored.
    pub open spec fn spec_code(self) -> int {
        match self {
            TrashType::WeRecycle => 0,
            TrashType::Normal => 1,
            TrashType::Bio => 2,
            TrashType::Cardboard => 3,
            TrashType::Paper => 4,
        }
    }

    /// The kind stored under `code`, if there is one.
    pub open spec fn spec_from_code(code: int) -> Option<TrashType> {
        if code == 0 {
            Some(TrashType::WeRecycle)
        } else if code == 1 {
            Some(TrashType::Normal)
        } else if code == 2 {
            Some(TrashType::Bio)
        } else if code == 3 {
            Some(TrashType::Cardboard)
        } else if code == 4 {
            Some(TrashType::Paper)
        } else {
            None
        }
    }

    /// The number under which the kind is stored.
    pub fn code(&self) -> (code: i64)
        ensures
            code == self.spec_code(),
    {
        match self {
            TrashType::WeRecycle => 0,
            TrashType::Normal => 1,
            TrashType::Bio => 2,
            TrashType::Cardboard => 3,
            TrashType::Paper => 4,
        }
    }

    /// The kind stored under `code`, if there is one.
    pub fn from_code(code: i64) -> (kind: Option<TrashType>)
        ensures
            kind == TrashType::spec_from_code(code as int),
    {
        if code == 0 {
            Some(TrashType::WeRecycle)
        } else if code == 1 {
            Some(TrashType::Normal)
        } else if code == 2 {
            Some(TrashType::Bio)
        } else if code == 3 {
            Some(TrashType::Cardboard)
        } else if code == 4 {
            Some(TrashType::Paper)
        } else {
            None
        }
    }

    /// Every kind is found again under its own code, and no other code
    /// leads to it.
    pub proof fn lemma_code_round_trip(kind: TrashType, code: int)
        ensures
            TrashType::spec_from_code(kind.spec_code()) == Some(kind),
            TrashType::spec_from_code(code) == Some(kind) ==> code == kind.spec_code(),
    {
    }
}

/// One collection: a kind of waste that is taken away on a day.
#[derive(Clone, Copy, Debug, PartialEq, Eq, Structural)]
pub struct Pickup {
    pub day: i32,
    pub kind: TrashType,
}

/// The kinds that `pickups` name for `day`, in the order in which they stand
/// there. A kind that is named twice is listed twice.
pub open spec fn kinds_on(pickups: Seq<Pickup>, day: i32) -> Seq<TrashType>
    decreases pickups.len(),
{
    if pickups.len() == 0 {
        Seq::empty()
    } else if pickups.last().day == day {
        kinds_on(pickups.drop_last(), day).push(pickups.last().kind)
    } else {
        kinds_on(pickups.drop_last(), day)
    }
}

/// The days for which `pickups` name a kind, each with its kinds.
pub open spec fn grouped(pickups: Seq<Pickup>) -> Map<i32, Seq<TrashType>> {
    Map::new(|day: i32| kinds_on(pickups, day).len() > 0, |day: i32| kinds_on(pickups, day))
}

/// What `dates` holds: each day with the kinds listed for it.
pub open spec fn kinds_by_day(dates: Map<i32, Vec<TrashType>>) -> Map<i32, Seq<TrashType>> {
    Map::new(|day: i32| dates.contains_key(day), |day: i32| dates[day]@)
}

/// One more pickup adds its kind at the end of the list of its day and
/// leaves the other days as they are.
pub proof fn lemma_kinds_on_push(pickups: Seq<Pickup>, next: Pickup, day: i32)
    ensures
        kinds_on(pickups.push(next), day) == if next.day == day {
            kinds_on(pickups, day).push(next.kind)
        } else {
            kinds_on(pickups, day)
        },
{
    assert(pickups.push(next).drop_last() == pickups);
}

/// The kinds of two lists of pickups, one after the other, are the kinds of
/// the first followed by those of the second.
pub proof fn lemma_kinds_on_concat(first: Seq<Pickup>, second: Seq<Pickup>, day: i32)
    ensures
        kinds_on(first + second, day) == kinds_on(first, day) + kinds_on(second, day),
    decreases second.len(),
{
    if second.len() == 0 {
        assert(first + second == first);
        assert(kinds_on(first, day) + Seq::<TrashType>::empty() == kinds_on(first, day));
    } else {
        lemma_kinds_on_concat(first, second.drop_last(), day);
        assert((first + second).drop_last() == first + second.drop_last());
        assert((first + second).last() == second.last());
        if second.last().day == day {
            assert(kinds_on(first, day) + kinds_on(second.drop_last(), day).push(
                second.last().kind,
            ) == (kinds_on(first, day) + kinds_on(second.drop_last(), day)).push(
                second.last().kind,
            ));
        }
    }
}

/// Puts the pickups of each day together, in the order in which they come.
pub fn group_by_day(pickups: &Vec<Pickup>) -> (dates: HashMap<i32, Vec<TrashType>>)
    ensures
        kinds_by_day(dates@) == grouped(pickups@),
{
    broadcast use group_hash_axioms;

    let mut dates: HashMap<i32, Vec<TrashType>> = HashMap::new();
    let mut i: usize = 0;
    while i < pickups.len()
        invariant
            i <= pickups.len(),
            forall|day: i32| #[trigger]
                dates@.contains_key(day) <==> kinds_on(pickups@.take(i as int), day).len() > 0,
            forall|day: i32| #[trigger]
                dates@.contains_key(day) ==> dates@[day]@ == kinds_on(
                    pickups@.take(i as int),
                    day,
                ),
        decreases pickups.len() - i,
    {
        let pickup = pickups[i];
        let ghost before = dates@;
        let mut kinds = match dates.remove(&pickup.day) {
            Some(kinds) => kinds,
            None => Vec::new(),
        };
        kinds.push(pickup.kind);
        dates.insert(pickup.day, kinds);
        proof {
            let seen = pickups@.take(i as int);
            assert(pickups@.take(i + 1) == seen.push(pickup));
            assert forall|day: i32|
                (#[trigger] dates@.contains_key(day) <==> kinds_on(
                    pickups@.take(i + 1),
                    day,
                ).len() > 0) && (dates@.contains_key(day) ==> dates@[day]@ == kinds_on(
                    pickups@.take(i + 1),
                    day,
                )) by {
                lemma_kinds_on_push(seen, pickup, day);
                assert(before.contains_key(day) <==> kinds_on(seen, day).len() > 0);
            }
        }
        i += 1;
    }
    proof {
        assert(pickups@.take(i as int) == pickups@);
        assert(kinds_by_day(dates@) =~= grouped(pickups@));
    }
    dates
}

/// Mathematical model of a schedule.
pub struct ScheduleModel {
    /// The days with a collection, each with one kind at least.
    pub dates: Map<i32, Seq<TrashType>>,
    /// Who is on duty today, by name and by number.
    pub master_name: Seq<char>,
    pub master_id: i64,
    /// Who is on duty tomorrow, by name and by number.
    pub tomorrow_master_name: Seq<char>,
    pub tomorrow_master_id: i64,
}

impl ScheduleModel {
    /// A day with no kind of waste is no collection day.
    pub open spec fn wf(self) -> bool {
        forall|day: i32| #[trigger] self.dates.contains_key(day) ==> self.dates[day].len() > 0
    }

    /// Whether something is collected on `day`.
    pub open spec fn due_on(self, day: i32) -> bool {
        self.dates.contains_key(day)
    }
}

/// The collections of a span of days and the members on duty, as found at
/// one moment. It is made anew for each use and never changed.
#[derive(Debug)]
pub struct TrashesSchedule {
    dates: HashMap<i32, Vec<TrashType>>,
    master_name: String,
    master_id: i64,
    tomorrow_master_name: String,
    tomorrow_master_id: i64,
}

impl View for TrashesSchedule {
    type V = ScheduleModel;

    closed spec fn view(&self) -> ScheduleModel {
        ScheduleModel {
            dates: kinds_by_day(self.dates@),
            master_name: self.master_name@,
            master_id: self.master_id,
            tomorrow_master_name: self.tomorrow_master_name@,
            tomorrow_master_id: self.tomorrow_master_id,
        }
    }
}

impl TrashesSchedule {
    #[verifier::type_invariant]
    spec fn inv(self) -> bool {
        self@.wf()
    }

    /// The schedule of the given pickups and members.
    pub fn new(
        pickups: &Vec<Pickup>,
        master_name: String,
        master_id: i64,
        tomorrow_master_name: String,
        tomorrow_master_id: i64,
    ) -> (schedule: TrashesSchedule)
        ensures
            schedule@ == (ScheduleModel {
                dates: grouped(pickups@),
                master_name: master_name@,
                master_id,
                tomorrow_master_name: tomorrow_master_name@,
                tomorrow_master_id,
            }),
            schedule@.wf(),
    {
        let dates = group_by_day(pickups);
        TrashesSchedule { dates, master_name, master_id, tomorrow_master_name, tomorrow_master_id }
    }

    /// The kinds collected on `day`, if there are any.
    pub fn trashes_on(&self, day: i32) -> (found: Option<&Vec<TrashType>>)
        ensures
            found is Some <==> self@.due_on(day),
            found matches Some(kinds) ==> kinds@ == self@.dates[day] && kinds@.len() > 0,
            self@.wf(),
    {
        broadcast use group_hash_axioms;

        proof {
            use_type_invariant(self);
        }
        self.dates.get(&day)
    }

    /// The name of the member on duty today.
    pub fn master_name(&self) -> (name: &str)
        ensures
            name@ == self@.master_name,
    {
        self.master_name.as_str()
    }

    /// The member on duty today.
    pub fn master_id(&self) -> (id: i64)
        ensures
            id == self@.master_id,
    {
        self.master_id
    }

    /// The name of the member on duty tomorrow.
    pub fn tomorrow_master_name(&self) -> (name: &str)
        ensures
            name@ == self@.tomorrow_master_name,
    {
        self.tomorrow_master_name.as_str()
    }

    /// The member on duty tomorrow.
    pub fn tomorrow_master_id(&self) -> (id: i64)
        ensures
            id == self@.tomorrow_master_id,
    {
        self.tomorrow_master_id
    }
}

/// What the sources found, or why one of them failed.
pub type Found = Result<Vec<Pickup>, GstaldergeistError>;

/// The pickups of all the sources that gave any, the first source first.
pub open spec fn all_pickups(sources: Seq<Found>) -> Seq<Pickup>
    decreases sources.len(),
{
    if sources.len() == 0 {
        Seq::empty()
    } else {
        all_pickups(sources.drop_last()) + match sources.last() {
            Ok(pickups) => pickups@,
            Err(_) => Seq::empty(),
        }
    }
}

/// Whether no source before the one at `index` failed.
pub open spec fn none_failed_before(sources: Seq<Found>, index: int) -> bool {
    forall|k: int| 0 <= k < index ==> (#[trigger] sources[k]) is Ok
}

/// The failure of the source at `index`.
fn take_failure(sources: Vec<Found>, index: usize) -> (error: GstaldergeistError)
    requires
        index < sources@.len(),
        sources@[index as int] is Err,
    ensures
        sources@[index as int] == Err::<Vec<Pickup>, GstaldergeistError>(error),
{
    let mut sources = sources;
    match sources.remove(index) {
        Err(error) => error,
        Ok(_) => unreached(),
    }
}

/// Puts together what the sources found at `now` for the days to come, and
/// names the members on duty today and tomorrow. The kinds that different
/// sources name for one day stand in one list, those of the first source
/// first, and a kind that two sources name stands there twice. If a source
/// failed, the whole fails, with the failure of the first source that did.
pub fn get_trashes(
    config: &Config,
    now: Instant,
    sources: Vec<Found>,
    master_name: String,
    tomorrow_master_name: String,
) -> (fetched: Result<TrashesSchedule, GstaldergeistError>)
    ensures
        fetched is Ok <==> none_failed_before(sources@, sources@.len() as int),
        fetched matches Ok(schedule) ==> schedule@ == (ScheduleModel {
            dates: grouped(all_pickups(sources@)),
            master_name: master_name@,
            master_id: member_on(config@.flatmates, day_of(now@)),
            tomorrow_master_name: tomorrow_master_name@,
            tomorrow_master_id: member_on(config@.flatmates, day_of(now@) + 1),
        }),
        fetched matches Err(error) ==> exists|i: int|
            0 <= i < sources@.len() && none_failed_before(sources@, i) && #[trigger] sources@[i]
                == Err::<Vec<Pickup>, GstaldergeistError>(error),
{
    let mut pickups: Vec<Pickup> = Vec::new();
    let mut i: usize = 0;
    while i < sources.len()
        invariant
            i <= sources.len(),
            none_failed_before(sources@, i as int),
            pickups@ == all_pickups(sources@.take(i as int)),
        decreases sources.len() - i,
    {
        proof {
            assert(sources@.take(i + 1).drop_last() == sources@.take(i as int));
            assert(sources@.take(i + 1).last() == sources@[i as int]);
        }
        match &sources[i] {
            Ok(found) => {
                let mut j: usize = 0;
                while j < found.len()
                    invariant
                        j <= found.len(),
                        pickups@ == all_pickups(sources@.take(i as int)) + found@.take(j as int),
                    decreases found.len() - j,
                {
                    pickups.push(found[j]);
                    proof {
                        assert(found@.take(j + 1) == found@.take(j as int).push(found@[j as int]));
                    }
                    j += 1;
                }
                proof {
                    assert(found@.take(j as int) == found@);
                }
            },
            Err(_) => {
                return Err(take_failure(sources, i));
            },
        }
        i += 1;
    }
    proof {
        assert(sources@.take(i as int) == sources@);
    }
    let master_id = today_food_master_id(config, now);
    let tomorrow_master_id = tomorrow_food_master_id(config, now);
    Ok(
        TrashesSchedule::new(
            &pickups,
            master_name,
            master_id,
            tomorrow_master_name,
            tomorrow_master_id,
        ),
    )
}

/// Where the messaging service tells the name of a chat.
pub open spec fn chat_url(bot_token: Seq<char>, chat_id: int) -> Seq<char> {
    "https://api.telegram.org/bot"@ + bot_token + "/getChat?chat_id="@ + decimal_of(chat_id)
}

/// The address at which the name of the chat `chat_id` is asked for.
pub fn get_chat_url(config: &Config, chat_id: i64) -> (address: String)
    ensures
        address@ == chat_url(config@.bot_token, chat_id as int),
{
    let mut address = String::from_str("https://api.telegram.org/bot");
    address.append(config.bot_token());
    address.append("/getChat?chat_id=");
    address.append(decimal_text(chat_id).as_str());
    address
}

/// The number of bytes in front of a member's name in the title of the
/// member's chat.
pub const TITLE_PREFIX_BYTES: usize = 17;

/// Whether a title holds a name: it is long enough, and the name begins
/// where a character begins.
pub open spec fn title_holds_name(title: Seq<char>) -> bool {
    is_char_boundary(encode_utf8(title), 17)
}

/// The name of the member on duty, out of what the messaging service says
/// of the member's chat: the title without its first 17 bytes. Where the
/// service gave no title, or one that holds no name, the name is `Error`.
pub fn grab_tomorrow_food_master_name(title: Option<&str>) -> (name: String)
    ensures
        match title {
            Some(title) => if title_holds_name(title@) {
                encode_utf8(name@) == encode_utf8(title@).subrange(
                    17,
                    encode_utf8(title@).len() as int,
                )
            } else {
                name@ == "Error"@
            },
            None => name@ == "Error"@,
        },
{
    match title {
        Some(title) => {
            if title.is_char_boundary(TITLE_PREFIX_BYTES) {
                let (_, name) = title.split_at(TITLE_PREFIX_BYTES);
                name.to_owned()
            } else {
                String::from_str("Error")
            }
        },
        None => String::from_str("Error"),
    }
}

/// Whether `day` lies in the span that begins after `from` and ends with `to`.
pub open spec fn in_window(day: i32, from: i32, to: i32) -> bool {
    from < day <= to
}

} // verus!
