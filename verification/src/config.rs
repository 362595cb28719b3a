//! The settings that the process is started with.

use crate::calendar::Weekday;
use crate::error::GstaldergeistError;
use crate::text::{parse_i64, parsed_i64, same_text, trim, trimmed};
use vstd::prelude::*;
use vstd::string::*;

verus! {

/// Mathematical model of the settings.
pub struct ConfigModel {
    /// The household members, in the order in which the duty passes on.
    pub flatmates: Seq<i64>,
    /// Where the whole household is addressed.
    pub global_channel_id: i64,
    /// The word that opens the messaging service.
    pub bot_token: Seq<char>,
    /// Seconds between a prompt and the next reminder.
    pub reminder_interval: nat,
    /// Reminders that are sent before the duty is escalated.
    pub max_reminders: nat,
    /// The day of the week on which the duty passes to the next member.
    pub rotation_day: Weekday,
}

impl ConfigModel {
    /// Somebody is there to do the duty, and reminders are sent and spaced.
    pub open spec fn wf(self) -> bool {
        &&& self.flatmates.len() > 0
        &&& self.reminder_interval > 0
        &&& self.max_reminders > 0
    }
}

/// The settings; a value of this type is always well formed.
#[derive(Debug)]
pub struct Config {
    flatmates: Vec<i64>,
    global_channel_id: i64,
    bot_token: String,
    reminder_interval: u32,
    max_reminders: u32,
    rotation_day: Weekday,
}

impl View for Config {
    type V = ConfigModel;

    closed spec fn view(&self) -> ConfigModel {
        ConfigModel {
            flatmates: self.flatmates@,
            global_channel_id: self.global_channel_id,
            bot_token: self.bot_token@,
            reminder_interval: self.reminder_interval as nat,
            max_reminders: self.max_reminders as nat,
            rotation_day: self.rotation_day,
        }
    }
}

/// Seconds between a prompt and its reminder where nothing else is asked for.
pub const DEFAULT_REMINDER_INTERVAL: u32 = 5_400;

/// Reminders before the escalation where nothing else is asked for.
pub const DEFAULT_MAX_REMINDERS: u32 = 1;

/// The pieces of a text between its commas: one more than it has commas.
pub open spec fn split_commas(text: Seq<char>) -> Seq<Seq<char>>
    decreases text.len(),
{
    if text.len() == 0 {
        seq![Seq::empty()]
    } else {
        let before = split_commas(text.drop_last());
        if text.last() == ',' {
            before.push(Seq::empty())
        } else {
            before.drop_last().push(before.last().push(text.last()))
        }
    }
}

/// The flatmate that a piece of the list names, white space aside.
pub open spec fn flatmate_of(piece: Seq<char>) -> Option<i64> {
    parsed_i64(trimmed(piece))
}

/// Reads the number of the household's channel.
pub fn parse_channel_id(text: &str) -> (parsed: Result<i64, GstaldergeistError>)
    ensures
        match parsed_i64(text@) {
            Some(id) => parsed == Ok::<i64, GstaldergeistError>(id),
            None => parsed matches Err(error) && error is ConfigError,
        },
{
    match parse_i64(text) {
        Some(id) => Ok(id),
        None => Err(
            GstaldergeistError::ConfigError(
                String::from_str("TELEGRAM_CHANNEL_ID must be a number"),
            ),
        ),
    }
}

/// Cuts a text at its commas.
pub fn split_at_commas(text: &str) -> (pieces: Vec<String>)
    ensures
        pieces.deep_view() == split_commas(text@),
        pieces@.len() > 0,
{
    let len = text.unicode_len();
    let mut pieces: Vec<String> = Vec::new();
    let mut start: usize = 0;
    let mut i: usize = 0;
    proof {
        assert(text@.take(0).len() == 0);
        assert(text@.subrange(0, 0) =~= Seq::<char>::empty());
        assert(seq![Seq::<char>::empty()] =~= pieces.deep_view().push(text@.subrange(0, 0)));
    }
    while i < len
        invariant
            start <= i <= len,
            len == text@.len(),
            split_commas(text@.take(i as int)) == pieces.deep_view().push(
                text@.subrange(start as int, i as int),
            ),
        decreases len - i,
    {
        let ghost done = pieces.deep_view();
        proof {
            assert(text@.take(i + 1).drop_last() == text@.take(i as int));
            assert(text@.take(i + 1).last() == text@[i as int]);
        }
        if text.get_char(i) == ',' {
            pieces.push(text.substring_char(start, i).to_owned());
            proof {
                assert(pieces.deep_view() =~= done.push(text@.subrange(start as int, i as int)));
                assert(text@.subrange(i + 1, i + 1) =~= Seq::<char>::empty());
            }
            start = i + 1;
        } else {
            proof {
                let before = done.push(text@.subrange(start as int, i as int));
                assert(before.drop_last() == done);
                assert(text@.subrange(start as int, i as int).push(text@[i as int])
                    == text@.subrange(start as int, i + 1));
            }
        }
        i += 1;
    }
    let ghost done = pieces.deep_view();
    pieces.push(text.substring_char(start, len).to_owned());
    proof {
        assert(text@.take(len as int) == text@);
        assert(pieces.deep_view() =~= done.push(text@.subrange(start as int, len as int)));
    }
    pieces
}

/// The flatmates that a list names, if each of its pieces names one.
pub open spec fn flatmates_of(text: Seq<char>) -> Option<Seq<i64>> {
    let pieces = split_commas(text);
    if forall|k: int| 0 <= k < pieces.len() ==> flatmate_of(#[trigger] pieces[k]) is Some {
        Some(Seq::new(pieces.len(), |k: int| flatmate_of(pieces[k]).unwrap()))
    } else {
        None
    }
}

/// Reads the list of flatmates: numbers with commas between them, each
/// with or without white space round it. One piece that is no number makes
/// the whole list invalid.
pub fn parse_flatmates(text: &str) -> (parsed: Result<Vec<i64>, GstaldergeistError>)
    ensures
        match flatmates_of(text@) {
            Some(ids) => parsed matches Ok(read) && read@ == ids && ids.len() > 0,
            None => parsed matches Err(error) && error is ConfigError,
        },
{
    let pieces = split_at_commas(text);
    let mut ids: Vec<i64> = Vec::new();
    let mut i: usize = 0;
    while i < pieces.len()
        invariant
            i <= pieces.len(),
            pieces.deep_view() == split_commas(text@),
            ids@.len() == i,
            forall|k: int|
                0 <= k < i ==> flatmate_of(#[trigger] split_commas(text@)[k]) == Some(ids@[k]),
        decreases pieces.len() - i,
    {
        proof {
            assert(pieces.deep_view()[i as int] == pieces[i as int]@);
        }
        match parse_i64(trim(pieces[i].as_str())) {
            Some(id) => {
                ids.push(id);
            },
            None => {
                assert(flatmate_of(split_commas(text@)[i as int]) is None);
                return Err(
                    GstaldergeistError::ConfigError(
                        String::from_str(
                            "TELEGRAM_FLATMATES must be a comma-separated list of numbers like 123,456,789",
                        ),
                    ),
                );
            },
        }
        i += 1;
    }
    proof {
        assert(ids@ =~= flatmates_of(text@).unwrap());
    }
    Ok(ids)
}

/// A positive count that a text gives, or the usual one where no text is
/// given.
pub open spec fn count_of(text: Option<Seq<char>>, usual: u32) -> Option<u32> {
    match text {
        Some(given) => match parsed_i64(given) {
            Some(number) => if 1 <= number <= u32::MAX {
                Some(number as u32)
            } else {
                None
            },
            None => None,
        },
        None => Some(usual),
    }
}

/// The day of the week that a text names, or Sunday where no text is given.
pub open spec fn rotation_day_of(text: Option<Seq<char>>) -> Option<Weekday> {
    match text {
        Some(given) => Weekday::of_name(given),
        None => Some(Weekday::Sun),
    }
}

/// What is known of a text that may be missing.
pub open spec fn text_of(given: Option<&str>) -> Option<Seq<char>> {
    match given {
        Some(text) => Some(text@),
        None => None,
    }
}

/// The settings that the texts of the environment describe, if they describe
/// any: the token, the channel and the flatmates must be given, the rest has
/// its usual value where it is not.
pub open spec fn config_of(
    bot_token: Option<Seq<char>>,
    channel_id: Option<Seq<char>>,
    flatmates: Option<Seq<char>>,
    reminder_interval: Option<Seq<char>>,
    max_reminders: Option<Seq<char>>,
    rotation_day: Option<Seq<char>>,
) -> Option<ConfigModel> {
    if bot_token is Some && channel_id is Some && parsed_i64(channel_id.unwrap()) is Some
        && flatmates is Some && flatmates_of(flatmates.unwrap()) is Some && count_of(
        reminder_interval,
        DEFAULT_REMINDER_INTERVAL,
    ) is Some && count_of(max_reminders, DEFAULT_MAX_REMINDERS) is Some && rotation_day_of(
        rotation_day,
    ) is Some {
        Some(
            ConfigModel {
                flatmates: flatmates_of(flatmates.unwrap()).unwrap(),
                global_channel_id: parsed_i64(channel_id.unwrap()).unwrap(),
                bot_token: bot_token.unwrap(),
                reminder_interval: count_of(reminder_interval, DEFAULT_REMINDER_INTERVAL).unwrap() as nat,
                max_reminders: count_of(max_reminders, DEFAULT_MAX_REMINDERS).unwrap() as nat,
                rotation_day: rotation_day_of(rotation_day).unwrap(),
            },
        )
    } else {
        None
    }
}

impl Weekday {
    /// The day of the week that three letters name.
    pub open spec fn of_name(name: Seq<char>) -> Option<Weekday> {
        if name == "Mon"@ {
            Some(Weekday::Mon)
        } else if name == "Tue"@ {
            Some(Weekday::Tue)
        } else if name == "Wed"@ {
            Some(Weekday::Wed)
        } else if name == "Thu"@ {
            Some(Weekday::Thu)
        } else if name == "Fri"@ {
            Some(Weekday::Fri)
        } else if name == "Sat"@ {
            Some(Weekday::Sat)
        } else if name == "Sun"@ {
            Some(Weekday::Sun)
        } else {
            None
        }
    }

    /// Reads a day of the week from its three letters.
    pub fn from_name(name: &str) -> (day: Option<Weekday>)
        ensures
            day == Weekday::of_name(name@),
    {
        if same_text(name, "Mon") {
            Some(Weekday::Mon)
        } else if same_text(name, "Tue") {
            Some(Weekday::Tue)
        } else if same_text(name, "Wed") {
            Some(Weekday::Wed)
        } else if same_text(name, "Thu") {
            Some(Weekday::Thu)
        } else if same_text(name, "Fri") {
            Some(Weekday::Fri)
        } else if same_text(name, "Sat") {
            Some(Weekday::Sat)
        } else if same_text(name, "Sun") {
            Some(Weekday::Sun)
        } else {
            None
        }
    }
}

/// Reads a positive count, or takes the usual one where no text is given.
pub fn parse_count(text: Option<&str>, usual: u32) -> (count: Option<u32>)
    ensures
        count == count_of(text_of(text), usual),
{
    match text {
        Some(given) => match parse_i64(given) {
            Some(number) => if 1 <= number && number <= u32::MAX as i64 {
                Some(number as u32)
            } else {
                None
            },
            None => None,
        },
        None => Some(usual),
    }
}

fn refused(reason: &str) -> (made: Result<Config, GstaldergeistError>)
    ensures
        made matches Err(error) && error is ConfigError,
{
    Err(GstaldergeistError::ConfigError(String::from_str(reason)))
}

/// Makes the settings out of the texts that the environment gives. Whatever
/// is missing though it must be there, or cannot be read, is a
/// configuration failure.
pub fn config(
    bot_token: Option<String>,
    channel_id: Option<&str>,
    flatmates: Option<&str>,
    reminder_interval: Option<&str>,
    max_reminders: Option<&str>,
    rotation_day: Option<&str>,
) -> (made: Result<Config, GstaldergeistError>)
    ensures
        match config_of(
            match bot_token {
                Some(token) => Some(token@),
                None => None,
            },
            text_of(channel_id),
            text_of(flatmates),
            text_of(reminder_interval),
            text_of(max_reminders),
            text_of(rotation_day),
        ) {
            Some(model) => made matches Ok(settings) && settings@ == model,
            None => made matches Err(error) && error is ConfigError,
        },
{
    let bot_token = match bot_token {
        Some(token) => token,
        None => {
            return refused("TELEGRAM_BOT_TOKEN not set");
        },
    };
    let global_channel_id = match channel_id {
        Some(text) => match parse_channel_id(text) {
            Ok(id) => id,
            Err(error) => {
                return Err(error);
            },
        },
        None => {
            return refused("TELEGRAM_CHANNEL_ID not set");
        },
    };
    let flatmates = match flatmates {
        Some(text) => match parse_flatmates(text) {
            Ok(ids) => ids,
            Err(error) => {
                return Err(error);
            },
        },
        None => {
            return refused("TELEGRAM_FLATMATES not set");
        },
    };
    let reminder_interval = match parse_count(reminder_interval, DEFAULT_REMINDER_INTERVAL) {
        Some(seconds) => seconds,
        None => {
            return refused("REMINDER_INTERVAL must be a positive number of seconds");
        },
    };
    let max_reminders = match parse_count(max_reminders, DEFAULT_MAX_REMINDERS) {
        Some(count) => count,
        None => {
            return refused("MAX_REMINDERS must be a positive number");
        },
    };
    let rotation_day = match rotation_day {
        Some(name) => match Weekday::from_name(name) {
            Some(day) => day,
            None => {
                return refused("ROTATION_DAY must be one of Mon, Tue, Wed, Thu, Fri, Sat, Sun");
            },
        },
        None => Weekday::Sun,
    };
    Config::new(
        flatmates,
        global_channel_id,
        bot_token,
        reminder_interval,
        max_reminders,
        rotation_day,
    )
}

impl Config {
    #[verifier::type_invariant]
    spec fn inv(self) -> bool {
        self@.wf()
    }

    /// The settings made of the given values, or a configuration failure if
    /// there is no flatmate, or the interval or the number of reminders is 0.
    pub fn new(
        flatmates: Vec<i64>,
        global_channel_id: i64,
        bot_token: String,
        reminder_interval: u32,
        max_reminders: u32,
        rotation_day: Weekday,
    ) -> (made: Result<Config, GstaldergeistError>)
        ensures
            made is Ok <==> flatmates@.len() > 0 && reminder_interval > 0 && max_reminders > 0,
            made matches Ok(config) ==> config@ == (ConfigModel {
                flatmates: flatmates@,
                global_channel_id,
                bot_token: bot_token@,
                reminder_interval: reminder_interval as nat,
                max_reminders: max_reminders as nat,
                rotation_day,
            }),
            made matches Err(e) ==> e is ConfigError,
    {
        if flatmates.len() == 0 {
            Err(GstaldergeistError::ConfigError(String::from_str("no flatmate is named")))
        } else if reminder_interval == 0 {
            Err(
                GstaldergeistError::ConfigError(
                    String::from_str("the reminder interval must be positive"),
                ),
            )
        } else if max_reminders == 0 {
            Err(
                GstaldergeistError::ConfigError(
                    String::from_str("the number of reminders must be positive"),
                ),
            )
        } else {
            Ok(
                Config {
                    flatmates,
                    global_channel_id,
                    bot_token,
                    reminder_interval,
                    max_reminders,
                    rotation_day,
                },
            )
        }
    }

    /// The settings with the usual reminders: one, an hour and a half after
    /// the prompt, and the duty passing on each Sunday.
    pub fn standard(flatmates: Vec<i64>, global_channel_id: i64, bot_token: String) -> (made:
        Result<Config, GstaldergeistError>)
        ensures
            made is Ok <==> flatmates@.len() > 0,
            made matches Ok(config) ==> config@ == (ConfigModel {
                flatmates: flatmates@,
                global_channel_id,
                bot_token: bot_token@,
                reminder_interval: DEFAULT_REMINDER_INTERVAL as nat,
                max_reminders: DEFAULT_MAX_REMINDERS as nat,
                rotation_day: Weekday::Sun,
            }),
            made matches Err(e) ==> e is ConfigError,
    {
        Config::new(
            flatmates,
            global_channel_id,
            bot_token,
            DEFAULT_REMINDER_INTERVAL,
            DEFAULT_MAX_REMINDERS,
            Weekday::Sun,
        )
    }

    /// The household members, in the order in which the duty passes on.
    pub fn flatmates(&self) -> (members: &Vec<i64>)
        ensures
            members@ == self@.flatmates,
            self@.wf(),
    {
        proof {
            use_type_invariant(self);
        }
        &self.flatmates
    }

    /// Where the whole household is addressed.
    pub fn global_channel_id(&self) -> (id: i64)
        ensures
            id == self@.global_channel_id,
    {
        self.global_channel_id
    }

    /// The word that opens the messaging service.
    pub fn bot_token(&self) -> (token: &str)
        ensures
            token@ == self@.bot_token,
    {
        self.bot_token.as_str()
    }

    /// Seconds between a prompt and the next reminder.
    pub fn reminder_interval(&self) -> (seconds: u32)
        ensures
            seconds == self@.reminder_interval,
            seconds > 0,
    {
        proof {
            use_type_invariant(self);
        }
        self.reminder_interval
    }

    /// Reminders that are sent before the duty is escalated.
    pub fn max_reminders(&self) -> (count: u32)
        ensures
            count == self@.max_reminders,
            count > 0,
    {
        proof {
            use_type_invariant(self);
        }
        self.max_reminders
    }

    /// The day of the week on which the duty passes to the next member.
    pub fn rotation_day(&self) -> (day: Weekday)
        ensures
            day == self@.rotation_day,
    {
        self.rotation_day
    }
}

} // verus!
