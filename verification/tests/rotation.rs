use chrono::{Datelike, NaiveDate};
use gstaldergeist::calendar::{compute_next_trigger, tomorrow_evening, Day, Instant, Weekday};
use gstaldergeist::config::Config;
use gstaldergeist::rotation::{
    member_for, member_for_week, today_food_master_id, tomorrow_food_master_id,
};

fn day(year: i32, month: u32, day: u32) -> i32 {
    NaiveDate::from_ymd_opt(year, month, day).unwrap().num_days_from_ce()
}

fn on(year: i32, month: u32, of_month: u32) -> Day {
    a_day(day(year, month, of_month))
}

fn a_day(number: i32) -> Day {
    Day::new(number).unwrap()
}

fn midnight(number: i32) -> Instant {
    Instant::at(number, 0).unwrap()
}

fn instant(seconds: i64) -> Instant {
    Instant::new(seconds).unwrap()
}

fn iso_week0(number: i32) -> u32 {
    a_day(number).iso_week0()
}

fn weekday(number: i32) -> Weekday {
    a_day(number).weekday()
}

fn members(ids: Vec<i64>) -> Config {
    Config::standard(ids, -1, String::from("t")).unwrap()
}

#[test]
fn iso_week_is_the_one_of_the_calendar() {
    // 2015-04-06 is the Monday of ISO week 15.
    assert_eq!(iso_week0(day(2015, 4, 6)), 14);
    // The first days of January can belong to the last week of the old year.
    assert_eq!(iso_week0(day(2021, 1, 1)), 52);
    assert_eq!(iso_week0(day(2021, 1, 4)), 0);
    // The last days of December can belong to the first week of the new year.
    assert_eq!(iso_week0(day(2024, 12, 30)), 0);
    assert_eq!(iso_week0(1), 0);
    assert_eq!(iso_week0(3_652_059), 51);
}

#[test]
fn iso_week_follows_chrono_through_the_years() {
    let mut date = NaiveDate::from_ymd_opt(1999, 12, 20).unwrap();
    let end = NaiveDate::from_ymd_opt(2031, 1, 15).unwrap();
    while date < end {
        assert_eq!(iso_week0(date.num_days_from_ce()), date.iso_week().week0());
        date = date.succ_opt().unwrap();
    }
}

#[test]
fn weekday_follows_chrono_through_the_years() {
    let mut date = NaiveDate::from_ymd_opt(1899, 12, 20).unwrap();
    let end = NaiveDate::from_ymd_opt(2101, 1, 15).unwrap();
    while date < end {
        let expected = match date.weekday() {
            chrono::Weekday::Mon => Weekday::Mon,
            chrono::Weekday::Tue => Weekday::Tue,
            chrono::Weekday::Wed => Weekday::Wed,
            chrono::Weekday::Thu => Weekday::Thu,
            chrono::Weekday::Fri => Weekday::Fri,
            chrono::Weekday::Sat => Weekday::Sat,
            chrono::Weekday::Sun => Weekday::Sun,
        };
        assert_eq!(weekday(date.num_days_from_ce()), expected);
        date = date.succ_opt().unwrap();
    }
}

#[test]
fn weekday_of_the_first_and_the_last_day() {
    assert_eq!(weekday(1), Weekday::Mon);
    assert_eq!(weekday(7), Weekday::Sun);
    assert_eq!(weekday(8), Weekday::Mon);
    // 9999-12-31 is a Friday.
    assert_eq!(weekday(3_652_059), Weekday::Fri);
}

#[test]
fn member_is_one_past_the_week_number() {
    let config = members(vec![10, 20, 30]);
    // Week 15 of 2015 is numbered 14 from 0: place (1 + 14) % 3 = 0.
    assert_eq!(member_for(&config, on(2015, 4, 6)), 10);
    assert_eq!(member_for(&config, on(2015, 4, 12)), 10);
    // Week 16: place 1.
    assert_eq!(member_for(&config, on(2015, 4, 13)), 20);
    // Week 17: place 2.
    assert_eq!(member_for(&config, on(2015, 4, 20)), 30);
    // Week 18: place 0 again.
    assert_eq!(member_for(&config, on(2015, 4, 27)), 10);
}

#[test]
fn member_is_the_same_on_every_call() {
    let config = members(vec![7, 8, 9, 10]);
    for offset in 0..400 {
        let d = day(2023, 1, 1) + offset;
        let first = member_for(&config, a_day(d));
        assert_eq!(member_for(&config, a_day(d)), first);
        assert_eq!(today_food_master_id(&config, midnight(d)), first);
        assert_eq!(tomorrow_food_master_id(&config, midnight(d - 1)), first);
    }
}

#[test]
fn member_follows_the_formula_through_the_years() {
    let ids = vec![5, 6, 7, 8, 9];
    let config = members(ids.clone());
    let mut date = NaiveDate::from_ymd_opt(2019, 12, 1).unwrap();
    let end = NaiveDate::from_ymd_opt(2027, 2, 1).unwrap();
    while date < end {
        let place = (1 + date.iso_week().week0() as usize) % ids.len();
        assert_eq!(member_for(&config, a_day(date.num_days_from_ce())), ids[place]);
        date = date.succ_opt().unwrap();
    }
}

#[test]
fn consecutive_weeks_of_one_year_have_different_members() {
    for count in 2..7 {
        let ids: Vec<i64> = (0..count).collect();
        let config = members(ids);
        // The Mondays of 2024 from week 1 to week 51.
        let mut monday = day(2024, 1, 1);
        while monday < day(2024, 12, 16) {
            assert_ne!(member_for(&config, a_day(monday)), member_for(&config, a_day(monday + 7)));
            monday += 7;
        }
    }
}

#[test]
fn the_turn_of_the_year_can_keep_the_member() {
    // Week 52 of 2024 is numbered 51 and week 1 of 2025 is numbered 0: with
    // three members both put the duty at place 1.
    let config = members(vec![10, 20, 30]);
    assert_eq!(member_for(&config, on(2024, 12, 23)), 20);
    assert_eq!(member_for(&config, on(2024, 12, 30)), 20);
}

#[test]
fn tomorrow_can_have_another_member_than_today() {
    let config = members(vec![10, 20, 30]);
    let sunday = Instant::at(day(2015, 4, 12), 18 * 3_600).unwrap();
    assert_eq!(today_food_master_id(&config, sunday), 10);
    assert_eq!(tomorrow_food_master_id(&config, sunday), 20);
    let monday = Instant::at(day(2015, 4, 13), 0).unwrap();
    assert_eq!(today_food_master_id(&config, monday), 20);
    assert_eq!(tomorrow_food_master_id(&config, monday), 20);
}

#[test]
fn a_single_member_is_always_on_duty() {
    let config = members(vec![42]);
    for offset in 0..60 {
        assert_eq!(member_for(&config, a_day(day(2024, 12, 1) + offset)), 42);
    }
}

#[test]
fn the_day_of_an_instant() {
    assert_eq!(instant(86_400).day().number(), 1);
    assert_eq!(instant(2 * 86_400 - 1).day().number(), 1);
    assert_eq!(instant(2 * 86_400).day().number(), 2);
    let noon = instant(day(2025, 3, 10) as i64 * 86_400 + 12 * 3_600);
    assert_eq!(noon.day().number(), day(2025, 3, 10));
    assert_eq!(noon.tomorrow().number(), day(2025, 3, 11));
    assert_eq!(noon.seconds(), day(2025, 3, 10) as i64 * 86_400 + 12 * 3_600);
    assert_eq!(Instant::at(day(2025, 3, 10), 12 * 3_600), Some(noon));
}

#[test]
fn the_days_after_an_instant() {
    let noon = Instant::at(100, 43_200).unwrap();
    for days in 0..=7u8 {
        assert_eq!(noon.day_after(days).unwrap().number(), 100 + days as i32);
    }
    assert_eq!(noon.day_after(8), None);
    assert_eq!(noon.day_after(255), None);
    let last = Instant::at(3_652_052, 86_399).unwrap();
    assert_eq!(last.day_after(7).unwrap().number(), 3_652_059);
}

#[test]
fn the_check_hour_of_the_next_day() {
    let d = day(2025, 3, 10) as i64;
    let next = (d + 1) * 86_400 + 18 * 3_600;
    assert_eq!(tomorrow_evening(instant(d * 86_400)), next);
    assert_eq!(tomorrow_evening(instant(d * 86_400 + 18 * 3_600)), next);
    assert_eq!(tomorrow_evening(instant(d * 86_400 + 86_399)), next);
}

#[test]
fn the_first_trigger_is_the_check_hour_to_come() {
    let d = day(2025, 3, 10) as i64;
    let today = d * 86_400 + 18 * 3_600;
    let tomorrow = (d + 1) * 86_400 + 18 * 3_600;
    assert_eq!(compute_next_trigger(instant(d * 86_400)), today);
    assert_eq!(compute_next_trigger(instant(d * 86_400 + 17 * 3_600 + 3_599)), today);
    assert_eq!(compute_next_trigger(instant(d * 86_400 + 18 * 3_600)), tomorrow);
    assert_eq!(compute_next_trigger(instant(d * 86_400 + 21 * 3_600)), tomorrow);
    assert_eq!(compute_next_trigger(instant(d * 86_400 + 86_399)), tomorrow);
}

#[test]
fn the_member_of_a_week_by_its_number() {
    let config = members(vec![10, 20, 30]);
    assert_eq!(member_for_week(&config, 0), 20);
    assert_eq!(member_for_week(&config, 1), 30);
    assert_eq!(member_for_week(&config, 2), 10);
    assert_eq!(member_for_week(&config, 14), 10);
    assert_eq!(member_for_week(&config, 51), 20);
    assert_eq!(member_for_week(&config, 52), 30);
    assert_eq!(member_for_week(&config, u32::MAX), 20);
    let pair = members(vec![7, 7]);
    assert_eq!(member_for_week(&pair, 3), member_for_week(&pair, 4));
}

#[test]
fn the_days_of_the_calendar() {
    assert_eq!(Day::new(0), None);
    assert_eq!(Day::new(1).unwrap().number(), 1);
    assert_eq!(Day::new(3_652_059).unwrap().number(), 3_652_059);
    assert_eq!(Day::new(3_652_060), None);
    assert_eq!(Day::new(i32::MIN), None);
    assert_eq!(Day::new(i32::MAX), None);
}

#[test]
fn the_instants_at_which_the_scheduler_acts() {
    assert_eq!(Instant::new(0), None);
    assert_eq!(Instant::new(86_399), None);
    assert_eq!(Instant::new(86_400).unwrap().seconds(), 86_400);
    assert!(Instant::new(3_652_052 * 86_400 + 86_399).is_some());
    assert_eq!(Instant::new(3_652_053 * 86_400), None);
    assert_eq!(Instant::new(-1), None);
    assert_eq!(Instant::new(i64::MIN), None);
    assert_eq!(Instant::new(i64::MAX), None);
}

#[test]
fn an_instant_is_a_second_of_a_day() {
    assert_eq!(Instant::at(1, 0).unwrap().seconds(), 86_400);
    assert_eq!(Instant::at(2, 86_399).unwrap().seconds(), 3 * 86_400 - 1);
    assert_eq!(Instant::at(2, 86_400), None);
    assert_eq!(Instant::at(2, u32::MAX), None);
    assert_eq!(Instant::at(0, 0), None);
    assert_eq!(Instant::at(3_652_052, 86_399).unwrap().seconds(), 3_652_053 * 86_400 - 1);
    assert_eq!(Instant::at(3_652_053, 0), None);
    assert_eq!(Instant::at(i32::MIN, 0), None);
    assert_eq!(Instant::at(i32::MAX, 86_399), None);
}
