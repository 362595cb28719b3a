use gstaldergeist::answer_handler::{cant_handler, done_handler};
use gstaldergeist::calendar::{Instant, Weekday};
use gstaldergeist::config::Config;
use gstaldergeist::data_grabber::{Pickup, TrashType, TrashesSchedule};
use gstaldergeist::error::GstaldergeistError;
use gstaldergeist::scheduler::{
    control_human_accomplishment, next_wake, send_scheduled_messages, send_update, tick,
    Notification, Round, Wake,
};
use gstaldergeist::task_state::{SharedTaskState, TaskSnapshot, TaskState};

// 2025-03-09 is a Sunday, day 739_319 of the calendar.
const SUNDAY: i32 = 739_319;
const MONDAY: i32 = SUNDAY + 1;
const DAY: i64 = 86_400;
const HOUR: i64 = 3_600;

fn at(day: i32, hour: i64) -> i64 {
    day as i64 * DAY + hour * HOUR
}

fn when(seconds: i64) -> Instant {
    Instant::new(seconds).unwrap()
}

fn config(max_reminders: u32) -> Config {
    Config::new(vec![1, 2, 3], -500, String::from("t"), 600, max_reminders, Weekday::Sun).unwrap()
}

fn schedule(pickups: Vec<Pickup>) -> TrashesSchedule {
    TrashesSchedule::new(&pickups, String::from("Ann"), 1, String::from("Bob"), 2)
}

fn paper_on(day: i32) -> TrashesSchedule {
    schedule(vec![Pickup { day, kind: TrashType::Paper }])
}

fn store_at(record: TaskSnapshot) -> SharedTaskState {
    let mut store = SharedTaskState::new(0);
    store.force_transition(|_| record);
    store
}

fn prompt_text() -> String {
    String::from(
        "Hello Bob !\nDon't forget the  Paper trashes out before tomorrow morning! Have a nice evening!",
    )
}

fn week_plan_text(lines: &str) -> String {
    format!(
        "Hello Bob!\nYou are the new food master.\nThis week you need to put these trashes in front of the house before 7am.\nHere is the schedule:\n{}Do we need new we-recycle bags ?",
        lines
    )
}

fn shame_text() -> String {
    String::from(
        "Unfortunately Bob is not able to fulfill his role as Food master today!\n\n            Could someone put the  Paper trashes out before tomorrow morning? Have a nice evening!",
    )
}

#[test]
fn before_the_trigger_the_caller_sleeps() {
    let conf = config(2);
    let now = at(MONDAY, 12);
    let store = SharedTaskState::new(now + 1_000);
    assert_eq!(next_wake(&store, &conf, when(now)), Wake::Sleep { seconds: 60 });
    let store = SharedTaskState::new(now + 60);
    assert_eq!(next_wake(&store, &conf, when(now)), Wake::Sleep { seconds: 60 });
    let store = SharedTaskState::new(now + 59);
    assert_eq!(next_wake(&store, &conf, when(now)), Wake::Sleep { seconds: 59 });
    let store = SharedTaskState::new(now + 1);
    assert_eq!(next_wake(&store, &conf, when(now)), Wake::Sleep { seconds: 1 });
}

#[test]
fn from_the_trigger_on_the_caller_fetches() {
    let conf = config(2);
    let store = SharedTaskState::new(at(MONDAY, 18));
    assert_eq!(
        next_wake(&store, &conf, when(at(MONDAY, 18))),
        Wake::Fetch { from: MONDAY, to: MONDAY + 1, weekly: false }
    );
    assert_eq!(
        next_wake(&store, &conf, when(at(MONDAY, 23))),
        Wake::Fetch { from: MONDAY, to: MONDAY + 1, weekly: false }
    );
    let store = SharedTaskState::new(at(SUNDAY, 18));
    assert_eq!(
        next_wake(&store, &conf, when(at(SUNDAY, 18))),
        Wake::Fetch { from: SUNDAY, to: SUNDAY + 7, weekly: true }
    );
}

#[test]
fn the_rotation_day_is_the_one_of_the_settings() {
    let conf =
        Config::new(vec![1, 2], 0, String::from("t"), 600, 1, Weekday::Mon).unwrap();
    let store = SharedTaskState::new(0);
    assert_eq!(
        next_wake(&store, &conf, when(at(MONDAY, 18))),
        Wake::Fetch { from: MONDAY, to: MONDAY + 7, weekly: true }
    );
    assert_eq!(
        next_wake(&store, &conf, when(at(SUNDAY, 18))),
        Wake::Fetch { from: SUNDAY, to: SUNDAY + 1, weekly: false }
    );
}

#[test]
fn a_round_before_the_trigger_does_nothing() {
    let conf = config(2);
    for record in [
        TaskSnapshot::idle(at(MONDAY, 18)),
        TaskSnapshot::awaiting(at(MONDAY, 18), 1),
        TaskSnapshot::escalated(at(MONDAY, 18)),
    ] {
        let mut store = store_at(record);
        let sent = tick(&mut store, &conf, &paper_on(MONDAY + 1), when(at(MONDAY, 18) - 1));
        assert!(sent.is_empty());
        assert_eq!(store.snapshot(), record);
    }
}

#[test]
fn an_idle_round_prompts_tomorrows_member() {
    let conf = config(2);
    let now = at(MONDAY, 18);
    let mut store = SharedTaskState::new(now);
    let sent = tick(&mut store, &conf, &paper_on(MONDAY + 1), when(now));
    assert_eq!(sent, vec![Notification::Prompt { member: 2, text: prompt_text() }]);
    assert_eq!(store.snapshot(), TaskSnapshot::awaiting(now + 600, 0));
}

#[test]
fn an_idle_round_with_nothing_due_stays_idle() {
    let conf = config(2);
    let now = at(MONDAY, 18);
    let mut store = SharedTaskState::new(now);
    // Something is collected today and in two days, nothing tomorrow.
    let plan = schedule(vec![
        Pickup { day: MONDAY, kind: TrashType::Paper },
        Pickup { day: MONDAY + 2, kind: TrashType::Bio },
    ]);
    let sent = tick(&mut store, &conf, &plan, when(now));
    assert_eq!(
        sent,
        vec![Notification::NothingDue {
            member: 2,
            text: String::from("Hi Bob\nNo trashes tomorrow!\nHave a nice evening."),
        }]
    );
    assert_eq!(store.snapshot(), TaskSnapshot::idle(at(MONDAY + 1, 18)));
}

#[test]
fn on_the_rotation_day_the_household_hears_first() {
    let conf = config(2);
    let now = at(SUNDAY, 18);
    let mut store = SharedTaskState::new(now);
    let sent = tick(&mut store, &conf, &paper_on(SUNDAY + 1), when(now));
    assert_eq!(
        sent,
        vec![
            Notification::Broadcast {
                audience: -500,
                text: String::from("The new food master is Bob."),
            },
            Notification::WeekPlan { member: 2, text: week_plan_text(" Paper on Mon,\n") },
            Notification::Prompt { member: 2, text: prompt_text() },
        ]
    );
    assert_eq!(store.snapshot(), TaskSnapshot::awaiting(now + 600, 0));
}

#[test]
fn on_the_rotation_day_with_nothing_due_the_household_still_hears() {
    let conf = config(2);
    let now = at(SUNDAY, 18);
    let mut store = SharedTaskState::new(now);
    let sent = tick(&mut store, &conf, &schedule(vec![]), when(now));
    assert_eq!(sent.len(), 3);
    assert!(matches!(&sent[0], Notification::Broadcast { audience: -500, .. }));
    assert_eq!(sent[1], Notification::WeekPlan { member: 2, text: week_plan_text("") });
    assert!(matches!(&sent[2], Notification::NothingDue { member: 2, .. }));
    assert_eq!(store.snapshot(), TaskSnapshot::idle(at(SUNDAY + 1, 18)));
}

#[test]
fn send_update_does_what_the_idle_round_does() {
    let conf = config(2);
    let now = at(MONDAY, 18);
    let mut store = SharedTaskState::new(now);
    let sent = send_update(&mut store, &conf, &paper_on(MONDAY + 1), true, when(now));
    assert_eq!(sent.len(), 3);
    assert!(matches!(&sent[0], Notification::Broadcast { .. }));
    assert_eq!(sent[1], Notification::WeekPlan { member: 2, text: week_plan_text(" Paper on Tue,\n") });
    assert_eq!(sent[2], Notification::Prompt { member: 2, text: prompt_text() });
    assert_eq!(store.snapshot(), TaskSnapshot::awaiting(now + 600, 0));
}

#[test]
fn send_update_without_a_new_week_sends_no_broadcast_and_no_plan() {
    let conf = config(2);
    let now = at(SUNDAY, 18);
    for record in [
        TaskSnapshot::idle(now),
        TaskSnapshot::awaiting(now + 5, 1),
        TaskSnapshot::escalated(now),
    ] {
        let mut store = store_at(record);
        let sent = send_update(&mut store, &conf, &paper_on(SUNDAY + 1), false, when(now));
        assert_eq!(sent, vec![Notification::Prompt { member: 2, text: prompt_text() }]);
        assert_eq!(store.snapshot(), TaskSnapshot::awaiting(now + 600, 0));
    }
}

#[test]
fn the_plan_of_the_week_lists_the_seven_days_to_come() {
    let conf = config(2);
    let now = at(SUNDAY, 18);
    let mut store = SharedTaskState::new(now);
    let plan = schedule(vec![
        Pickup { day: SUNDAY, kind: TrashType::Normal },
        Pickup { day: SUNDAY + 3, kind: TrashType::Paper },
        Pickup { day: SUNDAY + 1, kind: TrashType::Bio },
        Pickup { day: SUNDAY + 3, kind: TrashType::WeRecycle },
        Pickup { day: SUNDAY + 7, kind: TrashType::Cardboard },
        Pickup { day: SUNDAY + 8, kind: TrashType::Normal },
    ]);
    let sent = tick(&mut store, &conf, &plan, when(now));
    assert_eq!(sent.len(), 3);
    assert_eq!(
        sent[1],
        Notification::WeekPlan {
            member: 2,
            text: week_plan_text(" Bio on Mon,\n Paper WeRecycle on Wed,\n Cardboard on Sun,\n"),
        }
    );
}

#[test]
fn on_other_days_no_plan_is_sent() {
    let conf = config(2);
    for offset in 1..7 {
        let now = at(SUNDAY + offset, 18);
        let mut store = SharedTaskState::new(now);
        let sent = tick(&mut store, &conf, &paper_on(SUNDAY + offset + 1), when(now));
        assert_eq!(sent.len(), 1);
        assert!(matches!(&sent[0], Notification::Prompt { .. }));
    }
}

#[test]
fn reminders_and_escalations_on_the_rotation_day_send_no_plan() {
    let conf = config(2);
    let now = at(SUNDAY, 19);
    let mut store = store_at(TaskSnapshot::awaiting(now, 0));
    let sent = tick(&mut store, &conf, &paper_on(SUNDAY + 1), when(now));
    assert_eq!(sent, vec![Notification::Prompt { member: 2, text: prompt_text() }]);
    let mut store = store_at(TaskSnapshot::escalated(now));
    let sent = tick(&mut store, &conf, &paper_on(SUNDAY + 1), when(now));
    assert_eq!(sent, vec![Notification::Shame { audience: -500, text: shame_text() }]);
}

#[test]
fn the_last_reminder_does_not_escalate() {
    for max in [1u32, 2, 5] {
        let conf = config(max);
        let now = at(MONDAY, 19);
        let mut store = store_at(TaskSnapshot::awaiting(now, max - 1));
        let sent = tick(&mut store, &conf, &paper_on(MONDAY + 1), when(now));
        assert_eq!(sent, vec![Notification::Prompt { member: 2, text: prompt_text() }]);
        assert_eq!(store.snapshot(), TaskSnapshot::awaiting(now + 600, max));
    }
}

#[test]
fn used_up_reminders_escalate_with_one_notice() {
    for max in [1u32, 2, 5] {
        let conf = config(max);
        let now = at(MONDAY, 20);
        let mut store = store_at(TaskSnapshot::awaiting(now - 5, max));
        let sent = tick(&mut store, &conf, &paper_on(MONDAY + 1), when(now));
        assert_eq!(sent, vec![Notification::Shame { audience: -500, text: shame_text() }]);
        assert_eq!(store.snapshot(), TaskSnapshot::idle(at(MONDAY + 1, 18)));
    }
}

#[test]
fn more_reminders_than_allowed_escalate_too() {
    let conf = config(2);
    let now = at(MONDAY, 20);
    let mut store = store_at(TaskSnapshot::awaiting(now, 7));
    let sent = tick(&mut store, &conf, &paper_on(MONDAY + 1), when(now));
    assert_eq!(sent.len(), 1);
    assert!(matches!(&sent[0], Notification::Shame { .. }));
    assert_eq!(store.snapshot(), TaskSnapshot::idle(at(MONDAY + 1, 18)));
}

#[test]
fn an_escalated_task_is_shamed_and_ends() {
    let conf = config(2);
    let now = at(MONDAY, 19);
    let mut store = store_at(TaskSnapshot::escalated(now));
    let sent = tick(&mut store, &conf, &paper_on(MONDAY + 1), when(now));
    assert_eq!(sent, vec![Notification::Shame { audience: -500, text: shame_text() }]);
    assert_eq!(store.snapshot(), TaskSnapshot::idle(at(MONDAY + 1, 18)));
}

#[test]
fn control_ends_the_cycle_whatever_the_phase() {
    let conf = config(2);
    let now = at(MONDAY, 21);
    let mut store = store_at(TaskSnapshot::awaiting(now, 0));
    let sent = control_human_accomplishment(&mut store, &conf, &paper_on(MONDAY + 1), when(now));
    assert_eq!(sent, vec![Notification::Shame { audience: -500, text: shame_text() }]);
    assert_eq!(store.snapshot(), TaskSnapshot::idle(at(MONDAY + 1, 18)));
}

#[test]
fn control_ends_the_cycle_of_a_refused_duty() {
    let conf = config(2);
    let now = at(MONDAY, 21);
    let mut store = store_at(TaskSnapshot::escalated(now - 7));
    let sent = control_human_accomplishment(&mut store, &conf, &paper_on(MONDAY + 1), when(now));
    assert_eq!(sent, vec![Notification::Shame { audience: -500, text: shame_text() }]);
    assert_eq!(store.snapshot(), TaskSnapshot::idle(at(MONDAY + 1, 18)));
}

#[test]
fn control_leaves_an_idle_task_alone() {
    let conf = config(2);
    let now = at(MONDAY, 21);
    for plan in [paper_on(MONDAY + 1), schedule(vec![])] {
        for trigger in [now - 1, now, at(MONDAY + 1, 18)] {
            let mut store = SharedTaskState::new(trigger);
            let sent = control_human_accomplishment(&mut store, &conf, &plan, when(now));
            assert!(sent.is_empty());
            assert_eq!(store.snapshot(), TaskSnapshot::idle(trigger));
        }
    }
}

#[test]
fn control_after_a_confirmation_shames_nobody() {
    let conf = config(2);
    let plan = paper_on(MONDAY + 1);
    let mut store = SharedTaskState::new(at(MONDAY, 18));
    tick(&mut store, &conf, &plan, when(at(MONDAY, 18)));
    assert!(done_handler(&mut store, when(at(MONDAY, 19))));
    let confirmed = store.snapshot();
    let sent = control_human_accomplishment(&mut store, &conf, &plan, when(at(MONDAY, 21)));
    assert!(sent.is_empty());
    assert_eq!(store.snapshot(), confirmed);
    assert_eq!(confirmed, TaskSnapshot::idle(at(MONDAY + 1, 18)));
}

fn count_shame(sent: &[Notification]) -> usize {
    sent.iter().filter(|n| matches!(n, Notification::Shame { .. })).count()
}

#[test]
fn refusal_before_the_escalating_round_gives_one_notice() {
    let conf = config(2);
    let now = at(MONDAY, 20);
    let plan = paper_on(MONDAY + 1);
    let mut store = store_at(TaskSnapshot::awaiting(now, 2));
    assert!(cant_handler(&mut store, when(now)));
    assert_eq!(store.snapshot().phase(), TaskState::Escalated);
    let sent = tick(&mut store, &conf, &plan, when(now + 1));
    assert_eq!(count_shame(&sent), 1);
    assert_eq!(store.snapshot(), TaskSnapshot::idle(at(MONDAY + 1, 18)));
    // Nothing more follows.
    assert!(tick(&mut store, &conf, &plan, when(now + 2)).is_empty());
}

#[test]
fn refusal_after_the_escalating_round_gives_one_notice() {
    let conf = config(2);
    let now = at(MONDAY, 20);
    let plan = paper_on(MONDAY + 1);
    let mut store = store_at(TaskSnapshot::awaiting(now, 2));
    let sent = tick(&mut store, &conf, &plan, when(now));
    assert_eq!(count_shame(&sent), 1);
    assert_eq!(store.snapshot(), TaskSnapshot::idle(at(MONDAY + 1, 18)));
    assert!(!cant_handler(&mut store, when(now + 1)));
    assert_eq!(store.snapshot(), TaskSnapshot::idle(at(MONDAY + 1, 18)));
    assert!(tick(&mut store, &conf, &plan, when(now + 2)).is_empty());
}

#[test]
fn a_failed_fetch_is_tried_again_and_changes_nothing() {
    let conf = config(2);
    let now = at(MONDAY, 18);
    for record in [
        TaskSnapshot::idle(now),
        TaskSnapshot::awaiting(now, 1),
        TaskSnapshot::escalated(now),
    ] {
        let mut store = store_at(record);
        let failure = GstaldergeistError::NetworkError(String::from("timed out"));
        let round = send_scheduled_messages(&mut store, &conf, Err(failure), when(now));
        assert_eq!(
            round,
            Round::Retry { seconds: 60, report: String::from("Network error: timed out") }
        );
        assert_eq!(store.snapshot(), record);
    }
}

#[test]
fn a_fetched_schedule_is_acted_on() {
    let conf = config(2);
    let now = at(MONDAY, 18);
    let mut store = SharedTaskState::new(now);
    let round = send_scheduled_messages(&mut store, &conf, Ok(paper_on(MONDAY + 1)), when(now));
    assert_eq!(
        round,
        Round::Done { notifications: vec![Notification::Prompt { member: 2, text: prompt_text() }] }
    );
    assert_eq!(store.snapshot(), TaskSnapshot::awaiting(now + 600, 0));
}

#[test]
fn a_reminder_after_midnight_asks_for_the_new_tomorrow() {
    let conf = config(3);
    let late = at(MONDAY, 23) + 3_000;
    let mut store = store_at(TaskSnapshot::awaiting(late, 0));
    // Ten minutes later it is Tuesday, and nothing is collected on Wednesday.
    let plan = paper_on(MONDAY + 1);
    let sent = tick(&mut store, &conf, &plan, when(late + 600));
    assert_eq!(
        sent,
        vec![Notification::Prompt {
            member: 2,
            text: String::from(
                "Hello Bob !\nDon't forget the  trashes out before tomorrow morning! Have a nice evening!",
            ),
        }]
    );
    assert_eq!(store.snapshot(), TaskSnapshot::awaiting(late + 1_200, 1));
}
