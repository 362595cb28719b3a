//! The scheduler: when it wakes, what it sends, and how it moves the task on.
//!
//! The caller runs the loop. It asks `next_wake` what to do, sleeps or
//! fetches the schedule accordingly, hands what it fetched to
//! `send_scheduled_messages` and delivers the notifications that come back.
//! Each call reads and changes the task record in one piece.

use crate::answer_handler::{after_acknowledgement, Acknowledgement};
use crate::calendar::{day_of, next_day_check, tomorrow_evening, weekday_of, Instant};
use crate::config::{Config, ConfigModel};
use crate::data_grabber::{ScheduleModel, TrashType, TrashesSchedule};
use crate::error::GstaldergeistError;
use crate::task_state::{SharedTaskState, TaskModel, TaskSnapshot, TaskState};
use crate::telegram_writer::{
    daily_text, daily_update, new_master_text, new_master_update, no_trashes_text,
    no_trashes_update, shame_text, shame_update, weekly_text, weekly_update,
};
use vstd::prelude::*;

verus! {

/// The longest sleep between two looks at the clock, in seconds.
pub const POLL_SECONDS: i64 = 60;

/// The pause after a failed fetch, in seconds.
pub const BACKOFF_SECONDS: i64 = 60;

/// Mathematical model of a notification.
pub enum NotificationModel {
    Broadcast { audience: i64, text: Seq<char> },
    WeekPlan { member: i64, text: Seq<char> },
    Prompt { member: i64, text: Seq<char> },
    NothingDue { member: i64, text: Seq<char> },
    Shame { audience: i64, text: Seq<char> },
}

/// Something to send.
#[derive(Debug, PartialEq, Eq)]
pub enum Notification {
    /// The household learns who is on duty from now on.
    Broadcast { audience: i64, text: String },
    /// The new member on duty learns what is collected in the week to come,
    /// and is asked whether new bags are needed.
    WeekPlan { member: i64, text: String },
    /// The member on duty is asked to act, and to confirm or decline.
    Prompt { member: i64, text: String },
    /// The member on duty learns that there is nothing to do.
    NothingDue { member: i64, text: String },
    /// The household learns that the duty was not done.
    Shame { audience: i64, text: String },
}

impl View for Notification {
    type V = NotificationModel;

    open spec fn view(&self) -> NotificationModel {
        match self {
            Notification::Broadcast { audience, text } => NotificationModel::Broadcast {
                audience: *audience,
                text: text@,
            },
            Notification::WeekPlan { member, text } => NotificationModel::WeekPlan {
                member: *member,
                text: text@,
            },
            Notification::Prompt { member, text } => NotificationModel::Prompt {
                member: *member,
                text: text@,
            },
            Notification::NothingDue { member, text } => NotificationModel::NothingDue {
                member: *member,
                text: text@,
            },
            Notification::Shame { audience, text } => NotificationModel::Shame {
                audience: *audience,
                text: text@,
            },
        }
    }
}

/// The models of the notifications, in their order.
pub open spec fn notification_models(sent: Seq<Notification>) -> Seq<NotificationModel> {
    sent.map_values(|n: Notification| n@)
}

/// What the caller of the scheduler does next.
#[derive(Clone, Copy, Debug, PartialEq, Eq, Structural)]
pub enum Wake {
    /// Nothing is due: sleep for so many seconds and ask again.
    Sleep { seconds: i64 },
    /// Fetch the collections after `from` up to `to`, for a round that
    /// opens a new rotation week if `weekly` holds.
    Fetch { from: i32, to: i32, weekly: bool },
}

/// Whether the duty passes to the next member on the day that holds `now`.
pub open spec fn is_weekly(config: ConfigModel, now: int) -> bool {
    weekday_of(day_of(now)) == config.rotation_day
}

/// The day after the one that holds `now`.
pub open spec fn tomorrow_of(now: int) -> i32 {
    (day_of(now) + 1) as i32
}

/// Before the trigger the caller sleeps, a minute at most. From the trigger
/// on it fetches: seven days ahead on the rotation day, else the next day.
pub open spec fn wake_at(state: TaskModel, config: ConfigModel, now: int) -> Wake {
    if now < state.next_trigger {
        Wake::Sleep {
            seconds: if state.next_trigger - now < 60 {
                (state.next_trigger - now) as i64
            } else {
                60
            },
        }
    } else if is_weekly(config, now) {
        Wake::Fetch { from: day_of(now) as i32, to: (day_of(now) + 7) as i32, weekly: true }
    } else {
        Wake::Fetch { from: day_of(now) as i32, to: (day_of(now) + 1) as i32, weekly: false }
    }
}

/// The task record after a round of the scheduler at `now`, where `due`
/// says whether something is collected the next day.
pub open spec fn tick_state(
    state: TaskModel,
    reminder_interval: nat,
    max_reminders: nat,
    now: int,
    due: bool,
) -> TaskModel {
    if now < state.next_trigger {
        state
    } else {
        match state.phase {
            TaskState::Idle => if due {
                TaskModel::awaiting(now + reminder_interval, 0)
            } else {
                TaskModel::idle(next_day_check(now))
            },
            TaskState::AwaitingAcknowledgement => if state.reminders_sent < max_reminders {
                TaskModel::awaiting(now + reminder_interval, state.reminders_sent + 1)
            } else {
                TaskModel::idle(next_day_check(now))
            },
            TaskState::Escalated => TaskModel::idle(next_day_check(now)),
        }
    }
}

/// The kinds that are collected on `day`: none where it is no collection day.
pub open spec fn kinds_due(schedule: ScheduleModel, day: i32) -> Seq<TrashType> {
    if schedule.dates.contains_key(day) {
        schedule.dates[day]
    } else {
        Seq::empty()
    }
}

/// The prompt to tomorrow's member for tomorrow's collection.
pub open spec fn prompt_for(schedule: ScheduleModel, now: int) -> NotificationModel {
    NotificationModel::Prompt {
        member: schedule.tomorrow_master_id,
        text: daily_text(schedule.tomorrow_master_name, kinds_due(schedule, tomorrow_of(now))),
    }
}

/// The notice to tomorrow's member that nothing is collected tomorrow.
pub open spec fn nothing_due_for(schedule: ScheduleModel) -> NotificationModel {
    NotificationModel::NothingDue {
        member: schedule.tomorrow_master_id,
        text: no_trashes_text(schedule.tomorrow_master_name),
    }
}

/// The notice to the household that tomorrow's collection is left undone.
pub open spec fn shame_for(
    config: ConfigModel,
    schedule: ScheduleModel,
    now: int,
) -> NotificationModel {
    NotificationModel::Shame {
        audience: config.global_channel_id,
        text: shame_text(schedule.tomorrow_master_name, kinds_due(schedule, tomorrow_of(now))),
    }
}

/// The notice to the household that names the member of the new week.
pub open spec fn broadcast_for(config: ConfigModel, schedule: ScheduleModel) -> NotificationModel {
    NotificationModel::Broadcast {
        audience: config.global_channel_id,
        text: new_master_text(schedule.tomorrow_master_name),
    }
}

/// The plan of the seven days after the one that holds `now`, for the
/// member who is on duty from tomorrow on.
pub open spec fn week_plan_for(schedule: ScheduleModel, now: int) -> NotificationModel {
    NotificationModel::WeekPlan {
        member: schedule.tomorrow_master_id,
        text: weekly_text(schedule, day_of(now) as i32),
    }
}

/// What the scheduler sends when it opens a cycle. On the rotation day the
/// broadcast comes first and the plan of the week second; then, on any day,
/// the prompt, or the notice that nothing is due.
pub open spec fn update_notifications(
    config: ConfigModel,
    schedule: ScheduleModel,
    weekly: bool,
    now: int,
) -> Seq<NotificationModel> {
    let first = if weekly {
        seq![broadcast_for(config, schedule), week_plan_for(schedule, now)]
    } else {
        Seq::empty()
    };
    if schedule.due_on(tomorrow_of(now)) {
        first.push(prompt_for(schedule, now))
    } else {
        first.push(nothing_due_for(schedule))
    }
}

/// What a round of the scheduler at `now` sends, in this order.
pub open spec fn tick_notifications(
    state: TaskModel,
    config: ConfigModel,
    schedule: ScheduleModel,
    now: int,
) -> Seq<NotificationModel> {
    if now < state.next_trigger {
        Seq::empty()
    } else {
        match state.phase {
            TaskState::Idle => update_notifications(
                config,
                schedule,
                is_weekly(config, now),
                now,
            ),
            TaskState::AwaitingAcknowledgement => if state.reminders_sent
                < config.max_reminders {
                seq![prompt_for(schedule, now)]
            } else {
                seq![shame_for(config, schedule, now)]
            },
            TaskState::Escalated => seq![shame_for(config, schedule, now)],
        }
    }
}

/// How many of `sent` are notices of shame.
pub open spec fn shame_count(sent: Seq<NotificationModel>) -> nat
    decreases sent.len(),
{
    if sent.len() == 0 {
        0
    } else if sent.last() is Shame {
        shame_count(sent.drop_last()) + 1
    } else {
        shame_count(sent.drop_last())
    }
}

/// The caller never spins: a sleep lasts a second at least and a minute at
/// most, and it ends at the trigger or before it.
pub proof fn lemma_sleep_is_bounded(state: TaskModel, config: ConfigModel, now: int)
    ensures
        wake_at(state, config, now) is Sleep <==> now < state.next_trigger,
        wake_at(state, config, now) matches Wake::Sleep { seconds } ==> 1 <= seconds <= 60 && now
            + seconds <= state.next_trigger,
{
}

/// A list of one notification holds one notice of shame if that one is a
/// notice of shame, and none otherwise.
pub proof fn lemma_shame_count_of_one(only: NotificationModel)
    ensures
        shame_count(seq![only]) == if only is Shame {
            1nat
        } else {
            0nat
        },
{
    assert(seq![only].drop_last() == Seq::<NotificationModel>::empty());
    assert(seq![only].last() == only);
    assert(shame_count(Seq::<NotificationModel>::empty()) == 0);
}

/// A round keeps the task record well formed; one that is due puts the
/// trigger after its own time, and one that is not leaves the record alone.
pub proof fn lemma_tick_keeps_record_sound(
    state: TaskModel,
    config: ConfigModel,
    now: int,
    due: bool,
)
    requires
        state.wf(),
        config.wf(),
    ensures
        tick_state(state, config.reminder_interval, config.max_reminders, now, due).wf(),
        now >= state.next_trigger ==> tick_state(
            state,
            config.reminder_interval,
            config.max_reminders,
            now,
            due,
        ).next_trigger > now,
        now < state.next_trigger ==> tick_state(
            state,
            config.reminder_interval,
            config.max_reminders,
            now,
            due,
        ) == state,
{
}

/// While an answer is awaited the count of reminders never passes the
/// allowed number: it stays within it from one round to the next.
pub proof fn lemma_reminders_stay_within_limit(
    state: TaskModel,
    config: ConfigModel,
    now: int,
    due: bool,
)
    requires
        state.wf(),
        state.reminders_sent <= config.max_reminders,
    ensures
        tick_state(
            state,
            config.reminder_interval,
            config.max_reminders,
            now,
            due,
        ).reminders_sent <= config.max_reminders,
{
}

/// With one reminder left, a round that is due asks once more: the last
/// reminder is used up, the next round is due after the reminder interval,
/// and nobody is shamed.
pub proof fn lemma_last_reminder_does_not_escalate(
    state: TaskModel,
    config: ConfigModel,
    schedule: ScheduleModel,
    now: int,
)
    requires
        config.wf(),
        state.phase == TaskState::AwaitingAcknowledgement,
        state.reminders_sent == config.max_reminders - 1,
        now >= state.next_trigger,
    ensures
        tick_state(
            state,
            config.reminder_interval,
            config.max_reminders,
            now,
            schedule.due_on(tomorrow_of(now)),
        ) == TaskModel::awaiting(now + config.reminder_interval, config.max_reminders),
        tick_notifications(state, config, schedule, now) == seq![prompt_for(schedule, now)],
        shame_count(tick_notifications(state, config, schedule, now)) == 0,
{
    lemma_shame_count_of_one(prompt_for(schedule, now));
}

/// Once the reminders are used up, the round that is due ends the cycle: the
/// task is idle until tomorrow's check hour, and the household is told
/// exactly once.
pub proof fn lemma_exhausted_reminders_escalate(
    state: TaskModel,
    config: ConfigModel,
    schedule: ScheduleModel,
    now: int,
)
    requires
        state.phase == TaskState::AwaitingAcknowledgement,
        state.reminders_sent >= config.max_reminders,
        now >= state.next_trigger,
    ensures
        tick_state(
            state,
            config.reminder_interval,
            config.max_reminders,
            now,
            schedule.due_on(tomorrow_of(now)),
        ) == TaskModel::idle(next_day_check(now)),
        tick_notifications(state, config, schedule, now) == seq![
            shame_for(config, schedule, now),
        ],
        shame_count(tick_notifications(state, config, schedule, now)) == 1,
{
    lemma_shame_count_of_one(shame_for(config, schedule, now));
}

/// A refusal and the escalation by the scheduler meet on the same awaited
/// answer, with the reminders used up. Whichever of the two comes first
/// ends the cycle, and the other finds nothing left to end. If the refusal
/// is first, it is committed and the round that follows only delivers the
/// notice. If the round is first, it escalates by itself and the refusal
/// changes nothing. Either way the household is told exactly once and the
/// task ends up idle.
pub proof fn lemma_refusal_races_escalation(
    state: TaskModel,
    config: ConfigModel,
    schedule: ScheduleModel,
    first: int,
    second: int,
)
    requires
        state.phase == TaskState::AwaitingAcknowledgement,
        state.reminders_sent >= config.max_reminders,
        state.next_trigger <= first <= second,
    ensures
        ({
            let refused = after_acknowledgement(state, Acknowledgement::Decline, first);
            let sent = tick_notifications(refused, config, schedule, second);
            let end = tick_state(
                refused,
                config.reminder_interval,
                config.max_reminders,
                second,
                schedule.due_on(tomorrow_of(second)),
            );
            &&& refused == TaskModel::escalated(first)
            &&& shame_count(sent) == 1
            &&& end == TaskModel::idle(next_day_check(second))
        }),
        ({
            let sent = tick_notifications(state, config, schedule, first);
            let ticked = tick_state(
                state,
                config.reminder_interval,
                config.max_reminders,
                first,
                schedule.due_on(tomorrow_of(first)),
            );
            let end = after_acknowledgement(ticked, Acknowledgement::Decline, second);
            &&& ticked == TaskModel::idle(next_day_check(first))
            &&& shame_count(sent) == 1
            &&& end == ticked
        }),
{
    lemma_shame_count_of_one(shame_for(config, schedule, first));
    lemma_shame_count_of_one(shame_for(config, schedule, second));
}

/// Once an awaited answer is a confirmation, the scheduler keeps quiet
/// until the check hour of the next day: its rounds send nothing, shame
/// least of all, and leave the task idle.
pub proof fn lemma_confirmed_task_is_left_alone(
    state: TaskModel,
    config: ConfigModel,
    schedule: ScheduleModel,
    confirmed: int,
    later: int,
)
    requires
        state.phase == TaskState::AwaitingAcknowledgement,
        later < next_day_check(confirmed),
    ensures
        ({
            let idle = after_acknowledgement(state, Acknowledgement::Confirm, confirmed);
            &&& idle == TaskModel::idle(next_day_check(confirmed))
            &&& tick_notifications(idle, config, schedule, later) == Seq::<
                NotificationModel,
            >::empty()
            &&& tick_state(
                idle,
                config.reminder_interval,
                config.max_reminders,
                later,
                schedule.due_on(tomorrow_of(later)),
            ) == idle
        }),
{
}

/// A duty that was confirmed is never shamed: after the confirmation of an
/// awaited answer the look whether the duty was done sends nothing and
/// changes nothing, whenever it comes.
pub proof fn lemma_done_duty_is_not_shamed(
    state: TaskModel,
    config: ConfigModel,
    schedule: ScheduleModel,
    confirmed: int,
    later: int,
)
    requires
        state.phase == TaskState::AwaitingAcknowledgement,
    ensures
        ({
            let idle = after_acknowledgement(state, Acknowledgement::Confirm, confirmed);
            &&& control_state(idle, later) == idle
            &&& control_notifications(idle, config, schedule, later) == Seq::<
                NotificationModel,
            >::empty()
        }),
{
}

/// Says what the caller does at `now`: sleep until the trigger, a minute at
/// a time, or fetch the schedule for the round that is due.
pub fn next_wake(store: &SharedTaskState, config: &Config, now: Instant) -> (wake: Wake)
    ensures
        wake == wake_at(store@, config@, now@),
{
    let seen = store.snapshot();
    if now.seconds() < seen.next_trigger() {
        let wait = seen.next_trigger() - now.seconds();
        if wait < POLL_SECONDS {
            Wake::Sleep { seconds: wait }
        } else {
            Wake::Sleep { seconds: POLL_SECONDS }
        }
    } else {
        let today = now.day();
        if today.weekday() == config.rotation_day() {
            Wake::Fetch { from: today.number(), to: today.number() + 7, weekly: true }
        } else {
            Wake::Fetch { from: today.number(), to: today.number() + 1, weekly: false }
        }
    }
}

/// The kinds collected on `day`, copied out of the schedule.
fn kinds_on_day(schedule: &TrashesSchedule, day: i32) -> (kinds: Vec<TrashType>)
    ensures
        kinds@ == kinds_due(schedule@, day),
{
    match schedule.trashes_on(day) {
        Some(found) => found.clone(),
        None => Vec::new(),
    }
}

/// The prompt to tomorrow's member for tomorrow's collection.
fn prompt(schedule: &TrashesSchedule, now: Instant) -> (made: Notification)
    ensures
        made@ == prompt_for(schedule@, now@),
{
    let kinds = kinds_on_day(schedule, now.tomorrow().number());
    Notification::Prompt {
        member: schedule.tomorrow_master_id(),
        text: daily_update(schedule.tomorrow_master_name(), &kinds),
    }
}

/// Opens a cycle, whatever the task record holds; the scheduler does so
/// when a round is due and the task is idle. On the rotation day, which
/// `weekly` stands for, the household first learns who is on duty, and the
/// new member gets the plan of the week. Then tomorrow's member is prompted
/// and the task awaits the answer, with no reminder sent yet and the first
/// one due after the reminder interval; or, where nothing is collected
/// tomorrow, the member is told so and the task is idle until tomorrow's
/// check hour.
pub fn send_update(
    store: &mut SharedTaskState,
    config: &Config,
    schedule: &TrashesSchedule,
    weekly: bool,
    now: Instant,
) -> (sent: Vec<Notification>)
    ensures
        final(store)@ == if schedule@.due_on(tomorrow_of(now@)) {
            TaskModel::awaiting(now@ + config@.reminder_interval, 0)
        } else {
            TaskModel::idle(next_day_check(now@))
        },
        notification_models(sent@) == update_notifications(
            config@,
            schedule@,
            weekly,
            now@,
        ),
{
    let mut sent: Vec<Notification> = Vec::new();
    if weekly {
        sent.push(
            Notification::Broadcast {
                audience: config.global_channel_id(),
                text: new_master_update(schedule.tomorrow_master_name()),
            },
        );
        sent.push(
            Notification::WeekPlan {
                member: schedule.tomorrow_master_id(),
                text: weekly_update(schedule, now),
            },
        );
    }
    let tomorrow = now.tomorrow().number();
    let due = schedule.trashes_on(tomorrow).is_some();
    if due {
        sent.push(prompt(schedule, now));
        let next = TaskSnapshot::awaiting(now.seconds() + config.reminder_interval() as i64, 0);
        store.replace(next);
    } else {
        sent.push(
            Notification::NothingDue {
                member: schedule.tomorrow_master_id(),
                text: no_trashes_update(schedule.tomorrow_master_name()),
            },
        );
        let next = TaskSnapshot::idle(tomorrow_evening(now));
        store.replace(next);
    }
    proof {
        assert(notification_models(sent@) =~= update_notifications(
            config@,
            schedule@,
            weekly,
            now@,
        ));
    }
    sent
}

/// Sends the prompt once more and counts it: the next reminder, or the
/// escalation, is due after the reminder interval.
fn send_order_to_human(
    store: &mut SharedTaskState,
    config: &Config,
    schedule: &TrashesSchedule,
    now: Instant,
) -> (sent: Vec<Notification>)
    requires
        old(store)@.phase == TaskState::AwaitingAcknowledgement,
        old(store)@.reminders_sent < config@.max_reminders,
    ensures
        final(store)@ == TaskModel::awaiting(
            now@ + config@.reminder_interval,
            old(store)@.reminders_sent + 1,
        ),
        notification_models(sent@) == seq![prompt_for(schedule@, now@)],
{
    let seen = store.snapshot();
    let limit = config.max_reminders();
    let mut sent: Vec<Notification> = Vec::new();
    sent.push(prompt(schedule, now));
    let next = TaskSnapshot::awaiting(
        now.seconds() + config.reminder_interval() as i64,
        seen.reminders_sent() + 1,
    );
    store.replace(next);
    proof {
        assert(notification_models(sent@) =~= seq![prompt_for(schedule@, now@)]);
    }
    sent
}

/// The task record after the scheduler has looked whether the duty was
/// done: an idle task is left as it is, any other is idle until tomorrow's
/// check hour.
pub open spec fn control_state(state: TaskModel, now: int) -> TaskModel {
    if state.phase == TaskState::Idle {
        state
    } else {
        TaskModel::idle(next_day_check(now))
    }
}

/// What the scheduler sends after it has looked whether the duty was done:
/// nothing for an idle task, one notice of shame for any other.
pub open spec fn control_notifications(
    state: TaskModel,
    config: ConfigModel,
    schedule: ScheduleModel,
    now: int,
) -> Seq<NotificationModel> {
    if state.phase == TaskState::Idle {
        Seq::empty()
    } else {
        seq![shame_for(config, schedule, now)]
    }
}

/// Ends the cycle of a duty that was not done. While an answer is awaited,
/// or after a refusal, the household is told once and the task is idle
/// until tomorrow's check hour; the same member is not asked again. On an
/// idle task, whose duty is done or was never asked for, nothing is sent
/// and nothing changes.
pub fn control_human_accomplishment(
    store: &mut SharedTaskState,
    config: &Config,
    schedule: &TrashesSchedule,
    now: Instant,
) -> (sent: Vec<Notification>)
    ensures
        final(store)@ == control_state(old(store)@, now@),
        notification_models(sent@) == control_notifications(
            old(store)@,
            config@,
            schedule@,
            now@,
        ),
        final(store)@.wf(),
{
    let mut sent: Vec<Notification> = Vec::new();
    let seen = store.snapshot();
    match seen.phase() {
        TaskState::Idle => {
            proof {
                assert(notification_models(sent@) =~= Seq::<NotificationModel>::empty());
            }
        },
        _ => {
            let kinds = kinds_on_day(schedule, now.tomorrow().number());
            sent.push(
                Notification::Shame {
                    audience: config.global_channel_id(),
                    text: shame_update(schedule.tomorrow_master_name(), &kinds),
                },
            );
            let next = TaskSnapshot::idle(tomorrow_evening(now));
            store.replace(next);
            proof {
                assert(notification_models(sent@) =~= seq![shame_for(config@, schedule@, now@)]);
            }
        },
    }
    sent
}

/// One round of the scheduler at `now`, with the schedule that was fetched
/// for it. Before the trigger nothing happens. From the trigger on: an idle
/// task is prompted for; an awaited answer is asked for again until the
/// reminders are used up; after that, or after a refusal, the household is
/// told and the cycle ends.
pub fn tick(
    store: &mut SharedTaskState,
    config: &Config,
    schedule: &TrashesSchedule,
    now: Instant,
) -> (sent: Vec<Notification>)
    ensures
        final(store)@ == tick_state(
            old(store)@,
            config@.reminder_interval,
            config@.max_reminders,
            now@,
            schedule@.due_on(tomorrow_of(now@)),
        ),
        notification_models(sent@) == tick_notifications(
            old(store)@,
            config@,
            schedule@,
            now@,
        ),
        final(store)@.wf(),
{
    let seen = store.snapshot();
    if now.seconds() < seen.next_trigger() {
        let sent: Vec<Notification> = Vec::new();
        proof {
            assert(notification_models(sent@) =~= Seq::<NotificationModel>::empty());
        }
        return sent;
    }
    match seen.phase() {
        TaskState::Idle => {
            let weekly = now.day().weekday() == config.rotation_day();
            send_update(store, config, schedule, weekly, now)
        },
        TaskState::AwaitingAcknowledgement => {
            if seen.reminders_sent() < config.max_reminders() {
                send_order_to_human(store, config, schedule, now)
            } else {
                control_human_accomplishment(store, config, schedule, now)
            }
        },
        TaskState::Escalated => control_human_accomplishment(store, config, schedule, now),
    }
}

/// How a round of the scheduler ended.
#[derive(Debug, PartialEq, Eq)]
pub enum Round {
    /// The round is over; these are to be delivered, in this order.
    Done { notifications: Vec<Notification> },
    /// The schedule could not be fetched: nothing was sent and nothing
    /// changed; the round is tried again after so many seconds.
    Retry { seconds: i64, report: String },
}

/// One iteration of the scheduler's loop, with what the fetch gave. A failed
/// fetch leaves the task record untouched, trigger included, and asks for
/// another try after the pause; a fetched schedule is acted on as `tick`
/// says.
pub fn send_scheduled_messages(
    store: &mut SharedTaskState,
    config: &Config,
    fetched: Result<TrashesSchedule, GstaldergeistError>,
    now: Instant,
) -> (round: Round)
    ensures
        match fetched {
            Ok(schedule) => {
                &&& final(store)@ == tick_state(
                    old(store)@,
                    config@.reminder_interval,
                    config@.max_reminders,
                    now@,
                    schedule@.due_on(tomorrow_of(now@)),
                )
                &&& round matches Round::Done { notifications }
                &&& notification_models(notifications@) == tick_notifications(
                    old(store)@,
                    config@,
                    schedule@,
                    now@,
                )
            },
            Err(error) => {
                &&& final(store)@ == old(store)@
                &&& round matches Round::Retry { seconds, report }
                &&& seconds == BACKOFF_SECONDS
                &&& report@ == error.spec_prefix() + error.spec_detail()
            },
        },
{
    match fetched {
        Ok(schedule) => Round::Done { notifications: tick(store, config, &schedule, now) },
        Err(error) => Round::Retry { seconds: BACKOFF_SECONDS, report: error.message() },
    }
}

} // verus!
