//! Answers of the household: the buttons under a message, and plain words.

use crate::calendar::{next_day_check, tomorrow_evening, Instant};
use crate::task_state::{SharedTaskState, TaskModel, TaskSnapshot, TaskState};
use crate::text::same_text;
use vstd::prelude::*;
use vstd::string::*;

verus! {

/// What the member on duty answers to a prompt.
#[derive(Clone, Copy, Debug, PartialEq, Eq, Structural)]
pub enum Acknowledgement {
    /// The duty is done.
    Confirm,
    /// The member cannot do it.
    Decline,
}

/// The task record after an answer that arrives at `now`. Only an awaited
/// answer counts: a confirmation ends the cycle until tomorrow's check hour;
/// a refusal escalates, and the scheduler is due at once. Any other answer
/// comes too late and changes nothing.
pub open spec fn after_acknowledgement(
    state: TaskModel,
    tag: Acknowledgement,
    now: int,
) -> TaskModel {
    if state.phase == TaskState::AwaitingAcknowledgement {
        match tag {
            Acknowledgement::Confirm => TaskModel::idle(next_day_check(now)),
            Acknowledgement::Decline => TaskModel::escalated(now),
        }
    } else {
        state
    }
}

/// The member on duty confirms at `now`. Tells whether that changed the
/// task; it does so exactly when an answer was awaited.
pub fn done_handler(store: &mut SharedTaskState, now: Instant) -> (acknowledged: bool)
    ensures
        acknowledged <==> old(store)@.phase == TaskState::AwaitingAcknowledgement,
        final(store)@ == after_acknowledgement(
            old(store)@,
            Acknowledgement::Confirm,
            now@,
        ),
        final(store)@.wf(),
{
    let next = TaskSnapshot::idle(tomorrow_evening(now));
    store.replace_if(TaskState::AwaitingAcknowledgement, next)
}

/// The member on duty declines at `now`. Tells whether that changed the
/// task; it does so exactly when an answer was awaited.
pub fn cant_handler(store: &mut SharedTaskState, now: Instant) -> (acknowledged: bool)
    ensures
        acknowledged <==> old(store)@.phase == TaskState::AwaitingAcknowledgement,
        final(store)@ == after_acknowledgement(
            old(store)@,
            Acknowledgement::Decline,
            now@,
        ),
        final(store)@.wf(),
{
    let next = TaskSnapshot::escalated(now.seconds());
    store.replace_if(TaskState::AwaitingAcknowledgement, next)
}

/// An answer to the prompt arrives at `now`. Tells whether it changed the
/// task.
pub fn on_acknowledgement(store: &mut SharedTaskState, tag: Acknowledgement, now: Instant) -> (
    acknowledged: bool
)
    ensures
        acknowledged <==> old(store)@.phase == TaskState::AwaitingAcknowledgement,
        final(store)@ == after_acknowledgement(old(store)@, tag, now@),
        final(store)@.wf(),
{
    match tag {
        Acknowledgement::Confirm => done_handler(store, now),
        Acknowledgement::Decline => cant_handler(store, now),
    }
}

/// What a button under a message stands for.
#[derive(Clone, Copy, Debug, PartialEq, Eq, Structural)]
pub enum CallbackAction {
    /// The member on duty confirms.
    Done,
    /// The member on duty declines.
    Cant,
    /// The member thinks of asking for new bags.
    NewBags,
    /// The member does ask for new bags.
    SureBags,
    /// There are bags enough.
    EnoughBags,
    /// Anything else.
    Unrecognized,
}

impl CallbackAction {
    /// The button that carries `data`.
    pub open spec fn of(data: Seq<char>) -> CallbackAction {
        if data == "done"@ {
            CallbackAction::Done
        } else if data == "cant"@ {
            CallbackAction::Cant
        } else if data == "new_bags"@ {
            CallbackAction::NewBags
        } else if data == "sure_bags"@ {
            CallbackAction::SureBags
        } else if data == "enough_bags"@ {
            CallbackAction::EnoughBags
        } else {
            CallbackAction::Unrecognized
        }
    }

    /// What a button carries; a button that stands for nothing known
    /// carries nothing.
    pub open spec fn spec_tag(self) -> Seq<char> {
        match self {
            CallbackAction::Done => "done"@,
            CallbackAction::Cant => "cant"@,
            CallbackAction::NewBags => "new_bags"@,
            CallbackAction::SureBags => "sure_bags"@,
            CallbackAction::EnoughBags => "enough_bags"@,
            CallbackAction::Unrecognized => ""@,
        }
    }

    /// What is written in place of the message once the button is pressed,
    /// or, for an unknown button, sent as a new message.
    pub open spec fn spec_reply(self) -> Seq<char> {
        match self {
            CallbackAction::Done => "Thank you! Have a nice evening. <3"@,
            CallbackAction::Cant => "No problem. I will ask the others to help."@,
            CallbackAction::NewBags => "Are you sure ? A request will be sent to We-Recycle."@,
            CallbackAction::SureBags => "Thank you! I sent a request to We-Recycle."@,
            CallbackAction::EnoughBags => "Great! Have a nice evening."@,
            CallbackAction::Unrecognized => "Unrecognized option."@,
        }
    }

    /// The task record after the button is pressed at `now`.
    pub open spec fn spec_effect(self, state: TaskModel, now: int) -> TaskModel {
        match self {
            CallbackAction::Done => after_acknowledgement(state, Acknowledgement::Confirm, now),
            CallbackAction::Cant => after_acknowledgement(state, Acknowledgement::Decline, now),
            _ => state,
        }
    }

    /// Reads what a button carries.
    pub fn parse(data: &str) -> (action: CallbackAction)
        ensures
            action == CallbackAction::of(data@),
    {
        if same_text(data, "done") {
            CallbackAction::Done
        } else if same_text(data, "cant") {
            CallbackAction::Cant
        } else if same_text(data, "new_bags") {
            CallbackAction::NewBags
        } else if same_text(data, "sure_bags") {
            CallbackAction::SureBags
        } else if same_text(data, "enough_bags") {
            CallbackAction::EnoughBags
        } else {
            CallbackAction::Unrecognized
        }
    }

    /// What the button carries.
    pub fn tag(&self) -> (data: &'static str)
        ensures
            data@ == self.spec_tag(),
    {
        match self {
            CallbackAction::Done => "done",
            CallbackAction::Cant => "cant",
            CallbackAction::NewBags => "new_bags",
            CallbackAction::SureBags => "sure_bags",
            CallbackAction::EnoughBags => "enough_bags",
            CallbackAction::Unrecognized => "",
        }
    }

    /// The words that answer the button.
    pub fn reply(&self) -> (text: &'static str)
        ensures
            text@ == self.spec_reply(),
    {
        match self {
            CallbackAction::Done => "Thank you! Have a nice evening. <3",
            CallbackAction::Cant => "No problem. I will ask the others to help.",
            CallbackAction::NewBags => "Are you sure ? A request will be sent to We-Recycle.",
            CallbackAction::SureBags => "Thank you! I sent a request to We-Recycle.",
            CallbackAction::EnoughBags => "Great! Have a nice evening.",
            CallbackAction::Unrecognized => "Unrecognized option.",
        }
    }

    /// Every button is read back from what it carries.
    pub proof fn lemma_tag_round_trip(action: CallbackAction)
        ensures
            CallbackAction::of(action.spec_tag()) == action,
    {
        reveal_strlit("done");
        reveal_strlit("cant");
        reveal_strlit("new_bags");
        reveal_strlit("sure_bags");
        reveal_strlit("enough_bags");
        reveal_strlit("");
        assert("done"@.len() == 4 && "cant"@.len() == 4 && "new_bags"@.len() == 8);
        assert("sure_bags"@.len() == 9 && "enough_bags"@.len() == 11 && ""@.len() == 0);
        assert("done"@[0] == 'd' && "cant"@[0] == 'c');
    }
}

/// What came of a pressed button.
#[derive(Debug, PartialEq, Eq)]
pub struct CallbackOutcome {
    /// What the button stood for.
    pub action: CallbackAction,
    /// The words that answer it.
    pub reply: String,
    /// Whether the task changed.
    pub acknowledged: bool,
}

/// A button is pressed at `now`. The buttons of the prompt act on the task
/// as answers do; the others leave it alone. Every button is answered.
pub fn handle_callback_query(store: &mut SharedTaskState, data: &str, now: Instant) -> (outcome:
    CallbackOutcome)
    ensures
        outcome.action == CallbackAction::of(data@),
        outcome.reply@ == outcome.action.spec_reply(),
        final(store)@ == outcome.action.spec_effect(old(store)@, now@),
        outcome.acknowledged <==> (outcome.action is Done || outcome.action is Cant) && old(
            store,
        )@.phase == TaskState::AwaitingAcknowledgement,
        final(store)@.wf(),
{
    let action = CallbackAction::parse(data);
    let acknowledged = match action {
        CallbackAction::Done => done_handler(store, now),
        CallbackAction::Cant => cant_handler(store, now),
        _ => {
            let _ = store.snapshot();
            false
        },
    };
    CallbackOutcome { action, reply: String::from_str(action.reply()), acknowledged }
}

/// The answer to a plain message: `pong!` to `ping`, none to anything else.
pub fn handle_message(text: &str) -> (reply: Option<String>)
    ensures
        match reply {
            Some(words) => text@ == "ping"@ && words@ == "pong!"@,
            None => text@ != "ping"@,
        },
{
    if same_text(text, "ping") {
        Some(String::from_str("pong!"))
    } else {
        None
    }
}

/// An answer that is not awaited leaves the task as it is: the phase, the
/// count of reminders and the trigger.
pub proof fn lemma_stale_answer_changes_nothing(state: TaskModel, tag: Acknowledgement, now: int)
    requires
        state.phase != TaskState::AwaitingAcknowledgement,
    ensures
        after_acknowledgement(state, tag, now) == state,
{
}

/// An answer never leaves the task awaiting, and never leaves a count of
/// reminders behind; one that counts puts the trigger at its own time or
/// after it.
pub proof fn lemma_answer_ends_waiting(state: TaskModel, tag: Acknowledgement, now: int)
    requires
        state.wf(),
    ensures
        after_acknowledgement(state, tag, now).wf(),
        after_acknowledgement(state, tag, now).phase != TaskState::AwaitingAcknowledgement,
        after_acknowledgement(state, tag, now).reminders_sent == 0,
        state.phase == TaskState::AwaitingAcknowledgement ==> after_acknowledgement(
            state,
            tag,
            now,
        ).next_trigger >= now,
{
}

} // verus!
