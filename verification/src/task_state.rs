//! The shared record of where the current duty cycle stands.

use vstd::prelude::*;

verus! {

/// Phase of the duty cycle.
#[derive(Clone, Copy, Debug, PartialEq, Eq, Structural)]
pub enum TaskState {
    /// No duty is outstanding; the next action is the next scheduled prompt.
    Idle,
    /// A prompt was sent and the responsible member has not answered yet.
    AwaitingAcknowledgement,
    /// The member declined or ran out of reminders; a public notice is owed.
    Escalated,
}

/// Mathematical model of the task record.
pub struct TaskModel {
    pub phase: TaskState,
    pub next_trigger: int,
    pub reminders_sent: nat,
}

impl TaskModel {
    /// Reminders are counted only while an acknowledgement is awaited.
    pub open spec fn wf(self) -> bool {
        self.phase != TaskState::AwaitingAcknowledgement ==> self.reminders_sent == 0
    }

    /// A record with nothing outstanding.
    pub open spec fn idle(next_trigger: int) -> TaskModel {
        TaskModel { phase: TaskState::Idle, next_trigger, reminders_sent: 0 }
    }

    /// A record that waits for an answer, after `reminders_sent` reminders.
    pub open spec fn awaiting(next_trigger: int, reminders_sent: nat) -> TaskModel {
        TaskModel { phase: TaskState::AwaitingAcknowledgement, next_trigger, reminders_sent }
    }

    /// A record that owes a public notice.
    pub open spec fn escalated(next_trigger: int) -> TaskModel {
        TaskModel { phase: TaskState::Escalated, next_trigger, reminders_sent: 0 }
    }
}

/// One consistent copy of the task record.
#[derive(Clone, Copy, Debug, PartialEq, Eq)]
pub struct TaskSnapshot {
    phase: TaskState,
    next_trigger: i64,
    reminders_sent: u32,
}

impl View for TaskSnapshot {
    type V = TaskModel;

    closed spec fn view(&self) -> TaskModel {
        TaskModel {
            phase: self.phase,
            next_trigger: self.next_trigger as int,
            reminders_sent: self.reminders_sent as nat,
        }
    }
}

impl TaskSnapshot {
    #[verifier::type_invariant]
    spec fn inv(self) -> bool {
        self@.wf()
    }

    /// A record with nothing outstanding.
    pub fn idle(next_trigger: i64) -> (s: TaskSnapshot)
        ensures
            s@ == TaskModel::idle(next_trigger as int),
    {
        TaskSnapshot { phase: TaskState::Idle, next_trigger, reminders_sent: 0 }
    }

    /// A record that waits for an answer, after `reminders_sent` reminders.
    pub fn awaiting(next_trigger: i64, reminders_sent: u32) -> (s: TaskSnapshot)
        ensures
            s@ == TaskModel::awaiting(next_trigger as int, reminders_sent as nat),
    {
        TaskSnapshot { phase: TaskState::AwaitingAcknowledgement, next_trigger, reminders_sent }
    }

    /// A record that owes a public notice.
    pub fn escalated(next_trigger: i64) -> (s: TaskSnapshot)
        ensures
            s@ == TaskModel::escalated(next_trigger as int),
    {
        TaskSnapshot { phase: TaskState::Escalated, next_trigger, reminders_sent: 0 }
    }

    /// Where the duty cycle stands.
    pub fn phase(&self) -> (p: TaskState)
        ensures
            p == self@.phase,
    {
        self.phase
    }

    /// The earliest instant at which the scheduler acts again.
    pub fn next_trigger(&self) -> (t: i64)
        ensures
            t == self@.next_trigger,
    {
        self.next_trigger
    }

    /// Reminders sent since the prompt; 0 unless an answer is awaited.
    pub fn reminders_sent(&self) -> (n: u32)
        ensures
            n == self@.reminders_sent,
            self@.wf(),
    {
        proof {
            use_type_invariant(self);
        }
        self.reminders_sent
    }
}

/// The single task record of the process, changed only by whole transitions.
pub struct SharedTaskState {
    current: TaskSnapshot,
}

impl View for SharedTaskState {
    type V = TaskModel;

    open spec fn view(&self) -> TaskModel {
        self.current()@
    }
}

impl SharedTaskState {
    /// The stored record itself, as mutators see it.
    pub closed spec fn current(&self) -> TaskSnapshot {
        self.current
    }

    /// A store in the idle phase that acts at `next_trigger`.
    pub fn new(next_trigger: i64) -> (store: SharedTaskState)
        ensures
            store@ == TaskModel::idle(next_trigger as int),
    {
        SharedTaskState { current: TaskSnapshot::idle(next_trigger) }
    }

    /// A copy of the stored record.
    pub fn snapshot(&self) -> (copy: TaskSnapshot)
        ensures
            copy == self.current(),
            copy@ == self@,
            self@.wf(),
    {
        proof {
            use_type_invariant(&self.current);
        }
        self.current
    }

    /// Applies `mutator` and commits its result if and only if the stored
    /// phase still equals `expected`.
    pub fn transition<F: FnOnce(TaskSnapshot) -> TaskSnapshot>(
        &mut self,
        expected: TaskState,
        mutator: F,
    ) -> (committed: bool)
        requires
            old(self)@.phase == expected ==> call_requires(mutator, (old(self).current(),)),
        ensures
            committed <==> old(self)@.phase == expected,
            committed ==> call_ensures(mutator, (old(self).current(),), final(self).current()),
            !committed ==> final(self).current() == old(self).current(),
            !committed ==> final(self)@ == old(self)@,
            final(self)@.wf(),
    {
        if self.current.phase() == expected {
            let next = mutator(self.current);
            proof {
                use_type_invariant(&next);
            }
            self.current = next;
            true
        } else {
            proof {
                use_type_invariant(&self.current);
            }
            false
        }
    }

    /// Commits `next` if and only if the stored phase still equals
    /// `expected`.
    pub(crate) fn replace_if(&mut self, expected: TaskState, next: TaskSnapshot) -> (committed:
        bool)
        ensures
            committed <==> old(self)@.phase == expected,
            final(self)@ == if committed {
                next@
            } else {
                old(self)@
            },
            final(self)@.wf(),
    {
        let mutator = |_was: TaskSnapshot| -> (out: TaskSnapshot)
            ensures
                out == next,
            {
                let out = next;
                out
            };
        self.transition(expected, mutator)
    }

    /// Commits `next` whatever the stored phase is.
    pub(crate) fn replace(&mut self, next: TaskSnapshot)
        ensures
            final(self)@ == next@,
            final(self)@.wf(),
    {
        let mutator = |_was: TaskSnapshot| -> (out: TaskSnapshot)
            ensures
                out == next,
            {
                let out = next;
                out
            };
        self.force_transition(mutator)
    }

    /// Applies `mutator` and commits its result whatever the stored phase is.
    pub fn force_transition<F: FnOnce(TaskSnapshot) -> TaskSnapshot>(&mut self, mutator: F)
        requires
            call_requires(mutator, (old(self).current(),)),
        ensures
            call_ensures(mutator, (old(self).current(),), final(self).current()),
            final(self)@.wf(),
    {
        let next = mutator(self.current);
        proof {
            use_type_invariant(&next);
        }
        self.current = next;
    }
}

} // verus!
