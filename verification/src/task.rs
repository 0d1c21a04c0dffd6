//! The stage of a task (running, completed, result taken) and how its result
//! is handed to the one who joins it.

use vstd::prelude::*;

use crate::errors::CommonErrors;

verus! {

/// The stage a task is in.
pub enum TaskStage<T, R> {
    /// The result was taken; nothing is left.
    Extracted,
    /// The task still runs the held work.
    InProgress(T),
    /// The task finished with the held result.
    Completed(R),
}

/// How polling a task ended.
#[derive(Clone, Copy, Debug, PartialEq, Eq, Structural)]
pub enum TaskPollResult {
    /// The task does not need to be polled again by this poll's caller.
    Done,
    /// The task was woken while it ran and has to be polled again.
    Notified,
}

impl<T, R> TaskStage<T, R> {
    /// Hands out the result of the task, given whether the task was canceled
    /// and whether it completed: `OperationAborted` for a canceled task,
    /// `NoData` while it has not completed, the result the first time after
    /// completion (the stage becomes `Extracted`), `AlreadyDone` afterwards.
    pub fn take_result(&mut self, canceled: bool, completed: bool) -> (r: Result<R, CommonErrors>)
        ensures
            canceled ==> r == Err::<R, CommonErrors>(CommonErrors::OperationAborted) && *final(self) == *old(self),
            !canceled && !completed ==> r == Err::<R, CommonErrors>(CommonErrors::NoData) && *final(self) == *old(self),
            !canceled && completed ==> (*final(self), r) == take_outcome(*old(self)),
    {
        if canceled {
            return Err(CommonErrors::OperationAborted);
        }
        if !completed {
            return Err(CommonErrors::NoData);
        }
        let mut prev = TaskStage::Extracted;
        std::mem::swap(&mut prev, self);
        match prev {
            TaskStage::Completed(v) => Ok(v),
            _ => Err(CommonErrors::AlreadyDone),
        }
    }

    /// Drops whatever the stage holds.
    pub fn clear(&mut self)
        ensures
            *final(self) is Extracted,
    {
        *self = TaskStage::Extracted;
    }

    /// Stores the result of finished work.
    pub fn complete(&mut self, result: R)
        ensures
            *final(self) == TaskStage::<T, R>::Completed(result),
    {
        *self = TaskStage::Completed(result);
    }
}

/// What the task's state did when a poll ended with the work still pending.
#[derive(Clone, Copy, Debug, PartialEq, Eq, Structural)]
pub enum IdleTransition {
    /// The task went idle.
    Done,
    /// The task was woken while it ran.
    Notified,
    /// The task was canceled while it ran.
    Aborted,
}

/// What the task's state did when the task completed.
#[derive(Clone, Copy, Debug, PartialEq, Eq, Structural)]
pub enum CompletionTransition {
    /// Nobody waits for the result.
    Done,
    /// A join handle registered its waker and waits for the result.
    HadConnectedJoinHandle,
    /// The task was canceled while it ran.
    Aborted,
}

/// What the task's state did when the task was asked to cancel.
#[derive(Clone, Copy, Debug, PartialEq, Eq, Structural)]
pub enum CancelTransition {
    /// The task was idle and is now canceled.
    Done,
    /// The task was canceled before.
    AlreadyDone,
    /// The task runs; it is canceled once the current poll ends.
    DoneWhileRunning,
}

/// What the task's state did when the task was woken.
#[derive(Clone, Copy, Debug, PartialEq, Eq, Structural)]
pub enum NotifyTransition {
    /// The task was idle and is now marked notified.
    Done,
    /// The task was marked notified before.
    AlreadyNotified,
    /// The task runs; the poll that runs it queues it again.
    Running,
}

/// Which waker of the joining side a completion wakes.
#[derive(Clone, Copy, Debug, PartialEq, Eq, Structural)]
pub enum JoinWake {
    /// Nobody is woken.
    Nobody,
    /// The join handle's waker is woken as it is.
    Regular,
    /// The join handle is woken through the safety path.
    Safety,
}

impl<T, R> TaskStage<T, R> {
    /// Finishes a poll whose work is still pending, given what the task's
    /// state did: a task that went idle is done for now, a task woken while it
    /// ran must be polled again, and a task canceled while it ran drops its work.
    pub fn finish_pending_poll(&mut self, idle: IdleTransition) -> (r: TaskPollResult)
        requires
            *old(self) is InProgress,
        ensures
            idle == IdleTransition::Aborted ==> *final(self) is Extracted,
            idle != IdleTransition::Aborted ==> *final(self) == *old(self),
            r == (if idle == IdleTransition::Notified {
                TaskPollResult::Notified
            } else {
                TaskPollResult::Done
            }),
    {
        match idle {
            IdleTransition::Done => TaskPollResult::Done,
            IdleTransition::Notified => TaskPollResult::Notified,
            IdleTransition::Aborted => {
                self.clear();
                TaskPollResult::Done
            },
        }
    }

    /// Finishes a poll whose work completed (the stage holds its result),
    /// given what the task's state did: a task canceled meanwhile drops the
    /// result; a waiting join handle is woken, through the safety path when
    /// the result is a safety error and the task was spawned with safety.
    pub fn finish_completed_poll(
        &mut self,
        completion: CompletionTransition,
        is_safety_err: bool,
        is_with_safety: bool,
    ) -> (r: JoinWake)
        requires
            *old(self) is Completed,
        ensures
            completion == CompletionTransition::Aborted ==> *final(self) is Extracted,
            completion != CompletionTransition::Aborted ==> *final(self) == *old(self),
            r == join_wake(completion, is_safety_err, is_with_safety),
    {
        match completion {
            CompletionTransition::Done => JoinWake::Nobody,
            CompletionTransition::HadConnectedJoinHandle => {
                if is_safety_err && is_with_safety {
                    JoinWake::Safety
                } else {
                    JoinWake::Regular
                }
            },
            CompletionTransition::Aborted => {
                self.clear();
                JoinWake::Nobody
            },
        }
    }

    /// One poll of a task whose work is in progress, given what polling the
    /// work gave (`Some` of its result when it completed) and what the task's
    /// state did. A completed poll stores the result, is `Done`, and wakes the
    /// join handle as `join_wake` says (the result is dropped again when the
    /// task was canceled meanwhile); a pending poll finishes as
    /// `finish_pending_poll` says and wakes nobody.
    pub fn poll_step(
        &mut self,
        outcome: Option<R>,
        idle: IdleTransition,
        completion: CompletionTransition,
        is_safety_err: bool,
        is_with_safety: bool,
    ) -> (r: (TaskPollResult, JoinWake))
        requires
            *old(self) is InProgress,
        ensures
            outcome matches Some(v) ==> {
                &&& r.0 == TaskPollResult::Done
                &&& r.1 == join_wake(completion, is_safety_err, is_with_safety)
                &&& completion == CompletionTransition::Aborted ==> *final(self) is Extracted
                &&& completion != CompletionTransition::Aborted ==> *final(self) == TaskStage::<T, R>::Completed(v)
            },
            outcome is None ==> {
                &&& r.0 == (if idle == IdleTransition::Notified {
                    TaskPollResult::Notified
                } else {
                    TaskPollResult::Done
                })
                &&& r.1 == JoinWake::Nobody
                &&& idle == IdleTransition::Aborted ==> *final(self) is Extracted
                &&& idle != IdleTransition::Aborted ==> *final(self) == *old(self)
            },
    {
        match outcome {
            Some(v) => {
                self.complete(v);
                let wake = self.finish_completed_poll(completion, is_safety_err, is_with_safety);
                (TaskPollResult::Done, wake)
            },
            None => {
                let res = self.finish_pending_poll(idle);
                (res, JoinWake::Nobody)
            },
        }
    }

    /// Applies a cancel request, given what the task's state did: an idle task
    /// drops its stage and will never run again (`true`); otherwise nothing is
    /// dropped here and the task is not yet known to be stopped (`false`).
    pub fn abort(&mut self, cancel: CancelTransition) -> (r: bool)
        ensures
            r == (cancel == CancelTransition::Done),
            r ==> *final(self) is Extracted,
            !r ==> *final(self) == *old(self),
    {
        match cancel {
            CancelTransition::Done => {
                self.clear();
                true
            },
            _ => false,
        }
    }
}

/// Whom a completed poll wakes: nobody without a waiting join handle; the
/// join handle through the safety path for a safety error of a task spawned
/// with safety, and as it is otherwise.
pub open spec fn join_wake(completion: CompletionTransition, is_safety_err: bool, is_with_safety: bool) -> JoinWake {
    match completion {
        CompletionTransition::HadConnectedJoinHandle => if is_safety_err && is_with_safety {
            JoinWake::Safety
        } else {
            JoinWake::Regular
        },
        _ => JoinWake::Nobody,
    }
}

/// Whether waking a task must queue it again: only when the wake-up moved an
/// idle task to notified; a task already notified is queued already, and a
/// running task is queued again by the poll that runs it.
pub fn must_respawn(notify: NotifyTransition) -> (r: bool)
    ensures
        r == (notify == NotifyTransition::Done),
{
    match notify {
        NotifyTransition::Done => true,
        _ => false,
    }
}

/// The outcome of taking the result of a completed, not canceled task: the
/// next stage and the result.
pub open spec fn take_outcome<T, R>(s: TaskStage<T, R>) -> (TaskStage<T, R>, Result<R, CommonErrors>) {
    match s {
        TaskStage::Completed(v) => (TaskStage::Extracted, Ok(v)),
        _ => (TaskStage::Extracted, Err(CommonErrors::AlreadyDone)),
    }
}

/// A result is handed out at most once: taking it a second time gives `AlreadyDone`.
pub proof fn law_result_taken_once<T, R>(s: TaskStage<T, R>)
    ensures
        take_outcome(take_outcome(s).0).1 == Err::<R, CommonErrors>(CommonErrors::AlreadyDone),
{
}

/// The count of threads a barrier waits for, and of the notifiers handed out.
pub struct BarrierCounter {
    remaining: u32,
    issued: u32,
    expected: u32,
}

impl BarrierCounter {
    /// The threads that have not signalled yet.
    pub closed spec fn remaining_spec(&self) -> nat {
        self.remaining as nat
    }

    /// The notifiers handed out.
    pub closed spec fn issued_spec(&self) -> nat {
        self.issued as nat
    }

    /// The number of threads to wait for.
    pub closed spec fn expected_spec(&self) -> nat {
        self.expected as nat
    }

    /// No more notifiers than expected are handed out, and every notifier not
    /// yet used still counts as remaining.
    pub closed spec fn wf(&self) -> bool {
        &&& self.issued <= self.expected
        &&& self.remaining <= self.expected
        &&& self.expected - self.issued <= self.remaining
    }

    /// A barrier waiting for `thread_to_wait` threads.
    pub fn new(thread_to_wait: u32) -> (r: Self)
        ensures
            r.wf(),
            r.remaining_spec() == thread_to_wait,
            r.issued_spec() == 0,
            r.expected_spec() == thread_to_wait,
    {
        BarrierCounter { remaining: thread_to_wait, issued: 0, expected: thread_to_wait }
    }

    /// Hands out one more notifier, unless all expected ones are out already.
    pub fn get_notifier(&mut self) -> (r: bool)
        requires
            old(self).wf(),
        ensures
            final(self).wf(),
            r == (old(self).issued_spec() < old(self).expected_spec()),
            r ==> final(self).issued_spec() == old(self).issued_spec() + 1,
            !r ==> final(self).issued_spec() == old(self).issued_spec(),
            final(self).remaining_spec() == old(self).remaining_spec(),
            final(self).expected_spec() == old(self).expected_spec(),
    {
        if self.issued >= self.expected {
            false
        } else {
            self.issued = self.issued + 1;
            true
        }
    }

    /// A thread signals it is ready.
    pub fn ready(&mut self)
        requires
            old(self).wf(),
            old(self).remaining_spec() > old(self).expected_spec() - old(self).issued_spec(),
        ensures
            final(self).wf(),
            final(self).remaining_spec() == old(self).remaining_spec() - 1,
            final(self).issued_spec() == old(self).issued_spec(),
            final(self).expected_spec() == old(self).expected_spec(),
    {
        self.remaining = self.remaining - 1;
    }

    /// Whether every expected thread signalled.
    pub fn all_ready(&self) -> (r: bool)
        ensures
            r == (self.remaining_spec() == 0),
    {
        self.remaining == 0
    }
}

/// The barrier is not passed before every expected notifier was handed out:
/// while one is not, some thread remains to signal.
pub proof fn law_barrier_needs_every_thread(b: BarrierCounter)
    requires
        b.wf(),
        b.issued_spec() < b.expected_spec(),
    ensures
        b.remaining_spec() > 0,
{
}

} // verus!
