//! Worker identities, the state word of a worker and its transitions, and
//! the scheduler's bookkeeping of searching and parked workers.
//!
//! Every transition is a function from the current state to the next state
//! and the action the caller has to perform (notify a condition variable,
//! unpark the I/O driver, tell the scheduler the worker left the parked set).

use vstd::prelude::*;

use crate::engine::UniqueWorkerId;
use crate::vector_extension::{fixed_vec_capacity, fixed_vec_items, FixedVec, VectorExtension};

verus! {

/// The worker sleeps on its condition variable.
pub const WORKER_STATE_SLEEPING_CV: u8 = 0b00000000;

/// The worker sleeps inside the I/O driver.
pub const WORKER_STATE_SLEEPING_IO: u8 = 0b00000010;

/// The worker was asked to wake up.
pub const WORKER_STATE_NOTIFIED: u8 = 0b00000001;

/// The worker is running.
pub const WORKER_STATE_EXECUTING: u8 = 0b00000011;

/// The worker is asked to shut down.
pub const WORKER_STATE_SHUTTINGDOWN: u8 = 0b00000100;

/// The kind of a worker.
#[derive(Copy, Clone, Debug, PartialEq, Eq, Structural)]
pub enum WorkerType {
    /// Runs tasks that may move between workers.
    Async,
    /// Runs the tasks spawned onto it only.
    Dedicated,
}

/// Identity of a worker: its unique id, its engine, its index in the engine and its kind.
#[derive(Copy, Clone, Debug, PartialEq, Eq, Structural)]
pub struct WorkerId {
    unique_id: UniqueWorkerId,
    engine_id: u8,
    worker_id: u8,
    typ: WorkerType,
}

impl WorkerId {
    /// The unique id.
    pub closed spec fn unique_id_spec(self) -> UniqueWorkerId {
        self.unique_id
    }

    /// The engine the worker belongs to.
    pub closed spec fn engine_id_spec(self) -> u8 {
        self.engine_id
    }

    /// The index of the worker in its engine.
    pub closed spec fn worker_id_spec(self) -> u8 {
        self.worker_id
    }

    /// The kind of the worker.
    pub closed spec fn typ_spec(self) -> WorkerType {
        self.typ
    }

    /// An identity made of the given parts.
    pub fn new(unique_id: UniqueWorkerId, engine_id: u8, worker_id: u8, typ: WorkerType) -> (r: Self)
        ensures
            r.unique_id_spec() == unique_id,
            r.engine_id_spec() == engine_id,
            r.worker_id_spec() == worker_id,
            r.typ_spec() == typ,
    {
        Self { unique_id, engine_id, worker_id, typ }
    }

    /// The unique id.
    pub fn unique_id(&self) -> (r: UniqueWorkerId)
        ensures
            r == self.unique_id_spec(),
    {
        self.unique_id
    }

    /// The engine the worker belongs to.
    pub fn engine_id(&self) -> (r: u8)
        ensures
            r == self.engine_id_spec(),
    {
        self.engine_id
    }

    /// The index of the worker in its engine.
    pub fn worker_id(&self) -> (r: u8)
        ensures
            r == self.worker_id_spec(),
    {
        self.worker_id
    }

    /// The kind of the worker.
    pub fn typ(&self) -> (r: WorkerType)
        ensures
            r == self.typ_spec(),
    {
        self.typ
    }
}

/// What has to be done to wake a worker up.
#[derive(Copy, Clone, Debug, PartialEq, Eq, Structural)]
pub enum WakeAction {
    /// Nothing: the worker is awake or already notified.
    Nothing,
    /// Notify the condition variable the worker sleeps on.
    NotifyCv,
    /// Unpark the I/O driver the worker sleeps in.
    UnparkIo,
}

/// The outcome of the attempt to go to sleep.
#[derive(Copy, Clone, Debug, PartialEq, Eq, Structural)]
pub enum ParkDecision {
    /// The worker goes to sleep.
    Sleep,
    /// The worker was notified meanwhile: it stays awake and leaves the parked set.
    Notified,
    /// The worker is shutting down.
    ShuttingDown,
}

/// Whether `s` is one of the five worker states.
pub open spec fn valid_state(s: u8) -> bool {
    s == WORKER_STATE_SLEEPING_CV || s == WORKER_STATE_SLEEPING_IO || s == WORKER_STATE_NOTIFIED
        || s == WORKER_STATE_EXECUTING || s == WORKER_STATE_SHUTTINGDOWN
}

/// Unparking: the state becomes notified unless the worker shuts down.
pub open spec fn unpark_next(s: u8) -> u8 {
    if s == WORKER_STATE_SHUTTINGDOWN {
        WORKER_STATE_SHUTTINGDOWN
    } else {
        WORKER_STATE_NOTIFIED
    }
}

/// Unparking: what wakes the worker, by the state it was in.
pub open spec fn unpark_action(s: u8) -> WakeAction {
    if s == WORKER_STATE_SLEEPING_CV {
        WakeAction::NotifyCv
    } else if s == WORKER_STATE_SLEEPING_IO {
        WakeAction::UnparkIo
    } else {
        WakeAction::Nothing
    }
}

/// Going to sleep for `reason`: a running worker sleeps, a notified one goes
/// back to running, a shutting-down one stays so.
pub open spec fn park_next(s: u8, reason: u8) -> (u8, ParkDecision) {
    if s == WORKER_STATE_EXECUTING {
        (reason, ParkDecision::Sleep)
    } else if s == WORKER_STATE_NOTIFIED {
        (WORKER_STATE_EXECUTING, ParkDecision::Notified)
    } else {
        (s, ParkDecision::ShuttingDown)
    }
}

/// Checking while asleep: a notification wakes the worker up (it runs again and
/// leaves the parked set); shutdown ends the sleep; anything else keeps it asleep.
/// Returns the next state, whether to keep sleeping, and whether it left the parked set.
pub open spec fn wait_check_next(s: u8) -> (u8, bool, bool) {
    if s == WORKER_STATE_NOTIFIED {
        (WORKER_STATE_EXECUTING, false, true)
    } else if s == WORKER_STATE_SHUTTINGDOWN {
        (s, false, false)
    } else {
        (s, true, false)
    }
}

/// Waking up on its own: the worker runs again unless it shuts down; it leaves
/// the parked set when it runs again.
pub open spec fn wakeup_next(s: u8) -> (u8, bool) {
    if s == WORKER_STATE_SHUTTINGDOWN {
        (s, false)
    } else {
        (WORKER_STATE_EXECUTING, true)
    }
}

/// The state word of a worker.
pub struct WorkerState {
    value: u8,
}

impl View for WorkerState {
    type V = u8;

    /// The current state.
    closed spec fn view(&self) -> u8 {
        self.value
    }
}

impl WorkerState {

    /// A worker in state `val`.
    pub fn new(val: u8) -> (r: Self)
        ensures
            r@ == val,
    {
        WorkerState { value: val }
    }

    /// The current state.
    pub fn get(&self) -> (r: u8)
        ensures
            r == self@,
    {
        self.value
    }

    /// Wakes the worker up. Returns what has to be done so that it notices.
    pub fn unpark(&mut self) -> (r: WakeAction)
        requires
            valid_state(old(self)@),
        ensures
            final(self)@ == unpark_next(old(self)@),
            r == unpark_action(old(self)@),
    {
        let prev = self.value;
        self.value = WORKER_STATE_NOTIFIED;
        if prev == WORKER_STATE_NOTIFIED {
            WakeAction::Nothing
        } else if prev == WORKER_STATE_SLEEPING_CV {
            WakeAction::NotifyCv
        } else if prev == WORKER_STATE_SLEEPING_IO {
            WakeAction::UnparkIo
        } else if prev == WORKER_STATE_EXECUTING {
            WakeAction::Nothing
        } else {
            self.value = WORKER_STATE_SHUTTINGDOWN;
            WakeAction::Nothing
        }
    }

    /// Asks the worker to shut down. Returns what has to be done so that a sleeping worker notices.
    pub fn request_stop(&mut self) -> (r: WakeAction)
        ensures
            final(self)@ == WORKER_STATE_SHUTTINGDOWN,
            r == (if old(self)@ == WORKER_STATE_SLEEPING_CV {
                WakeAction::NotifyCv
            } else if old(self)@ == WORKER_STATE_SLEEPING_IO {
                WakeAction::UnparkIo
            } else {
                WakeAction::Nothing
            }),
    {
        let prev = self.value;
        self.value = WORKER_STATE_SHUTTINGDOWN;
        if prev == WORKER_STATE_SLEEPING_CV {
            WakeAction::NotifyCv
        } else if prev == WORKER_STATE_SLEEPING_IO {
            WakeAction::UnparkIo
        } else {
            WakeAction::Nothing
        }
    }

    /// Whether the worker was asked to shut down.
    pub fn is_shutdown_requested(&self) -> (r: bool)
        ensures
            r == (self@ == WORKER_STATE_SHUTTINGDOWN),
    {
        self.value == WORKER_STATE_SHUTTINGDOWN
    }

    /// Tries to go to sleep for `sleep_reason` (condition variable or I/O).
    pub fn park_pre_stage(&mut self, sleep_reason: u8) -> (r: ParkDecision)
        requires
            old(self)@ == WORKER_STATE_EXECUTING || old(self)@ == WORKER_STATE_NOTIFIED || old(self)@
                == WORKER_STATE_SHUTTINGDOWN,
        ensures
            (final(self)@, r) == park_next(old(self)@, sleep_reason),
    {
        if self.value == WORKER_STATE_EXECUTING {
            self.value = sleep_reason;
            ParkDecision::Sleep
        } else if self.value == WORKER_STATE_NOTIFIED {
            self.value = WORKER_STATE_EXECUTING;
            ParkDecision::Notified
        } else {
            ParkDecision::ShuttingDown
        }
    }

    /// The check made each time a sleeping worker wakes: returns whether to keep
    /// sleeping and whether the worker left the parked set.
    pub fn park_condition_check_and_transition(&mut self) -> (r: (bool, bool))
        ensures
            (final(self)@, r.0, r.1) == wait_check_next(old(self)@),
    {
        if self.value == WORKER_STATE_NOTIFIED {
            self.value = WORKER_STATE_EXECUTING;
            (false, true)
        } else if self.value == WORKER_STATE_SHUTTINGDOWN {
            (false, false)
        } else {
            (true, false)
        }
    }

    /// Moves a worker that came back from sleep to running, unless it shuts
    /// down. Returns whether it left the parked set.
    pub fn move_to_executing(&mut self) -> (r: bool)
        ensures
            (final(self)@, r) == wakeup_next(old(self)@),
    {
        let prev = self.value;
        self.value = WORKER_STATE_EXECUTING;
        if prev == WORKER_STATE_SHUTTINGDOWN {
            self.value = WORKER_STATE_SHUTTINGDOWN;
            false
        } else {
            true
        }
    }
}

/// Shutdown is final: once a worker shuts down, no transition brings it out of that state.
pub proof fn law_shutdown_is_final(reason: u8)
    ensures
        unpark_next(WORKER_STATE_SHUTTINGDOWN) == WORKER_STATE_SHUTTINGDOWN,
        park_next(WORKER_STATE_SHUTTINGDOWN, reason).0 == WORKER_STATE_SHUTTINGDOWN,
        wait_check_next(WORKER_STATE_SHUTTINGDOWN).0 == WORKER_STATE_SHUTTINGDOWN,
        wakeup_next(WORKER_STATE_SHUTTINGDOWN).0 == WORKER_STATE_SHUTTINGDOWN,
        park_next(WORKER_STATE_SHUTTINGDOWN, reason).1 == ParkDecision::ShuttingDown,
        !wait_check_next(WORKER_STATE_SHUTTINGDOWN).1,
{
}

/// A notification is never lost: a worker unparked while running, sleeping or
/// notified is notified afterwards; if it then tries to sleep it stays awake,
/// and if it sleeps it stops sleeping at its next check.
pub proof fn law_notification_not_lost(s: u8, reason: u8)
    requires
        valid_state(s),
        s != WORKER_STATE_SHUTTINGDOWN,
    ensures
        unpark_next(s) == WORKER_STATE_NOTIFIED,
        park_next(unpark_next(s), reason).1 == ParkDecision::Notified,
        !wait_check_next(unpark_next(s)).1,
        wait_check_next(unpark_next(s)).0 == WORKER_STATE_EXECUTING,
{
}

/// A worker sleeping on its condition variable or in the I/O driver is woken
/// by the matching action.
pub proof fn law_sleeper_gets_woken()
    ensures
        unpark_action(WORKER_STATE_SLEEPING_CV) == WakeAction::NotifyCv,
        unpark_action(WORKER_STATE_SLEEPING_IO) == WakeAction::UnparkIo,
        park_next(WORKER_STATE_EXECUTING, WORKER_STATE_SLEEPING_CV).0 == WORKER_STATE_SLEEPING_CV,
        park_next(WORKER_STATE_EXECUTING, WORKER_STATE_SLEEPING_IO).0 == WORKER_STATE_SLEEPING_IO,
{
}

/// How many workers may search for work at most: half of them.
pub const SCHEDULER_MAX_SEARCHING_WORKERS_DIVIDER: u8 = 2;

/// Highest number of async workers an engine has.
pub const MAX_NUM_OF_WORKERS: usize = 128;

/// The scheduler's view of its async workers: how many search for work and
/// which ones are parked.
pub struct WorkerBookkeeping {
    workers_cnt: usize,
    num_of_searching_workers: u8,
    parked_workers_indexes: FixedVec,
}

impl WorkerBookkeeping {
    /// The number of async workers.
    pub closed spec fn workers(&self) -> nat {
        self.workers_cnt as nat
    }

    /// The number of workers searching for work.
    pub closed spec fn searching(&self) -> nat {
        self.num_of_searching_workers as nat
    }

    /// The indexes of the parked workers, in the order they parked (up to swaps on removal).
    pub closed spec fn parked(&self) -> Seq<usize> {
        fixed_vec_items(self.parked_workers_indexes)
    }

    /// The bookkeeping is consistent: at most half of the workers (rounded up) search, and the
    /// parked list has room for every worker.
    pub closed spec fn wf(&self) -> bool {
        &&& 1 <= self.workers_cnt <= MAX_NUM_OF_WORKERS
        &&& self.num_of_searching_workers * 2 < self.workers_cnt + 2
        &&& fixed_vec_capacity(self.parked_workers_indexes) == self.workers_cnt
        &&& fixed_vec_items(self.parked_workers_indexes).len() <= self.workers_cnt
    }

    /// Bookkeeping for `workers_cnt` workers: none searching, none parked.
    pub fn new(workers_cnt: usize) -> (r: Self)
        requires
            1 <= workers_cnt <= MAX_NUM_OF_WORKERS,
        ensures
            r.wf(),
            r.workers() == workers_cnt,
            r.searching() == 0,
            r.parked() == Seq::<usize>::empty(),
    {
        WorkerBookkeeping {
            workers_cnt,
            num_of_searching_workers: 0,
            parked_workers_indexes: FixedVec::new(workers_cnt),
        }
    }

    /// Lets one more worker search for work, unless half of the workers already do.
    pub fn try_transition_worker_to_searching(&mut self) -> (r: bool)
        requires
            old(self).wf(),
        ensures
            final(self).wf(),
            r == (old(self).searching() * 2 < old(self).workers()),
            r ==> final(self).searching() == old(self).searching() + 1,
            !r ==> final(self).searching() == old(self).searching(),
            final(self).workers() == old(self).workers(),
            final(self).parked() == old(self).parked(),
    {
        let searching = self.num_of_searching_workers;
        let predicted = (searching * SCHEDULER_MAX_SEARCHING_WORKERS_DIVIDER) as usize;
        if predicted >= self.workers_cnt {
            return false;
        }
        self.num_of_searching_workers = searching + 1;
        true
    }

    /// A searching worker found work and runs it.
    pub fn transition_worker_to_executing(&mut self)
        requires
            old(self).wf(),
            old(self).searching() > 0,
        ensures
            final(self).wf(),
            final(self).searching() == old(self).searching() - 1,
            final(self).workers() == old(self).workers(),
            final(self).parked() == old(self).parked(),
    {
        self.num_of_searching_workers = self.num_of_searching_workers - 1;
    }

    /// The number of workers searching for work.
    pub fn searching_count(&self) -> (r: u8)
        ensures
            r == self.searching(),
    {
        self.num_of_searching_workers
    }

    /// Whether some worker should be notified about new work: only when no worker searches.
    pub fn should_notify_some_worker(&self) -> (r: bool)
        ensures
            r == (self.searching() == 0),
    {
        self.num_of_searching_workers == 0
    }

    /// Worker `id` parks; it stops searching if it did. Returns whether it was
    /// the last searching worker. The parked list holds one entry per worker;
    /// when it is full the entry is not added.
    pub fn transition_to_parked(&mut self, was_searching: bool, id: usize) -> (r: bool)
        requires
            old(self).wf(),
            was_searching ==> old(self).searching() > 0,
        ensures
            final(self).wf(),
            r == (was_searching && old(self).searching() == 1),
            final(self).searching() == (if was_searching { old(self).searching() - 1 } else { old(self).searching() as int }),
            old(self).parked().len() < old(self).workers() ==> final(self).parked() == old(self).parked().push(id),
            old(self).parked().len() >= old(self).workers() ==> final(self).parked() == old(self).parked(),
            final(self).workers() == old(self).workers(),
    {
        let mut num_of_searching: u8 = 2;
        if was_searching {
            num_of_searching = self.num_of_searching_workers;
            self.num_of_searching_workers = self.num_of_searching_workers - 1;
        }
        let pushed = self.parked_workers_indexes.push(id);
        num_of_searching == 1
    }

    /// Worker `id` left its sleep: it is removed from the parked set, if it is there.
    pub fn transition_from_parked(&mut self, id: usize)
        requires
            old(self).wf(),
        ensures
            final(self).wf(),
            final(self).searching() == old(self).searching(),
            final(self).workers() == old(self).workers(),
            !old(self).parked().contains(id) ==> final(self).parked() == old(self).parked(),
            old(self).parked().contains(id) ==> exists|p: int|
                0 <= p < old(self).parked().len() && old(self).parked()[p] == id
                    && (forall|q: int| 0 <= q < p ==> old(self).parked()[q] != id)
                    && final(self).parked() == old(self).parked().update(p, old(self).parked().last()).drop_last(),
    {
        let len = self.parked_workers_indexes.len();
        let mut i: usize = 0;
        while i < len
            invariant
                i <= len,
                len == self.parked().len(),
                self.parked() == old(self).parked(),
                self.wf(),
                self.searching() == old(self).searching(),
                self.workers() == old(self).workers(),
                forall|q: int| 0 <= q < i ==> self.parked()[q] != id,
            decreases len - i,
        {
            let v = self.parked_workers_indexes.as_slice()[i];
            if v == id {
                let _ = self.parked_workers_indexes.swap_remove(i);
                return;
            }
            i = i + 1;
        }
    }

    /// Picks a parked worker to notify about new work: the first parked one that
    /// is not `current`. It leaves the parked set. `None` when there is none (the
    /// caller then wakes every worker).
    pub fn take_worker_to_notify(&mut self, current: Option<usize>) -> (r: Option<usize>)
        requires
            old(self).wf(),
        ensures
            final(self).wf(),
            final(self).searching() == old(self).searching(),
            final(self).workers() == old(self).workers(),
            r is None ==> final(self).parked() == old(self).parked() && forall|q: int|
                0 <= q < old(self).parked().len() ==> current == Some(old(self).parked()[q]),
            r matches Some(w) ==> exists|p: int|
                0 <= p < old(self).parked().len() && old(self).parked()[p] == w && current != Some(w)
                    && (forall|q: int| 0 <= q < p ==> current == Some(old(self).parked()[q]))
                    && final(self).parked() == old(self).parked().update(p, old(self).parked().last()).drop_last(),
    {
        let len = self.parked_workers_indexes.len();
        let mut i: usize = 0;
        while i < len
            invariant
                i <= len,
                len == self.parked().len(),
                self.parked() == old(self).parked(),
                self.wf(),
                self.searching() == old(self).searching(),
                self.workers() == old(self).workers(),
                forall|q: int| 0 <= q < i ==> current == Some(self.parked()[q]),
            decreases len - i,
        {
            let v = self.parked_workers_indexes.as_slice()[i];
            let differs = match current {
                None => true,
                Some(c) => v != c,
            };
            if differs {
                let w = self.parked_workers_indexes.swap_remove(i);
                return Some(w);
            }
            i = i + 1;
        }
        None
    }
}

/// At most half of the workers (rounded up) ever search at the same time.
pub proof fn law_searching_bounded(b: WorkerBookkeeping)
    requires
        b.wf(),
    ensures
        b.searching() * 2 <= b.workers() + 1,
{
}

} // verus!
