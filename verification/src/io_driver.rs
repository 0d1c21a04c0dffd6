//! The dispatch step of the I/O driver: which registration every selector
//! event concerns and with which readiness it is woken.

use vstd::prelude::*;

use crate::mio_types::{IoEvent, IoEventInterest, IoId};
use crate::readiness::{interest_state_bits, ReadinessState};

verus! {

/// Identifier of the driver's own waker; events for it only end the wait.
pub const WAKER_IO_ID: u64 = 0xAABBCCDD;

/// The readiness an event reports.
pub open spec fn event_readiness(e: IoEvent) -> ReadinessState {
    ReadinessState::of(interest_state_bits(e.view_interest().readable(), e.view_interest().writable()), 0)
}

/// The wake-ups for `events`, in order: every event except those of the
/// driver's own waker, with the readiness it reports.
pub open spec fn dispatch_spec(events: Seq<IoEvent>) -> Seq<(IoId, ReadinessState)>
    decreases events.len(),
{
    if events.len() == 0 {
        Seq::empty()
    } else {
        let rest = dispatch_spec(events.drop_last());
        let e = events.last();
        if e.view_id().0 == WAKER_IO_ID {
            rest
        } else {
            rest.push((e.view_id(), event_readiness(e)))
        }
    }
}

/// Computes the wake-ups for the events a poll of the selector returned.
pub fn dispatch_events(events: &Vec<IoEvent>) -> (r: Vec<(IoId, ReadinessState)>)
    ensures
        r@ == dispatch_spec(events@),
{
    let mut out: Vec<(IoId, ReadinessState)> = Vec::new();
    let mut i: usize = 0;
    while i < events.len()
        invariant
            i <= events@.len(),
            out@ == dispatch_spec(events@.take(i as int)),
        decreases events.len() - i,
    {
        let ev = &events[i];
        let id = ev.id();
        proof {
            assert(events@.take(i as int + 1).drop_last() =~= events@.take(i as int));
        }
        if id.as_u64() != WAKER_IO_ID {
            let readiness = ReadinessState::from_mio_event(ev);
            out.push((id, readiness));
        }
        i = i + 1;
    }
    proof {
        assert(events@.take(events@.len() as int) =~= events@);
    }
    out
}

/// Events of the driver's own waker never wake a registration, and every
/// other event does.
pub proof fn law_waker_events_skipped(events: Seq<IoEvent>, e: IoEvent)
    ensures
        e.view_id().0 == WAKER_IO_ID ==> dispatch_spec(events.push(e)) == dispatch_spec(events),
        e.view_id().0 != WAKER_IO_ID ==> dispatch_spec(events.push(e)) == dispatch_spec(events).push(
            (e.view_id(), event_readiness(e)),
        ),
{
    assert(events.push(e).drop_last() =~= events);
}

/// How a worker without work goes to sleep, as decided from the timer state.
#[derive(Clone, Copy, Debug, PartialEq, Eq, Structural)]
pub enum ParkPlan {
    /// Sleep until notified.
    Indefinitely,
    /// Sleep until notified or until the given time.
    Until(u64),
}

/// The sleep plan: with no timeout pending, sleep until notified; when the
/// next expiration is the one some other worker already promised to wake up
/// for, sleep until notified too; otherwise sleep until the next expiration.
pub open spec fn park_plan_spec(next_expiration: Option<u64>, promised: u64, last_own_promise: u64) -> ParkPlan {
    match next_expiration {
        None => ParkPlan::Indefinitely,
        Some(t) => if t == promised && last_own_promise != t {
            ParkPlan::Indefinitely
        } else {
            ParkPlan::Until(t)
        },
    }
}

/// Decides how a worker goes to sleep, given the next expiration of the timer
/// wheel, the wake-up time promised globally, and the last promise this worker made.
pub fn park_plan(next_expiration: Option<u64>, promised: u64, last_own_promise: u64) -> (r: ParkPlan)
    ensures
        r == park_plan_spec(next_expiration, promised, last_own_promise),
        next_expiration is None ==> r == ParkPlan::Indefinitely,
        next_expiration matches Some(t) ==> (r == ParkPlan::Indefinitely <==> (t == promised && last_own_promise
            != t)),
        next_expiration matches Some(t) ==> (r is Until ==> r == ParkPlan::Until(t)),
{
    match next_expiration {
        None => ParkPlan::Indefinitely,
        Some(t) => {
            if t == promised && last_own_promise != t {
                ParkPlan::Indefinitely
            } else {
                ParkPlan::Until(t)
            }
        },
    }
}

/// Some worker always sleeps with a timeout for a pending expiration: the
/// worker that made the global promise itself sleeps until it.
pub proof fn law_promise_keeper_times_out(t: u64)
    ensures
        park_plan_spec(Some(t), t, t) == ParkPlan::Until(t),
        forall|p: u64| p != t ==> park_plan_spec(Some(t), p, 0) == ParkPlan::Until(t),
{
}

/// A pending timer bounds the sleep: with expiration `t` pending, a worker
/// sleeps without timeout only when `t` is the wake-up time promised
/// globally and not its own last promise (the promising worker keeps it);
/// whenever `t` is not the promised time, or is its own promise, it sleeps
/// until `t`, whatever else it promised before.
pub proof fn law_pending_timer_bounds_sleep(t: u64, promised: u64, own: u64)
    ensures
        t != promised ==> park_plan_spec(Some(t), promised, own) == ParkPlan::Until(t),
        own == t ==> park_plan_spec(Some(t), promised, own) == ParkPlan::Until(t),
        t == promised && own != t ==> park_plan_spec(Some(t), promised, own) == ParkPlan::Indefinitely,
        forall|d: u64| park_plan_spec(Some(t), promised, own) == ParkPlan::Until(d) ==> d == t,
        park_plan_spec(None, promised, own) == ParkPlan::Indefinitely,
{
}

} // verus!
