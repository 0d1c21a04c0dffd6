//! Readiness bookkeeping of one I/O registration: the packed readiness word,
//! the wakers waiting for it, and the rules by which the I/O driver sets
//! readiness and users consume it.
//!
//! The waker type is a parameter, so the bookkeeping is independent of how a
//! task is woken up.

use vstd::prelude::*;

use crate::futures::FutureInternalReturn;
use crate::intrusive_list::{keep_marked, keep_unmarked, keys_of, lemma_key_in_one_part, lemma_mark_sorts_element, Item, List};
use crate::mio_types::IoEventInterest;
use crate::readiness::{
    clear_spec, intersection_spec, lemma_word_roundtrip, next_tick, readiness_of_interest, ticked,
    union_spec, ReadinessState,
};

verus! {

/// A waiter of a readiness future: its identity, its waker and the interest it waits for.
pub struct WakerElem<W> {
    /// Identity of the waiter, unique among the waiters of a registration.
    pub id: u64,
    /// The waker to call once the interest is ready.
    pub waker: Option<W>,
    /// The interest the waiter waits for.
    pub interest: IoEventInterest,
}

impl<W> Item for WakerElem<W> {
    open spec fn item_key(&self) -> u64 {
        self.id
    }

    fn key(&self) -> (k: u64) {
        self.id
    }
}

/// Whether a waiter waits for an interest that `readiness` has.
pub open spec fn waiter_hit<W>(e: WakerElem<W>, readiness: ReadinessState) -> bool {
    readiness.state_bits() & readiness_of_interest(e.interest).state_bits() != 0
}

/// For every waiter, whether `readiness` wakes it.
pub open spec fn hits<W>(s: Seq<WakerElem<W>>, readiness: ReadinessState) -> Seq<bool> {
    s.map_values(|e: WakerElem<W>| waiter_hit(e, readiness))
}

/// The wakers that the waiters hold, in order.
pub open spec fn wakers_of<W>(s: Seq<WakerElem<W>>) -> Seq<W>
    decreases s.len(),
{
    if s.len() == 0 {
        Seq::empty()
    } else {
        let rest = wakers_of(s.drop_last());
        match s.last().waker {
            Some(w) => rest.push(w),
            None => rest,
        }
    }
}

/// The waker of a slot as a sequence of at most one element.
pub open spec fn slot_seq<W>(slot: Option<W>) -> Seq<W> {
    match slot {
        Some(w) => seq![w],
        None => Seq::empty(),
    }
}

/// The readiness after the driver reports `state`: the tick advances and the
/// reported bits are added.
pub open spec fn marked(current: ReadinessState, state: ReadinessState) -> ReadinessState {
    union_spec(ticked(current), state)
}

/// Whether a user may clear `interest` with the readiness it observed:
/// only when the tick is still the current one and some bit of the interest is set.
pub open spec fn clear_allowed(
    current: ReadinessState,
    observed: ReadinessState,
    interest: IoEventInterest,
) -> bool {
    observed.tick_bits() == current.tick_bits() && current.state_bits()
        & readiness_of_interest(interest).state_bits() != 0
}

/// Readiness bookkeeping of one registration.
pub struct RegistrationInfo<W> {
    tracking_key: usize,
    readiness_state: ReadinessState,
    read: Option<W>,
    write: Option<W>,
    waiters: List<WakerElem<W>>,
}

impl<W> RegistrationInfo<W> {
    /// The key under which the driver tracks this registration.
    pub closed spec fn key_value(&self) -> usize {
        self.tracking_key
    }

    /// The current readiness.
    pub closed spec fn state(&self) -> ReadinessState {
        self.readiness_state
    }

    /// The waker stored for polled reads.
    pub closed spec fn read_slot(&self) -> Option<W> {
        self.read
    }

    /// The waker stored for polled writes.
    pub closed spec fn write_slot(&self) -> Option<W> {
        self.write
    }

    /// The waiters of readiness futures, in arrival order.
    pub closed spec fn waiters(&self) -> Seq<WakerElem<W>> {
        self.waiters.view()
    }

    /// The waiters have distinct identities.
    pub closed spec fn wf(&self) -> bool {
        self.waiters.wf()
    }

    /// A registration tracked under `key`, with no readiness and no waker.
    pub fn new(key: usize) -> (r: Self)
        ensures
            r.wf(),
            r.key_value() == key,
            r.state() == ReadinessState(0),
            r.read_slot() is None,
            r.write_slot() is None,
            r.waiters() == Seq::<WakerElem<W>>::empty(),
    {
        RegistrationInfo {
            tracking_key: key,
            readiness_state: ReadinessState(0),
            read: None,
            write: None,
            waiters: List::new(),
        }
    }

    /// The tracking key, or `None` when the registration carries the "no key" marker `usize::MAX`.
    pub fn tracking_key(&self) -> (r: Option<usize>)
        ensures
            self.key_value() == usize::MAX ==> r is None,
            self.key_value() != usize::MAX ==> r == Some(self.key_value()),
    {
        let res = self.tracking_key;
        if res == usize::MAX {
            None
        } else {
            Some(res)
        }
    }

    /// The current readiness restricted to `interest`, or `None` when none of it is ready.
    pub fn is_ready(&self, interest: IoEventInterest) -> (r: Option<ReadinessState>)
        ensures
            r == intersection_spec(self.state(), readiness_of_interest(interest)),
    {
        let mask = ReadinessState::from_interest(interest);
        self.readiness_state.intersection(mask)
    }

    /// Adds `state` to the readiness and advances the tick. Returns the
    /// previous and the new readiness.
    pub fn mark_state(&mut self, state: ReadinessState) -> (r: (ReadinessState, ReadinessState))
        ensures
            r.0 == old(self).state(),
            r.1 == marked(old(self).state(), state),
            final(self).state() == r.1,
            final(self).key_value() == old(self).key_value(),
            final(self).read_slot() == old(self).read_slot(),
            final(self).write_slot() == old(self).write_slot(),
            final(self).waiters() == old(self).waiters(),
            final(self).wf() == old(self).wf(),
    {
        let prev = self.readiness_state;
        let mut t = prev;
        t.increment_tick();
        let new_state = t.union(state);
        self.readiness_state = new_state;
        (prev, new_state)
    }

    /// Clears `interest` from the readiness when `readiness` (as observed by the
    /// caller) is from the current tick and some bit of `interest` is set.
    /// Returns whether it cleared; otherwise nothing changes.
    pub fn clear_readiness(&mut self, readiness: ReadinessState, interest: IoEventInterest) -> (r: bool)
        ensures
            r == clear_allowed(old(self).state(), readiness, interest),
            r ==> final(self).state() == clear_spec(old(self).state(), readiness_of_interest(interest)),
            !r ==> final(self).state() == old(self).state(),
            final(self).key_value() == old(self).key_value(),
            final(self).read_slot() == old(self).read_slot(),
            final(self).write_slot() == old(self).write_slot(),
            final(self).waiters() == old(self).waiters(),
            final(self).wf() == old(self).wf(),
    {
        let current = self.readiness_state;
        if readiness.tick() != current.tick() {
            return false;
        }
        let mask = ReadinessState::from_interest(interest);
        if current.intersection(mask).is_none() {
            return false;
        }
        let mut next = current;
        next.clear(mask);
        self.readiness_state = next;
        true
    }

    /// Takes out every waker that `readiness` concerns: the read slot when it is
    /// readable, the write slot when it is writable, and the waiters whose
    /// interest it has, which leave the list. Returns them in that order.
    pub fn wake_all(&mut self, readiness: ReadinessState) -> (woken: Vec<W>)
        requires
            old(self).wf(),
        ensures
            final(self).wf(),
            final(self).state() == old(self).state(),
            final(self).key_value() == old(self).key_value(),
            final(self).read_slot() == (if readiness.readable() { None } else { old(self).read_slot() }),
            final(self).write_slot() == (if readiness.writable() { None } else { old(self).write_slot() }),
            final(self).waiters() == keep_unmarked(old(self).waiters(), hits(old(self).waiters(), readiness)),
            woken@ == (if readiness.readable() { slot_seq(old(self).read_slot()) } else { Seq::empty() })
                + (if readiness.writable() { slot_seq(old(self).write_slot()) } else { Seq::empty() })
                + wakers_of(keep_marked(old(self).waiters(), hits(old(self).waiters(), readiness))),
    {
        let mut out: Vec<W> = Vec::new();
        if readiness.is_readable() {
            if let Some(w) = self.read.take() {
                out.push(w);
            }
        }
        if readiness.is_writable() {
            if let Some(w) = self.write.take() {
                out.push(w);
            }
        }
        let ghost base = out@;
        let ghost before = self.waiters.view();
        let selector = |e: &WakerElem<W>| -> (b: bool)
            ensures
                b == waiter_hit(*e, readiness),
            {
                let mask = ReadinessState::from_interest(e.interest);
                readiness.intersection(mask).is_some()
            };
        let removed = self.waiters.remove_if(selector);
        proof {
            let drop = choose|drop: Seq<bool>|
                {
                    &&& drop.len() == before.len()
                    &&& forall|i: int|
                        0 <= i < drop.len() ==> #[trigger] selector.ensures((&before[i],), drop[i])
                    &&& self.waiters.view() == keep_unmarked(before, drop)
                    &&& removed@ == keep_marked(before, drop)
                };
            assert(drop =~= hits(before, readiness)) by {
                assert forall|i: int| 0 <= i < drop.len() implies drop[i] == hits(before, readiness)[i] by {
                    assert(selector.ensures((&before[i],), drop[i]));
                }
            }
        }
        let mut rest = removed;
        let ghost all_removed = rest@;
        let ghost mut done: Seq<WakerElem<W>> = Seq::empty();
        while rest.len() > 0
            invariant
                all_removed == done + rest@,
                out@ == base + wakers_of(done),
            decreases rest.len(),
        {
            let e = rest.remove(0);
            proof {
                assert(done.push(e).drop_last() =~= done);
            }
            match e.waker {
                Some(w) => {
                    out.push(w);
                },
                None => {},
            }
            proof {
                done = done.push(e);
                assert(all_removed =~= done + rest@);
            }
        }
        proof {
            assert(done =~= all_removed);
        }
        out
    }

    /// Records the readiness reported by the driver and takes out the wakers
    /// the new readiness concerns (see `wake_all`), in the same order.
    pub fn wake(&mut self, state: ReadinessState) -> (woken: Vec<W>)
        requires
            old(self).wf(),
        ensures
            final(self).wf(),
            final(self).state() == marked(old(self).state(), state),
            final(self).read_slot() == (if marked(old(self).state(), state).readable() { None } else { old(self).read_slot() }),
            final(self).write_slot() == (if marked(old(self).state(), state).writable() { None } else { old(self).write_slot() }),
            final(self).waiters() == keep_unmarked(
                old(self).waiters(),
                hits(old(self).waiters(), marked(old(self).state(), state)),
            ),
            woken@ == (if marked(old(self).state(), state).readable() {
                slot_seq(old(self).read_slot())
            } else {
                Seq::empty()
            }) + (if marked(old(self).state(), state).writable() {
                slot_seq(old(self).write_slot())
            } else {
                Seq::empty()
            }) + wakers_of(keep_marked(old(self).waiters(), hits(old(self).waiters(), marked(old(self).state(), state)))),
    {
        let (_, readiness) = self.mark_state(state);
        self.wake_all(readiness)
    }

    /// Poll for `interest`: ready at once when some of it is set; otherwise
    /// `waker` is stored in the read slot (for a readable interest) or in the
    /// write slot, and the poll is pending.
    pub fn poll_register_interest(&mut self, interest: IoEventInterest, waker: W) -> (r: FutureInternalReturn<ReadinessState>)
        ensures
            final(self).state() == old(self).state(),
            final(self).waiters() == old(self).waiters(),
            final(self).wf() == old(self).wf(),
            final(self).key_value() == old(self).key_value(),
            intersection_spec(old(self).state(), readiness_of_interest(interest)) matches Some(s) ==> {
                &&& r.1 == Some(s)
                &&& final(self).read_slot() == old(self).read_slot()
                &&& final(self).write_slot() == old(self).write_slot()
            },
            intersection_spec(old(self).state(), readiness_of_interest(interest)) is None ==> {
                &&& r.1 is None
                &&& interest.readable() ==> final(self).read_slot() == Some(waker)
                    && final(self).write_slot() == old(self).write_slot()
                &&& !interest.readable() ==> final(self).write_slot() == Some(waker)
                    && final(self).read_slot() == old(self).read_slot()
            },
    {
        match self.is_ready(interest) {
            Some(readiness) => FutureInternalReturn::ready(readiness),
            None => {
                if interest.is_readable() {
                    self.read = Some(waker);
                } else {
                    self.write = Some(waker);
                }
                FutureInternalReturn::polled()
            },
        }
    }

    /// First poll of a readiness future: ready at once when some of its
    /// interest is set; otherwise the waiter joins the list and the poll is pending.
    pub fn register_waiter(&mut self, elem: WakerElem<W>) -> (r: FutureInternalReturn<ReadinessState>)
        requires
            old(self).wf(),
            !keys_of(old(self).waiters()).contains(elem.id),
        ensures
            final(self).wf(),
            final(self).state() == old(self).state(),
            final(self).read_slot() == old(self).read_slot(),
            final(self).write_slot() == old(self).write_slot(),
            intersection_spec(old(self).state(), readiness_of_interest(elem.interest)) matches Some(s) ==> r.1
                == Some(s) && final(self).waiters() == old(self).waiters(),
            intersection_spec(old(self).state(), readiness_of_interest(elem.interest)) is None ==> r.1 is None
                && final(self).waiters() == old(self).waiters().push(elem),
    {
        match self.is_ready(elem.interest) {
            Some(readiness) => FutureInternalReturn::ready(readiness),
            None => {
                self.waiters.push_back(elem);
                FutureInternalReturn::polled()
            },
        }
    }

    /// Later poll of a readiness future: when some of `interest` is set, the
    /// waiter `id` leaves the list and the poll is ready; otherwise it stays pending.
    pub fn poll_waiter(&mut self, id: u64, interest: IoEventInterest) -> (r: FutureInternalReturn<ReadinessState>)
        requires
            old(self).wf(),
        ensures
            final(self).wf(),
            final(self).state() == old(self).state(),
            final(self).read_slot() == old(self).read_slot(),
            final(self).write_slot() == old(self).write_slot(),
            intersection_spec(old(self).state(), readiness_of_interest(interest)) matches Some(s) ==> r.1 == Some(s)
                && !keys_of(final(self).waiters()).contains(id) && (keys_of(old(self).waiters()).contains(id)
                ==> exists|j: int|
                0 <= j < old(self).waiters().len() && old(self).waiters()[j].id == id && final(self).waiters()
                    == old(self).waiters().remove(j)) && (!keys_of(old(self).waiters()).contains(id)
                ==> final(self).waiters() == old(self).waiters()),
            intersection_spec(old(self).state(), readiness_of_interest(interest)) is None ==> r.1 is None
                && final(self).waiters() == old(self).waiters(),
    {
        match self.is_ready(interest) {
            Some(readiness) => {
                self.remove_waiter(id);
                FutureInternalReturn::ready(readiness)
            },
            None => FutureInternalReturn::polled(),
        }
    }

    /// Removes the waiter `id` from the list, if it is there.
    pub fn remove_waiter(&mut self, id: u64) -> (r: bool)
        requires
            old(self).wf(),
        ensures
            final(self).wf(),
            r == keys_of(old(self).waiters()).contains(id),
            !keys_of(final(self).waiters()).contains(id),
            r ==> exists|j: int|
                0 <= j < old(self).waiters().len() && old(self).waiters()[j].id == id && final(self).waiters()
                    == old(self).waiters().remove(j),
            !r ==> final(self).waiters() == old(self).waiters(),
            final(self).state() == old(self).state(),
            final(self).read_slot() == old(self).read_slot(),
            final(self).write_slot() == old(self).write_slot(),
    {
        let probe = WakerElem::<W> { id, waker: None, interest: IoEventInterest(0) };
        let ghost before = self.waiters.view();
        let r = self.waiters.remove(&probe);
        proof {
            if r {
                let j = choose|j: int| 0 <= j < before.len() && before[j].item_key() == id
                    && self.waiters.view() == before.remove(j);
                assert forall|m: int| 0 <= m < keys_of(self.waiters.view()).len() implies keys_of(self.waiters.view())[m] != id by {
                    let m2 = if m < j { m } else { m + 1 };
                    assert(keys_of(before)[m2] == self.waiters.view()[m].id);
                    assert(keys_of(before)[j] == id);
                }
            }
        }
        r
    }
}

/// Once the driver reports a state, every interest that the state has is ready.
pub proof fn law_reported_interest_is_ready(current: ReadinessState, state: ReadinessState, interest: IoEventInterest)
    requires
        state.state_bits() & readiness_of_interest(interest).state_bits() != 0,
    ensures
        intersection_spec(marked(current, state), readiness_of_interest(interest)) is Some,
{
    let a = ticked(current);
    lemma_word_roundtrip(current.state_bits(), next_tick(current.tick_bits()));
    lemma_word_roundtrip(a.state_bits() | state.state_bits(), a.tick_bits());
    let x = a.state_bits();
    let y = state.state_bits();
    let m = readiness_of_interest(interest).state_bits();
    assert(y & m != 0 ==> (x | y) & m != 0) by (bit_vector);
}

/// A successful clear leaves nothing of the cleared interest ready.
pub proof fn law_cleared_interest_not_ready(current: ReadinessState, interest: IoEventInterest)
    ensures
        intersection_spec(clear_spec(current, readiness_of_interest(interest)), readiness_of_interest(interest)) is None,
{
    let m = readiness_of_interest(interest).state_bits();
    let x = current.state_bits();
    lemma_word_roundtrip(x & !m, current.tick_bits());
    assert((x & !m) & m == 0) by (bit_vector);
}

/// A clear with a readiness from another tick never succeeds, so a user can
/// not consume readiness that arrived after what it observed.
pub proof fn law_stale_clear_refused(current: ReadinessState, observed: ReadinessState, interest: IoEventInterest)
    requires
        observed.tick_bits() != current.tick_bits(),
    ensures
        !clear_allowed(current, observed, interest),
{
}

/// Reporting a state always moves the tick on, so readiness observed before a
/// report can not clear the readiness after it.
pub proof fn law_report_moves_tick(current: ReadinessState, state: ReadinessState)
    ensures
        marked(current, state).tick_bits() == next_tick(current.tick_bits()),
        marked(current, state).tick_bits() != current.tick_bits(),
{
    lemma_word_roundtrip(current.state_bits(), next_tick(current.tick_bits()));
    let a = ticked(current);
    lemma_word_roundtrip(a.state_bits() | state.state_bits(), a.tick_bits());
}

/// A wake-up reaches exactly the waiters whose interest the new readiness
/// has: such a waiter leaves the list and is among those handed out, and no
/// waiter with its id stays; any other waiter stays in the list and no
/// waiter with its id is handed out.
pub proof fn law_wake_reaches_ready_waiters<W>(s: Seq<WakerElem<W>>, r: ReadinessState, j: int)
    requires
        keys_of(s).no_duplicates(),
        0 <= j < s.len(),
    ensures
        waiter_hit(s[j], r) ==> keep_marked(s, hits(s, r)).contains(s[j]) && forall|x: WakerElem<W>|
            #[trigger] keep_unmarked(s, hits(s, r)).contains(x) ==> x.id != s[j].id,
        !waiter_hit(s[j], r) ==> keep_unmarked(s, hits(s, r)).contains(s[j]) && forall|x: WakerElem<W>|
            #[trigger] keep_marked(s, hits(s, r)).contains(x) ==> x.id != s[j].id,
{
    assert(hits(s, r)[j] == waiter_hit(s[j], r));
    lemma_mark_sorts_element(s, hits(s, r), j);
    lemma_key_in_one_part(s, hits(s, r), j);
}

} // verus!
