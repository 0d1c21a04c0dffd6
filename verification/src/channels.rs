//! The decision logic of the single-producer single-consumer channel and of
//! the broadcast channel built from several of them.
//!
//! A channel holds a bounded queue of values, the waker of a receiver that
//! waits for data, and whether sender and receiver are still connected. The
//! waker type is a parameter; operations hand back the wakers to call.

use vstd::prelude::*;

use crate::errors::CommonErrors;
use crate::futures::{FutureInternalReturn, FutureState};
use crate::queue::Queue;

verus! {

/// Sender and receiver are connected.
pub const BOTH_IN: u8 = 0;

/// The sender is gone.
pub const SENDER_GONE: u8 = 1;

/// The receiver is gone.
pub const RECV_GONE: u8 = 2;

/// Default capacity of a channel.
pub const CHANNEL_SIZE: usize = 8;

/// One single-producer single-consumer channel.
pub struct SpscChannel<T, W> {
    queue: Queue<T>,
    waker: Option<W>,
    connected_state: u8,
}

impl<T, W> SpscChannel<T, W> {
    /// The queued values, oldest first.
    pub closed spec fn values(&self) -> Seq<T> {
        self.queue.view()
    }

    /// The capacity of the queue.
    pub closed spec fn capacity_spec(&self) -> nat {
        self.queue.capacity_spec()
    }

    /// The waker of a waiting receiver.
    pub closed spec fn waker_spec(&self) -> Option<W> {
        self.waker
    }

    /// Who is still connected.
    pub closed spec fn state_spec(&self) -> u8 {
        self.connected_state
    }

    /// The queue stays within its capacity.
    pub closed spec fn wf(&self) -> bool {
        self.queue.wf()
    }

    /// The result a send gives on a channel in this state: `GenericError`
    /// when the receiver is gone, `NoSpaceLeft` when the queue is full.
    pub open spec fn send_result(&self) -> Result<(), CommonErrors> {
        if self.state_spec() == RECV_GONE {
            Err(CommonErrors::GenericError)
        } else if self.values().len() >= self.capacity_spec() {
            Err(CommonErrors::NoSpaceLeft)
        } else {
            Ok(())
        }
    }

    /// `after` is `before` once `value` was sent: an accepted value is queued
    /// last and the receiver's waker is handed out; a refused one changes nothing.
    pub open spec fn sent(before: Self, after: Self, value: T) -> bool {
        &&& after.wf()
        &&& after.state_spec() == before.state_spec()
        &&& after.capacity_spec() == before.capacity_spec()
        &&& if before.send_result() is Ok {
            after.values() == before.values().push(value) && after.waker_spec() is None
        } else {
            after.values() == before.values() && after.waker_spec() == before.waker_spec()
        }
    }

    /// `after` is `before` once a receive with `waker` gave `r`. With data
    /// queued, the oldest value comes out and the stored waker is dropped.
    /// With none, `waker` is stored and the result is `NoData`, unless the
    /// sender is gone and no receiver waker was stored before: then it is
    /// `AlreadyDone` and no waker stays.
    pub open spec fn received(before: Self, after: Self, waker: W, r: Result<T, CommonErrors>) -> bool {
        &&& after.wf()
        &&& after.state_spec() == before.state_spec()
        &&& after.capacity_spec() == before.capacity_spec()
        &&& if before.values().len() > 0 {
            r == Ok::<T, CommonErrors>(before.values()[0]) && after.values() == before.values().drop_first()
                && after.waker_spec() is None
        } else if before.waker_spec() is None && before.state_spec() == SENDER_GONE {
            r == Err::<T, CommonErrors>(CommonErrors::AlreadyDone) && after.values() == before.values()
                && after.waker_spec() is None
        } else {
            r == Err::<T, CommonErrors>(CommonErrors::NoData) && after.values() == before.values()
                && after.waker_spec() == Some(waker)
        }
    }

    /// The waker the departure of the sender hands out: the receiver's, when
    /// the receiver is still connected.
    pub open spec fn sender_drop_waker(&self) -> Option<W> {
        if self.state_spec() == BOTH_IN {
            self.waker_spec()
        } else {
            None
        }
    }

    /// `after` is `before` once the sender went away, handing out `r`: the
    /// receiver's waker when the receiver was still connected.
    pub open spec fn sender_dropped(before: Self, after: Self, r: Option<W>) -> bool {
        &&& after.wf()
        &&& after.state_spec() == SENDER_GONE
        &&& after.values() == before.values()
        &&& after.capacity_spec() == before.capacity_spec()
        &&& if before.state_spec() == BOTH_IN {
            r == before.waker_spec() && after.waker_spec() is None
        } else {
            r is None && after.waker_spec() == before.waker_spec()
        }
    }

    /// `after` is `before` once the receiver went away.
    pub open spec fn receiver_dropped(before: Self, after: Self) -> bool {
        &&& after.wf()
        &&& after.state_spec() == RECV_GONE
        &&& after.waker_spec() is None
        &&& after.values() == before.values()
        &&& after.capacity_spec() == before.capacity_spec()
    }

    /// A connected channel for up to `capacity` values.
    pub fn new(capacity: usize) -> (r: Self)
        ensures
            r.wf(),
            r.values() == Seq::<T>::empty(),
            r.capacity_spec() == capacity,
            r.waker_spec() is None,
            r.state_spec() == BOTH_IN,
    {
        SpscChannel { queue: Queue::new(capacity), waker: None, connected_state: BOTH_IN }
    }

    /// The sender goes away. Returns the waker of the receiver to call when
    /// the receiver was still connected.
    pub fn sender_dropping(&mut self) -> (r: Option<W>)
        requires
            old(self).wf(),
        ensures
            SpscChannel::sender_dropped(*old(self), *final(self), r),
    {
        let prev = self.connected_state;
        self.connected_state = SENDER_GONE;
        if prev == BOTH_IN {
            self.waker.take()
        } else {
            None
        }
    }

    /// The receiver goes away; its waker is dropped.
    pub fn receiver_dropping(&mut self)
        requires
            old(self).wf(),
        ensures
            SpscChannel::receiver_dropped(*old(self), *final(self)),
    {
        self.connected_state = RECV_GONE;
        self.waker = None;
    }

    /// Sends `value`. Fails with `GenericError` when the receiver is gone and
    /// with `NoSpaceLeft` when the queue is full; on success hands back the
    /// waker of the receiver to call.
    pub fn send(&mut self, value: T) -> (r: (Result<(), CommonErrors>, Option<W>))
        requires
            old(self).wf(),
        ensures
            SpscChannel::sent(*old(self), *final(self), value),
            r.0 == old(self).send_result(),
            r.1 == (if old(self).send_result() is Ok {
                old(self).waker_spec()
            } else {
                None
            }),
    {
        if self.connected_state == RECV_GONE {
            (Err(CommonErrors::GenericError), None)
        } else {
            let pushed = self.queue.push(value);
            if !pushed {
                return (Err(CommonErrors::NoSpaceLeft), None);
            }
            let w = self.waker.take();
            (Ok(()), w)
        }
    }

    /// Receives a value. With data queued, returns the oldest value and drops
    /// the stored waker. With none, `waker` is stored and the result is
    /// `NoData`, unless the sender is gone and no receiver waker was stored
    /// before: then it is `AlreadyDone` and no waker stays.
    pub fn receive(&mut self, waker: W) -> (r: Result<T, CommonErrors>)
        requires
            old(self).wf(),
        ensures
            SpscChannel::received(*old(self), *final(self), waker, r),
    {
        if self.queue.is_empty() {
            let had_waker = self.waker.is_some();
            self.waker = Some(waker);
            if had_waker {
                return Err(CommonErrors::NoData);
            }
            if self.connected_state == SENDER_GONE {
                self.waker = None;
                return Err(CommonErrors::AlreadyDone);
            }
            Err(CommonErrors::NoData)
        } else {
            self.waker = None;
            let v = self.queue.pop();
            match v {
                Some(x) => Ok(x),
                None => Err(CommonErrors::NoData),
            }
        }
    }
}

/// The result of a broadcast send, from the results of the single channels:
/// `GenericError` when every receiver is gone, otherwise `NoSpaceLeft` when
/// some channel is full, otherwise `Ok`.
pub open spec fn broadcast_result(results: Seq<Result<(), CommonErrors>>) -> Result<(), CommonErrors> {
    if results.len() > 0 && forall|i: int|
        0 <= i < results.len() ==> results[i] == Err::<(), CommonErrors>(CommonErrors::GenericError) {
        Err(CommonErrors::GenericError)
    } else if exists|i: int|
        0 <= i < results.len() && results[i] == Err::<(), CommonErrors>(CommonErrors::NoSpaceLeft) {
        Err(CommonErrors::NoSpaceLeft)
    } else {
        Ok(())
    }
}

/// Whether `r` is a result a single channel's send gives.
spec fn is_send_result(r: Result<(), CommonErrors>) -> bool {
    r == Ok::<(), CommonErrors>(()) || r == Err::<(), CommonErrors>(CommonErrors::GenericError) || r == Err::<
        (),
        CommonErrors,
    >(CommonErrors::NoSpaceLeft)
}

/// The state of the broadcast send loop after the first `k` channel results:
/// the result so far and the number of channels whose receiver is gone.
spec fn fold_results(results: Seq<Result<(), CommonErrors>>, k: int) -> (Result<(), CommonErrors>, nat)
    decreases k,
{
    if k <= 0 {
        (Ok(()), 0)
    } else {
        let (ret, gone) = fold_results(results, k - 1);
        match results[k - 1] {
            Ok(_) => (ret, gone),
            Err(CommonErrors::GenericError) => {
                let g = gone + 1;
                if g == results.len() {
                    (Err(CommonErrors::GenericError), g)
                } else {
                    (ret, g)
                }
            },
            Err(e) => (Err(e), gone),
        }
    }
}

/// The loop state after `k` results: `gone` counts the gone receivers among
/// them, and the result is what `broadcast_result` says of the first `k`.
proof fn lemma_fold_is_direct(results: Seq<Result<(), CommonErrors>>, k: int)
    requires
        0 <= k <= results.len(),
        forall|i: int| 0 <= i < results.len() ==> is_send_result(#[trigger] results[i]),
    ensures
        fold_results(results, k).1 <= k,
        fold_results(results, k).1 == k <==> forall|i: int|
            0 <= i < k ==> results[i] == Err::<(), CommonErrors>(CommonErrors::GenericError),
        fold_results(results, k).0 == (if k == results.len() && k > 0 && fold_results(results, k).1 == k {
            Err(CommonErrors::GenericError)
        } else if exists|i: int|
            0 <= i < k && results[i] == Err::<(), CommonErrors>(CommonErrors::NoSpaceLeft) {
            Err(CommonErrors::NoSpaceLeft)
        } else {
            Ok(())
        }),
    decreases k,
{
    if k > 0 {
        lemma_fold_is_direct(results, k - 1);
        let x = results[k - 1];
        assert(is_send_result(x));
        if x == Err::<(), CommonErrors>(CommonErrors::NoSpaceLeft) {
            assert(!(forall|i: int| 0 <= i < k ==> results[i] == Err::<(), CommonErrors>(CommonErrors::GenericError)));
        }
        if x == Ok::<(), CommonErrors>(()) {
            assert(!(forall|i: int| 0 <= i < k ==> results[i] == Err::<(), CommonErrors>(CommonErrors::GenericError)));
        }
        if (exists|i: int| 0 <= i < k - 1 && results[i] == Err::<(), CommonErrors>(CommonErrors::NoSpaceLeft)) {
            let i0 = choose|i: int| 0 <= i < k - 1 && results[i] == Err::<(), CommonErrors>(CommonErrors::NoSpaceLeft);
            assert(0 <= i0 < k && results[i0] == Err::<(), CommonErrors>(CommonErrors::NoSpaceLeft));
        }
    }
}

/// The result of a broadcast send to `chs`, one result per channel.
proof fn lemma_broadcast_result<T, W>(chs: Seq<SpscChannel<T, W>>)
    ensures
        fold_results(send_results(chs), chs.len() as int).0 == broadcast_result(send_results(chs)),
{
    let results = send_results(chs);
    lemma_fold_is_direct(results, chs.len() as int);
}

/// When every subscribed receiver is gone, a broadcast send reports it with
/// `GenericError`.
pub proof fn law_all_gone_reported<T, W>(chs: Seq<SpscChannel<T, W>>, n: int)
    requires
        0 < n <= chs.len(),
        forall|i: int| 0 <= i < n ==> (#[trigger] chs[i]).state_spec() == RECV_GONE,
    ensures
        broadcast_result(send_results(chs.take(n))) == Err::<(), CommonErrors>(CommonErrors::GenericError),
{
    let results = send_results(chs.take(n));
    assert forall|i: int| 0 <= i < results.len() implies results[i] == Err::<(), CommonErrors>(
        CommonErrors::GenericError,
    ) by {
        assert(chs.take(n)[i] == chs[i]);
    }
}

/// When every subscribed channel accepts the value, a broadcast send succeeds.
pub proof fn law_all_accepting_is_ok<T, W>(chs: Seq<SpscChannel<T, W>>, n: int)
    requires
        0 <= n <= chs.len(),
        forall|i: int| 0 <= i < n ==> (#[trigger] chs[i]).send_result() is Ok,
    ensures
        broadcast_result(send_results(chs.take(n))) == Ok::<(), CommonErrors>(()),
{
    let results = send_results(chs.take(n));
    assert forall|i: int| 0 <= i < results.len() implies results[i] is Ok by {
        assert(chs.take(n)[i] == chs[i]);
    }
    if n > 0 {
        assert(results[0] is Ok);
    }
}

/// Values leave a channel in the order they were sent: after an accepted
/// send, the next receive gives the oldest value queued before the send, or
/// the sent value itself when nothing was queued.
pub proof fn law_receive_in_send_order<T, W>(
    c0: SpscChannel<T, W>,
    c1: SpscChannel<T, W>,
    c2: SpscChannel<T, W>,
    v: T,
    w: W,
    r: Result<T, CommonErrors>,
)
    requires
        c0.send_result() is Ok,
        SpscChannel::sent(c0, c1, v),
        SpscChannel::received(c1, c2, w, r),
    ensures
        c0.values().len() > 0 ==> r == Ok::<T, CommonErrors>(c0.values()[0]) && c2.values()
            == c0.values().drop_first().push(v),
        c0.values().len() == 0 ==> r == Ok::<T, CommonErrors>(v) && c2.values().len() == 0,
{
    assert(c1.values() == c0.values().push(v));
    if c0.values().len() > 0 {
        assert(c0.values().push(v).drop_first() =~= c0.values().drop_first().push(v));
    }
}

/// What a receive means to the future awaiting it: a value finishes it with
/// that value; no data yet leaves it pending; any other error finishes it
/// with `None` (the channel is done).
pub fn receive_outcome<T>(res: Result<T, CommonErrors>) -> (r: FutureInternalReturn<Option<T>>)
    ensures
        res matches Ok(v) ==> r.0 == FutureState::Finished && r.1 == Some(Some(v)),
        res matches Err(e) ==> (if e == CommonErrors::NoData {
            r.0 == FutureState::Polled && r.1 is None
        } else {
            r.0 == FutureState::Finished && r.1 == Some(None::<T>)
        }),
{
    match res {
        Ok(v) => FutureInternalReturn::ready(Some(v)),
        Err(CommonErrors::NoData) => FutureInternalReturn::polled(),
        Err(_) => FutureInternalReturn::ready(None),
    }
}

/// The results of sending to each of `chs`, in order.
pub open spec fn send_results<T, W>(chs: Seq<SpscChannel<T, W>>) -> Seq<Result<(), CommonErrors>> {
    Seq::new(chs.len(), |i: int| chs[i].send_result())
}

/// The wakers a send to each of `chs` hands out, in channel order: those of
/// the channels that accept the value and have a waiting receiver.
pub open spec fn send_wakers<T, W>(chs: Seq<SpscChannel<T, W>>) -> Seq<W>
    decreases chs.len(),
{
    if chs.len() == 0 {
        Seq::empty()
    } else {
        let rest = send_wakers(chs.drop_last());
        let c = chs.last();
        if c.send_result() is Ok && c.waker_spec() is Some {
            rest.push(c.waker_spec()->0)
        } else {
            rest
        }
    }
}

/// The waker a channel gives up on a send: its receiver's, when it accepts
/// the value and a receiver waits.
pub open spec fn waker_on_send<T, W>(c: SpscChannel<T, W>) -> Option<W> {
    if c.send_result() is Ok {
        c.waker_spec()
    } else {
        None
    }
}

/// A broadcast send wakes every waiting receiver that gets the value and no
/// one else: the wakers handed out are exactly those of the channels that
/// accept the value and hold a waiting receiver, each once, in channel order.
pub proof fn law_send_wakes_every_waiting_receiver<T, W>(chs: Seq<SpscChannel<T, W>>)
    ensures
        send_wakers(chs) == chs.filter_map(|c: SpscChannel<T, W>| waker_on_send(c)),
        forall|i: int|
            #![trigger chs[i]]
            0 <= i < chs.len() && chs[i].send_result() is Ok && chs[i].waker_spec() is Some
                ==> send_wakers(chs).contains(chs[i].waker_spec()->0),
        forall|k: int|
            0 <= k < send_wakers(chs).len() ==> exists|i: int|
                0 <= i < chs.len() && chs[i].send_result() is Ok && chs[i].waker_spec() == Some(
                    #[trigger] send_wakers(chs)[k],
                ),
    decreases chs.len(),
{
    if chs.len() > 0 {
        let rest = chs.drop_last();
        law_send_wakes_every_waiting_receiver(rest);
        let c = chs.last();
        let n = chs.len() - 1;
        assert(chs[n] == c);
        if c.send_result() is Ok && c.waker_spec() is Some {
            assert(send_wakers(chs) =~= send_wakers(rest) + seq![c.waker_spec()->0]);
            assert(send_wakers(chs)[send_wakers(rest).len() as int] == c.waker_spec()->0);
        } else {
            assert(send_wakers(chs) =~= send_wakers(rest) + Seq::<W>::empty());
        }
        assert forall|i: int|
            #![trigger chs[i]]
            0 <= i < chs.len() && chs[i].send_result() is Ok && chs[i].waker_spec() is Some
                implies send_wakers(chs).contains(chs[i].waker_spec()->0) by {
            if i < n {
                assert(rest[i] == chs[i]);
                let k = choose|k: int| 0 <= k < send_wakers(rest).len() && send_wakers(rest)[k] == rest[i].waker_spec()->0;
                assert(send_wakers(chs)[k] == send_wakers(rest)[k]);
            }
        }
        assert forall|k: int| 0 <= k < send_wakers(chs).len() implies exists|i: int|
            0 <= i < chs.len() && chs[i].send_result() is Ok && chs[i].waker_spec() == Some(
                #[trigger] send_wakers(chs)[k],
            ) by {
            if k < send_wakers(rest).len() {
                assert(send_wakers(chs)[k] == send_wakers(rest)[k]);
                let i = choose|i: int|
                    0 <= i < rest.len() && rest[i].send_result() is Ok && rest[i].waker_spec() == Some(
                        #[trigger] send_wakers(rest)[k],
                    );
                assert(rest[i] == chs[i]);
            } else {
                assert(chs[n].waker_spec() == Some(send_wakers(chs)[k]));
            }
        }
    }
}

/// The wakers the departure of the sender hands out, in channel order: those
/// of the channels whose receiver is still connected and waits.
pub open spec fn sender_drop_wakers<T, W>(chs: Seq<SpscChannel<T, W>>) -> Seq<W>
    decreases chs.len(),
{
    if chs.len() == 0 {
        Seq::empty()
    } else {
        let rest = sender_drop_wakers(chs.drop_last());
        let c = chs.last();
        if c.state_spec() == BOTH_IN && c.waker_spec() is Some {
            rest.push(c.waker_spec()->0)
        } else {
            rest
        }
    }
}

/// A broadcast channel: one single-producer single-consumer channel per
/// possible receiver, and the number of receivers subscribed so far.
pub struct BroadcastChannel<T, W> {
    channels: Vec<SpscChannel<T, W>>,
    next_free_receiver: usize,
}

impl<T: Copy, W> BroadcastChannel<T, W> {
    /// The channels, by receiver index.
    pub closed spec fn channels_spec(&self) -> Seq<SpscChannel<T, W>> {
        self.channels@
    }

    /// The number of receivers subscribed so far.
    pub closed spec fn subscribed(&self) -> nat {
        self.next_free_receiver as nat
    }

    /// Every channel is well formed and the subscribed receivers have channels.
    pub closed spec fn wf(&self) -> bool {
        &&& forall|i: int| 0 <= i < self.channels@.len() ==> (#[trigger] self.channels@[i]).wf()
        &&& self.next_free_receiver as nat <= self.channels@.len()
    }

    /// What well-formedness gives callers: no more receivers are subscribed
    /// than there are channels, and every channel is well formed.
    pub proof fn lemma_wf(&self)
        requires
            self.wf(),
        ensures
            self.subscribed() <= self.channels_spec().len(),
            forall|i: int| 0 <= i < self.channels_spec().len() ==> (#[trigger] self.channels_spec()[i]).wf(),
    {
    }

    /// A broadcast channel for up to `size` receivers, each with a queue of `capacity` values.
    pub fn new(size: usize, capacity: usize) -> (r: Self)
        ensures
            r.wf(),
            r.channels_spec().len() == size,
            r.subscribed() == 0,
            forall|i: int| 0 <= i < size ==> (#[trigger] r.channels_spec()[i]).values() == Seq::<T>::empty()
                && r.channels_spec()[i].state_spec() == BOTH_IN && r.channels_spec()[i].capacity_spec() == capacity
                && r.channels_spec()[i].waker_spec() is None,
    {
        let mut v: Vec<SpscChannel<T, W>> = Vec::new();
        let mut i: usize = 0;
        while i < size
            invariant
                i <= size,
                v@.len() == i,
                forall|j: int| 0 <= j < i ==> (#[trigger] v@[j]).wf() && v@[j].values() == Seq::<T>::empty()
                    && v@[j].state_spec() == BOTH_IN && v@[j].capacity_spec() == capacity && v@[j].waker_spec() is None,
            decreases size - i,
        {
            v.push(SpscChannel::new(capacity));
            i = i + 1;
        }
        BroadcastChannel { channels: v, next_free_receiver: 0 }
    }

    /// The number of subscribed receivers.
    pub fn len(&self) -> (r: usize)
        ensures
            r == self.subscribed(),
    {
        self.next_free_receiver
    }

    /// Subscribes a receiver: its channel index, or `None` when every channel
    /// is taken.
    pub fn subscribe(&mut self) -> (r: Option<usize>)
        requires
            old(self).wf(),
        ensures
            final(self).wf(),
            final(self).channels_spec() == old(self).channels_spec(),
            old(self).subscribed() >= old(self).channels_spec().len() ==> r is None && final(self).subscribed()
                == old(self).subscribed(),
            old(self).subscribed() < old(self).channels_spec().len() ==> r == Some(old(self).subscribed() as usize)
                && final(self).subscribed() == old(self).subscribed() + 1,
    {
        let curr = self.next_free_receiver;
        if curr >= self.channels.len() {
            return None;
        }
        self.next_free_receiver = curr + 1;
        Some(curr)
    }
    /// Sends `value` to every subscribed receiver. The result folds the
    /// per-channel results (see `broadcast_result`): `GenericError` only when every
    /// subscribed receiver is gone, otherwise the last other error, otherwise
    /// `Ok`. Hands back the wakers of the receivers to call.
    pub fn send(&mut self, value: T) -> (r: (Result<(), CommonErrors>, Vec<W>))
        requires
            old(self).wf(),
        ensures
            final(self).wf(),
            final(self).subscribed() == old(self).subscribed(),
            final(self).channels_spec().len() == old(self).channels_spec().len(),
            forall|c: int|
                0 <= c < old(self).subscribed() ==> #[trigger] SpscChannel::sent(
                    old(self).channels_spec()[c],
                    final(self).channels_spec()[c],
                    value,
                ),
            forall|c: int|
                old(self).subscribed() <= c < old(self).channels_spec().len() ==> #[trigger] final(self).channels_spec()[c]
                    == old(self).channels_spec()[c],
            r.0 == broadcast_result(send_results(old(self).channels_spec().take(old(self).subscribed() as int))),
            r.1@ == send_wakers(old(self).channels_spec().take(old(self).subscribed() as int)),
            forall|i: int|
                0 <= i < old(self).subscribed() && (#[trigger] old(self).channels_spec()[i]).send_result() is Ok
                    && old(self).channels_spec()[i].waker_spec() is Some ==> r.1@.contains(
                    old(self).channels_spec()[i].waker_spec()->0,
                ),
    {
        let len = self.next_free_receiver;
        let ghost old_chs = self.channels@;
        let ghost results = send_results(old_chs.take(len as int));
        let mut ret: Result<(), CommonErrors> = Ok(());
        let mut gone: usize = 0;
        let mut wakers: Vec<W> = Vec::new();
        let mut c: usize = 0;
        while c < len
            invariant
                c <= len,
                len <= old_chs.len(),
                len == old(self).next_free_receiver,
                self.next_free_receiver == old(self).next_free_receiver,
                self.channels@.len() == old_chs.len(),
                old_chs == old(self).channels@,
                results == send_results(old_chs.take(len as int)),
                forall|i: int| 0 <= i < self.channels@.len() ==> (#[trigger] self.channels@[i]).wf(),
                forall|j: int| 0 <= j < c ==> #[trigger] SpscChannel::sent(old_chs[j], self.channels@[j], value),
                forall|j: int| c <= j < old_chs.len() ==> #[trigger] self.channels@[j] == old_chs[j],
                gone <= c,
                (ret, gone as nat) == fold_results(results, c as int),
                wakers@ == send_wakers(old_chs.take(c as int)),
            decreases len - c,
        {
            let (res, w) = self.channels[c].send(value);
            proof {
                assert(results[c as int] == old_chs[c as int].send_result());
                assert(old_chs.take(c as int + 1).drop_last() =~= old_chs.take(c as int));
                assert(old_chs.take(c as int + 1).last() == old_chs[c as int]);
            }
            match w {
                Some(waker) => {
                    wakers.push(waker);
                },
                None => {},
            }
            match res {
                Ok(_) => {},
                Err(CommonErrors::GenericError) => {
                    gone = gone + 1;
                    if gone == len {
                        ret = Err(CommonErrors::GenericError);
                    }
                },
                Err(e) => {
                    ret = Err(e);
                },
            }
            c = c + 1;
        }
        proof {
            lemma_broadcast_result(old_chs.take(len as int));
            let sub = old_chs.take(len as int);
            law_send_wakes_every_waiting_receiver(sub);
            assert forall|i: int|
                0 <= i < len && (#[trigger] old_chs[i]).send_result() is Ok && old_chs[i].waker_spec() is Some
                    implies wakers@.contains(old_chs[i].waker_spec()->0) by {
                assert(sub[i] == old_chs[i]);
            }
        }
        (ret, wakers)
    }

    /// Receives on the channel of receiver `index` (see `SpscChannel::received`).
    pub fn receive(&mut self, index: usize, waker: W) -> (r: Result<T, CommonErrors>)
        requires
            old(self).wf(),
            index < old(self).channels_spec().len(),
        ensures
            final(self).wf(),
            final(self).subscribed() == old(self).subscribed(),
            final(self).channels_spec() == old(self).channels_spec().update(
                index as int,
                final(self).channels_spec()[index as int],
            ),
            SpscChannel::received(
                old(self).channels_spec()[index as int],
                final(self).channels_spec()[index as int],
                waker,
                r,
            ),
    {
        let r = self.channels[index].receive(waker);
        proof {
            assert(self.channels@ =~= old(self).channels@.update(index as int, self.channels@[index as int]));
        }
        r
    }

    /// The receiver `index` goes away.
    pub fn receiver_dropping(&mut self, index: usize)
        requires
            old(self).wf(),
            index < old(self).channels_spec().len(),
        ensures
            final(self).wf(),
            final(self).subscribed() == old(self).subscribed(),
            final(self).channels_spec() == old(self).channels_spec().update(
                index as int,
                final(self).channels_spec()[index as int],
            ),
            SpscChannel::receiver_dropped(old(self).channels_spec()[index as int], final(self).channels_spec()[index as int]),
    {
        self.channels[index].receiver_dropping();
        proof {
            assert(self.channels@ =~= old(self).channels@.update(index as int, self.channels@[index as int]));
        }
    }

    /// The sender goes away: every channel learns it. Hands back the wakers of
    /// the waiting receivers to call.
    pub fn sender_dropping(&mut self) -> (r: Vec<W>)
        requires
            old(self).wf(),
        ensures
            final(self).wf(),
            final(self).subscribed() == old(self).subscribed(),
            final(self).channels_spec().len() == old(self).channels_spec().len(),
            forall|c: int|
                0 <= c < old(self).channels_spec().len() ==> #[trigger] SpscChannel::sender_dropped(
                    old(self).channels_spec()[c],
                    final(self).channels_spec()[c],
                    old(self).channels_spec()[c].sender_drop_waker(),
                ),
            r@ == sender_drop_wakers(old(self).channels_spec()),
    {
        let len = self.channels.len();
        let ghost old_chs = self.channels@;
        let mut wakers: Vec<W> = Vec::new();
        let mut c: usize = 0;
        while c < len
            invariant
                c <= len,
                len == old_chs.len(),
                self.next_free_receiver == old(self).next_free_receiver,
                self.channels@.len() == old_chs.len(),
                old_chs == old(self).channels@,
                forall|i: int| 0 <= i < self.channels@.len() ==> (#[trigger] self.channels@[i]).wf(),
                forall|j: int|
                    0 <= j < c ==> #[trigger] SpscChannel::sender_dropped(
                        old_chs[j],
                        self.channels@[j],
                        old_chs[j].sender_drop_waker(),
                    ),
                forall|j: int| c <= j < old_chs.len() ==> #[trigger] self.channels@[j] == old_chs[j],
                wakers@ == sender_drop_wakers(old_chs.take(c as int)),
            decreases len - c,
        {
            let w = self.channels[c].sender_dropping();
            proof {
                assert(old_chs.take(c as int + 1).drop_last() =~= old_chs.take(c as int));
                assert(old_chs.take(c as int + 1).last() == old_chs[c as int]);
            }
            match w {
                Some(waker) => {
                    wakers.push(waker);
                },
                None => {},
            }
            c = c + 1;
        }
        proof {
            assert(old_chs.take(len as int) =~= old_chs);
        }
        wakers
    }
}

} // verus!
