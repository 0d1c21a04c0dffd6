//! Bounded FIFO queues.

use vstd::prelude::*;

use std::collections::VecDeque;

verus! {

/// A FIFO queue that holds at most `capacity` items.
pub struct Queue<T> {
    data: VecDeque<T>,
    capacity: usize,
}

impl<T> View for Queue<T> {
    type V = Seq<T>;

    /// The items, oldest first.
    closed spec fn view(&self) -> Seq<T> {
        self.data@
    }
}

impl<T> Queue<T> {

    /// The most items the queue holds.
    pub closed spec fn capacity_spec(&self) -> nat {
        self.capacity as nat
    }

    /// The queue never holds more than its capacity.
    pub open spec fn wf(&self) -> bool {
        self.view().len() <= self.capacity_spec()
    }

    /// An empty queue for at most `capacity` items.
    pub fn new(capacity: usize) -> (r: Self)
        ensures
            r.wf(),
            r.view() == Seq::<T>::empty(),
            r.capacity_spec() == capacity,
    {
        Queue { data: VecDeque::new(), capacity }
    }

    /// The most items the queue holds.
    pub fn capacity(&self) -> (r: usize)
        ensures
            r == self.capacity_spec(),
    {
        self.capacity
    }

    /// The number of items.
    pub fn len(&self) -> (r: usize)
        ensures
            r == self.view().len(),
    {
        self.data.len()
    }

    /// Whether the queue holds no item.
    pub fn is_empty(&self) -> (r: bool)
        ensures
            r == (self.view().len() == 0),
    {
        self.data.len() == 0
    }

    /// Appends `item` unless the queue is full; returns whether it was appended.
    pub fn push(&mut self, item: T) -> (r: bool)
        requires
            old(self).wf(),
        ensures
            final(self).wf(),
            final(self).capacity_spec() == old(self).capacity_spec(),
            r == (old(self).view().len() < old(self).capacity_spec()),
            r ==> final(self).view() == old(self).view().push(item),
            !r ==> final(self).view() == old(self).view(),
    {
        if self.data.len() >= self.capacity {
            return false;
        }
        self.data.push_back(item);
        true
    }

    /// Removes and returns the oldest item, or `None` when empty.
    pub fn pop(&mut self) -> (r: Option<T>)
        requires
            old(self).wf(),
        ensures
            final(self).wf(),
            final(self).capacity_spec() == old(self).capacity_spec(),
            old(self).view().len() == 0 ==> r is None && final(self).view() == old(self).view(),
            old(self).view().len() > 0 ==> r == Some(old(self).view()[0]) && final(self).view()
                == old(self).view().drop_first(),
    {
        let r = self.data.pop_front();
        proof {
            if old(self).view().len() > 0 {
                assert(self.view() =~= old(self).view().drop_first());
            }
        }
        r
    }

    /// Removes up to `n` of the oldest items and returns them, oldest first.
    pub fn pop_up_to(&mut self, n: usize) -> (r: Vec<T>)
        requires
            old(self).wf(),
        ensures
            final(self).wf(),
            final(self).capacity_spec() == old(self).capacity_spec(),
            r@.len() == (if n < old(self).view().len() { n as nat } else { old(self).view().len() }),
            r@ == old(self).view().take(r@.len() as int),
            final(self).view() == old(self).view().skip(r@.len() as int),
    {
        let mut out: Vec<T> = Vec::new();
        let ghost orig = self.view();
        while out.len() < n && self.data.len() > 0
            invariant
                self.wf(),
                self.capacity_spec() == old(self).capacity_spec(),
                orig == old(self).view(),
                out@.len() <= n,
                out@.len() <= orig.len(),
                out@ == orig.take(out@.len() as int),
                self.view() == orig.skip(out@.len() as int),
            decreases self.data@.len(),
        {
            let x = self.pop().unwrap();
            out.push(x);
            proof {
                assert(out@ =~= orig.take(out@.len() as int));
                assert(self.view() =~= orig.skip(out@.len() as int));
            }
        }
        out
    }
}

/// Items leave a queue in the order they entered it: a push lands behind
/// every item already queued, so the item popped next is the same whether
/// the push happened or not, and the pushed item comes out last.
pub proof fn law_fifo<T>(s: Seq<T>, x: T)
    ensures
        s.len() > 0 ==> s.push(x)[0] == s[0] && s.push(x).drop_first() == s.drop_first().push(x),
        s.len() == 0 ==> s.push(x)[0] == x && s.push(x).drop_first().len() == 0,
{
    if s.len() > 0 {
        assert(s.push(x).drop_first() =~= s.drop_first().push(x));
    }
}

/// A multi-producer multi-consumer queue of bounded capacity; whoever shares
/// it serializes the accesses.
pub struct MpmcQueue<T> {
    inner: Queue<T>,
}

impl<T> View for MpmcQueue<T> {
    type V = Seq<T>;

    /// The items, oldest first.
    closed spec fn view(&self) -> Seq<T> {
        self.inner.view()
    }
}

impl<T> MpmcQueue<T> {

    /// The most items the queue holds.
    pub closed spec fn capacity_spec(&self) -> nat {
        self.inner.capacity_spec()
    }

    /// The queue never holds more than its capacity.
    pub open spec fn wf(&self) -> bool {
        self.view().len() <= self.capacity_spec()
    }

    /// An empty queue for at most `capacity` items.
    pub fn new(capacity: usize) -> (r: Self)
        ensures
            r.wf(),
            r.view() == Seq::<T>::empty(),
            r.capacity_spec() == capacity,
    {
        MpmcQueue { inner: Queue::new(capacity) }
    }

    /// Removes and returns the oldest item, or `None` when empty.
    pub fn pop(&mut self) -> (r: Option<T>)
        requires
            old(self).wf(),
        ensures
            final(self).wf(),
            final(self).capacity_spec() == old(self).capacity_spec(),
            old(self).view().len() == 0 ==> r is None && final(self).view() == old(self).view(),
            old(self).view().len() > 0 ==> r == Some(old(self).view()[0]) && final(self).view()
                == old(self).view().drop_first(),
    {
        self.inner.pop()
    }

    /// Appends `item` unless the queue is full; returns whether it was appended.
    pub fn push(&mut self, item: T) -> (r: bool)
        requires
            old(self).wf(),
        ensures
            final(self).wf(),
            final(self).capacity_spec() == old(self).capacity_spec(),
            r == (old(self).view().len() < old(self).capacity_spec()),
            r ==> final(self).view() == old(self).view().push(item),
            !r ==> final(self).view() == old(self).view(),
    {
        self.inner.push(item)
    }

    /// Whether the queue holds no item.
    pub fn is_empty(&self) -> (r: bool)
        ensures
            r == (self.view().len() == 0),
    {
        self.inner.is_empty()
    }

    /// The number of items.
    pub fn len(&self) -> (r: usize)
        ensures
            r == self.view().len(),
    {
        self.inner.len()
    }

    /// Takes every item out, oldest first.
    pub fn iter(&mut self) -> (r: Vec<T>)
        requires
            old(self).wf(),
        ensures
            final(self).wf(),
            r@ == old(self).view(),
            final(self).view() == Seq::<T>::empty(),
            final(self).capacity_spec() == old(self).capacity_spec(),
    {
        let n = self.inner.len();
        let r = self.inner.pop_up_to(n);
        proof {
            assert(r@ =~= old(self).view());
            assert(self.view() =~= Seq::<T>::empty());
        }
        r
    }
}

/// A push to a shared queue fails exactly when the queue is full, that is when
/// its length equals its capacity; a failed push leaves the queue as it was.
pub proof fn law_push_fails_iff_full<T>(q: MpmcQueue<T>)
    requires
        q.wf(),
    ensures
        !(q.view().len() < q.capacity_spec()) <==> q.view().len() == q.capacity_spec(),
{
}

} // verus!
