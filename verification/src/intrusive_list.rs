//! A FIFO list of items that are found again by their key.
//!
//! The list owns its items; every item carries a key and no two items of a
//! list share one, so an item can be removed again by naming it.

use vstd::prelude::*;

verus! {

/// An item that can be stored in a [`List`]: it is identified by its key.
pub trait Item {
    /// The key of the item.
    spec fn item_key(&self) -> u64;

    /// Returns the key of the item.
    fn key(&self) -> (k: u64)
        ensures
            k == self.item_key(),
    ;
}

/// The keys of a sequence of items.
pub open spec fn keys_of<I: Item>(s: Seq<I>) -> Seq<u64> {
    s.map_values(|i: I| i.item_key())
}

/// Keeps the elements of `s` for which `drop` is false, in order.
pub open spec fn keep_unmarked<I>(s: Seq<I>, drop: Seq<bool>) -> Seq<I>
    decreases s.len(),
{
    if s.len() == 0 {
        Seq::empty()
    } else {
        let rest = keep_unmarked(s.drop_last(), drop.take(s.len() - 1));
        if drop[s.len() - 1] {
            rest
        } else {
            rest.push(s.last())
        }
    }
}

/// Keeps the elements of `s` for which `drop` is true, in order.
pub open spec fn keep_marked<I>(s: Seq<I>, drop: Seq<bool>) -> Seq<I>
    decreases s.len(),
{
    if s.len() == 0 {
        Seq::empty()
    } else {
        let rest = keep_marked(s.drop_last(), drop.take(s.len() - 1));
        if drop[s.len() - 1] {
            rest.push(s.last())
        } else {
            rest
        }
    }
}

/// A FIFO list of items with distinct keys.
pub struct List<I> {
    items: Vec<I>,
}

impl<I: Item> View for List<I> {
    type V = Seq<I>;

    /// The items in list order.
    closed spec fn view(&self) -> Seq<I> {
        self.items@
    }
}

impl<I: Item> List<I> {

    /// No two items of the list share a key.
    pub open spec fn wf(&self) -> bool {
        keys_of(self.view()).no_duplicates()
    }

    /// Creates an empty list.
    pub fn new() -> (r: Self)
        ensures
            r.view() == Seq::<I>::empty(),
            r.wf(),
    {
        List { items: Vec::new() }
    }

    /// Appends `item` at the back of the list. No item of the list may share its key.
    pub fn push_back(&mut self, item: I)
        requires
            old(self).wf(),
            !keys_of(old(self).view()).contains(item.item_key()),
        ensures
            final(self).view() == old(self).view().push(item),
            final(self).view().len() == old(self).view().len() + 1,
            final(self).wf(),
    {
        let ghost k = item.item_key();
        self.items.push(item);
        proof {
            assert(keys_of(self.view()) =~= keys_of(old(self).view()).push(k));
        }
    }

    /// Removes and returns the item at the front, or `None` when the list is empty.
    pub fn pop_front(&mut self) -> (r: Option<I>)
        requires
            old(self).wf(),
        ensures
            final(self).wf(),
            old(self).view().len() == 0 ==> r is None && final(self).view() == old(self).view(),
            old(self).view().len() > 0 ==> r == Some(old(self).view()[0]) && final(self).view()
                == old(self).view().subrange(1, old(self).view().len() as int),
            r is Some ==> final(self).view().len() == old(self).view().len() - 1,
    {
        if self.items.len() == 0 {
            None
        } else {
            let x = self.items.remove(0);
            proof {
                assert(keys_of(self.view()) =~= keys_of(old(self).view()).subrange(
                    1,
                    old(self).view().len() as int,
                ));
            }
            Some(x)
        }
    }

    /// Removes every item for which `f` returns `true`; the others keep their order.
    /// Returns the removed items, in list order.
    pub fn remove_if<F: Fn(&I) -> bool>(&mut self, f: F) -> (removed: Vec<I>)
        requires
            old(self).wf(),
            forall|x: I| #[trigger] f.requires((&x,)),
        ensures
            final(self).wf(),
            exists|drop: Seq<bool>|
                {
                    &&& drop.len() == old(self).view().len()
                    &&& forall|i: int|
                        0 <= i < drop.len() ==> #[trigger] f.ensures((&old(self).view()[i],), drop[i])
                    &&& final(self).view() == keep_unmarked(old(self).view(), drop)
                    &&& removed@ == keep_marked(old(self).view(), drop)
                },
            final(self).view().len() + removed@.len() == old(self).view().len(),
    {
        let mut rest: Vec<I> = Vec::new();
        std::mem::swap(&mut rest, &mut self.items);
        let ghost orig = rest@;
        let total = rest.len();
        assert(total == orig.len());
        let mut kept: Vec<I> = Vec::new();
        let mut gone: Vec<I> = Vec::new();
        let ghost mut drop: Seq<bool> = Seq::empty();
        let mut idx: usize = 0;
        while rest.len() > 0
            invariant
                idx <= orig.len(),
                rest@ == orig.subrange(idx as int, orig.len() as int),
                drop.len() == idx,
                forall|i: int| 0 <= i < idx ==> #[trigger] f.ensures((&orig[i],), drop[i]),
                kept@ == keep_unmarked(orig.take(idx as int), drop),
                gone@ == keep_marked(orig.take(idx as int), drop),
                forall|x: I| #[trigger] f.requires((&x,)),
                orig.len() <= usize::MAX,
            decreases rest.len(),
        {
            assert(idx < orig.len());
            let x = rest.remove(0);
            let d = f(&x);
            proof {
                assert(x == orig[idx as int]);
                let t1 = orig.take(idx as int + 1);
                assert(t1.drop_last() =~= orig.take(idx as int));
                assert(drop.push(d).take(idx as int) =~= drop);
                drop = drop.push(d);
            }
            if !d {
                kept.push(x);
            } else {
                gone.push(x);
            }
            idx = idx + 1;
            proof {
                assert(rest@ =~= orig.subrange(idx as int, orig.len() as int));
            }
        }
        proof {
            assert(orig.take(idx as int) =~= orig);
            lemma_keep_unmarked_subseq(orig, drop);
            lemma_parts_len(orig, drop);
        }
        self.items = kept;
        proof {
            assert(keys_of(self.view()).no_duplicates()) by {
                lemma_keep_unmarked_keys(orig, drop);
            }
        }
        gone
    }

    /// Removes the item that has the key of `item`. Returns `true` when one was found.
    pub fn remove(&mut self, item: &I) -> (r: bool)
        requires
            old(self).wf(),
        ensures
            final(self).wf(),
            r == keys_of(old(self).view()).contains(item.item_key()),
            r ==> exists|j: int|
                0 <= j < old(self).view().len() && old(self).view()[j].item_key() == item.item_key()
                    && final(self).view() == old(self).view().remove(j),
            !r ==> final(self).view() == old(self).view(),
            final(self).view().len() == old(self).view().len() - (if r { 1int } else { 0 }),
    {
        let k = item.key();
        let mut i: usize = 0;
        while i < self.items.len()
            invariant
                i <= self.items.len(),
                self.items@ == old(self).view(),
                forall|j: int| 0 <= j < i ==> self.items@[j].item_key() != k,
                k == item.item_key(),
                old(self).wf(),
            decreases self.items.len() - i,
        {
            if self.items[i].key() == k {
                let ghost before = self.items@;
                let _ = self.items.remove(i);
                proof {
                    assert(keys_of(before)[i as int] == k);
                    assert(keys_of(self.view()) =~= keys_of(before).remove(i as int));
                    lemma_remove_keeps_distinct(keys_of(before), i as int);
                }
                return true;
            }
            i = i + 1;
        }
        proof {
            if keys_of(old(self).view()).contains(k) {
                let j = choose|j: int| 0 <= j < keys_of(old(self).view()).len() && keys_of(old(self).view())[j] == k;
                assert(old(self).view()[j].item_key() == k);
            }
        }
        false
    }

    /// The number of items.
    pub fn len(&self) -> (r: usize)
        ensures
            r == self.view().len(),
    {
        self.items.len()
    }

    /// Returns `true` when the list holds no item.
    pub fn is_empty(&self) -> (r: bool)
        ensures
            r == (self.view().len() == 0),
    {
        self.items.len() == 0
    }
}

/// Removing one element keeps the elements of a sequence distinct.
proof fn lemma_remove_keeps_distinct(s: Seq<u64>, i: int)
    requires
        s.no_duplicates(),
        0 <= i < s.len(),
    ensures
        s.remove(i).no_duplicates(),
{
    let r = s.remove(i);
    assert forall|a: int, b: int| 0 <= a < b < r.len() implies r[a] != r[b] by {
        let a2 = if a < i { a } else { a + 1 };
        let b2 = if b < i { b } else { b + 1 };
        assert(r[a] == s[a2]);
        assert(r[b] == s[b2]);
    }
}

/// Every element kept by `keep_unmarked` comes from the input sequence, in order.
proof fn lemma_keep_unmarked_subseq<I>(s: Seq<I>, drop: Seq<bool>)
    requires
        drop.len() == s.len(),
    ensures
        keep_unmarked(s, drop).len() <= s.len(),
    decreases s.len(),
{
    if s.len() > 0 {
        lemma_keep_unmarked_subseq(s.drop_last(), drop.take(s.len() - 1));
    }
}

/// The keys of the kept elements are a subsequence of the keys, so distinct keys stay distinct.
proof fn lemma_keep_unmarked_keys<I: Item>(s: Seq<I>, drop: Seq<bool>)
    requires
        drop.len() == s.len(),
        keys_of(s).no_duplicates(),
    ensures
        keys_of(keep_unmarked(s, drop)).no_duplicates(),
        forall|x: I| keep_unmarked(s, drop).contains(x) ==> s.contains(x),
    decreases s.len(),
{
    if s.len() > 0 {
        let sp = s.drop_last();
        let dp = drop.take(s.len() - 1);
        assert(keys_of(sp) =~= keys_of(s).drop_last());
        lemma_keep_unmarked_keys(sp, dp);
        let rest = keep_unmarked(sp, dp);
        if !drop[s.len() - 1] {
            let last = s.last();
            assert(keys_of(rest.push(last)) =~= keys_of(rest).push(last.item_key()));
            assert forall|x: I| rest.push(last).contains(x) implies s.contains(x) by {
                if x != last {
                    let j = choose|j: int| 0 <= j < rest.push(last).len() && rest.push(last)[j] == x;
                    assert(rest.contains(x));
                    assert(sp.contains(x));
                    let m = choose|m: int| 0 <= m < sp.len() && sp[m] == x;
                    assert(sp[m] == s[m]);
                    assert(s[m] == x);
                } else {
                    assert(s[s.len() - 1] == x);
                }
            }
            assert forall|a: int, b: int|
                0 <= a < b < keys_of(rest.push(last)).len() implies keys_of(rest.push(last))[a]
                != keys_of(rest.push(last))[b] by {
                if b == rest.len() {
                    let x = rest[a];
                    assert(rest.contains(x));
                    assert(sp.contains(x));
                    let m = choose|m: int| 0 <= m < sp.len() && sp[m] == x;
                    assert(keys_of(s)[m] == x.item_key());
                    assert(keys_of(s)[s.len() - 1] == last.item_key());
                }
            }
        } else {
            assert forall|x: I| rest.contains(x) implies s.contains(x) by {
                assert(sp.contains(x));
                let m = choose|m: int| 0 <= m < sp.len() && sp[m] == x;
                assert(sp[m] == s[m]);
                assert(s[m] == x);
            }
        }
    }
}

/// Every element of either part of a marking comes from the sequence.
pub proof fn lemma_parts_come_from<I>(s: Seq<I>, drop: Seq<bool>)
    requires
        drop.len() == s.len(),
    ensures
        forall|x: I| keep_unmarked(s, drop).contains(x) ==> s.contains(x),
        forall|x: I| keep_marked(s, drop).contains(x) ==> s.contains(x),
    decreases s.len(),
{
    if s.len() > 0 {
        let sp = s.drop_last();
        let dp = drop.take(s.len() - 1);
        lemma_parts_come_from(sp, dp);
        assert(s[s.len() - 1] == s.last());
        assert forall|x: I| sp.contains(x) implies s.contains(x) by {
            let m = choose|m: int| 0 <= m < sp.len() && sp[m] == x;
            assert(s[m] == x);
        }
        assert forall|x: I| keep_unmarked(s, drop).contains(x) implies s.contains(x) by {
            let rest = keep_unmarked(sp, dp);
            if !drop[s.len() - 1] && x != s.last() {
                let m = choose|m: int| 0 <= m < rest.push(s.last()).len() && rest.push(s.last())[m] == x;
                assert(rest[m] == x);
            }
        }
        assert forall|x: I| keep_marked(s, drop).contains(x) implies s.contains(x) by {
            let rest = keep_marked(sp, dp);
            if drop[s.len() - 1] && x != s.last() {
                let m = choose|m: int| 0 <= m < rest.push(s.last()).len() && rest.push(s.last())[m] == x;
                assert(rest[m] == x);
            }
        }
    }
}

/// A marked element lands in the marked part, an unmarked one in the kept part.
pub proof fn lemma_mark_sorts_element<I>(s: Seq<I>, drop: Seq<bool>, j: int)
    requires
        drop.len() == s.len(),
        0 <= j < s.len(),
    ensures
        drop[j] ==> keep_marked(s, drop).contains(s[j]),
        !drop[j] ==> keep_unmarked(s, drop).contains(s[j]),
    decreases s.len(),
{
    let n = s.len() - 1;
    let sp = s.drop_last();
    let dp = drop.take(n);
    if j == n {
        let a = keep_marked(sp, dp);
        let b = keep_unmarked(sp, dp);
        if drop[j] {
            assert(a.push(s.last())[a.len() as int] == s[j]);
        } else {
            assert(b.push(s.last())[b.len() as int] == s[j]);
        }
    } else {
        lemma_mark_sorts_element(sp, dp, j);
        assert(sp[j] == s[j]);
        assert(dp[j] == drop[j]);
        let a = keep_marked(sp, dp);
        let b = keep_unmarked(sp, dp);
        if drop[j] {
            let m = choose|m: int| 0 <= m < a.len() && a[m] == s[j];
            if drop[n] {
                assert(a.push(s.last())[m] == s[j]);
            }
        } else {
            let m = choose|m: int| 0 <= m < b.len() && b[m] == s[j];
            if !drop[n] {
                assert(b.push(s.last())[m] == s[j]);
            }
        }
    }
}

/// With distinct keys, no element of the other part shares the key of an
/// element: a marked element's key is not in the kept part, an unmarked
/// element's key not in the marked part.
pub proof fn lemma_key_in_one_part<I: Item>(s: Seq<I>, drop: Seq<bool>, j: int)
    requires
        drop.len() == s.len(),
        0 <= j < s.len(),
        keys_of(s).no_duplicates(),
    ensures
        drop[j] ==> forall|x: I| #[trigger] keep_unmarked(s, drop).contains(x) ==> x.item_key() != s[j].item_key(),
        !drop[j] ==> forall|x: I| #[trigger] keep_marked(s, drop).contains(x) ==> x.item_key() != s[j].item_key(),
    decreases s.len(),
{
    let n = s.len() - 1;
    let sp = s.drop_last();
    let dp = drop.take(n);
    assert(keys_of(sp) =~= keys_of(s).drop_last());
    lemma_parts_come_from(sp, dp);
    let a = keep_marked(sp, dp);
    let b = keep_unmarked(sp, dp);
    if j == n {
        assert forall|x: I| sp.contains(x) implies x.item_key() != s[j].item_key() by {
            let m = choose|m: int| 0 <= m < sp.len() && sp[m] == x;
            assert(keys_of(s)[m] == x.item_key());
            assert(keys_of(s)[n] == s[j].item_key());
        }
        if drop[j] {
            assert(keep_unmarked(s, drop) == b);
            assert forall|x: I| #[trigger] keep_unmarked(s, drop).contains(x) implies x.item_key() != s[j].item_key() by {
                assert(b.contains(x));
                assert(sp.contains(x));
                let m = choose|m: int| 0 <= m < sp.len() && sp[m] == x;
                assert(keys_of(s)[m] == x.item_key());
                assert(keys_of(s)[n] == s[j].item_key());
            }
        } else {
            assert(keep_marked(s, drop) == a);
            assert forall|x: I| #[trigger] keep_marked(s, drop).contains(x) implies x.item_key() != s[j].item_key() by {
                assert(a.contains(x));
                assert(sp.contains(x));
                let m = choose|m: int| 0 <= m < sp.len() && sp[m] == x;
                assert(keys_of(s)[m] == x.item_key());
                assert(keys_of(s)[n] == s[j].item_key());
            }
        }
    } else {
        lemma_key_in_one_part(sp, dp, j);
        assert(sp[j] == s[j]);
        assert(dp[j] == drop[j]);
        assert(s.last().item_key() != s[j].item_key()) by {
            assert(keys_of(s)[n] == s.last().item_key());
            assert(keys_of(s)[j] == s[j].item_key());
        }
        if drop[j] {
            assert forall|x: I| #[trigger] keep_unmarked(s, drop).contains(x) implies x.item_key() != s[j].item_key() by {
                if x != s.last() {
                    if !drop[n] {
                        let m = choose|m: int| 0 <= m < b.push(s.last()).len() && b.push(s.last())[m] == x;
                        assert(b[m] == x);
                    }
                    assert(b.contains(x));
                }
            }
        } else {
            assert forall|x: I| #[trigger] keep_marked(s, drop).contains(x) implies x.item_key() != s[j].item_key() by {
                if x != s.last() {
                    if drop[n] {
                        let m = choose|m: int| 0 <= m < a.push(s.last()).len() && a.push(s.last())[m] == x;
                        assert(a[m] == x);
                    }
                    assert(a.contains(x));
                }
            }
        }
    }
}

/// The two parts of a marking together are as long as the sequence.
proof fn lemma_parts_len<I>(s: Seq<I>, drop: Seq<bool>)
    requires
        drop.len() == s.len(),
    ensures
        keep_unmarked(s, drop).len() + keep_marked(s, drop).len() == s.len(),
    decreases s.len(),
{
    if s.len() > 0 {
        lemma_parts_len(s.drop_last(), drop.take(s.len() - 1));
    }
}

/// The sum of a sequence of counts.
pub open spec fn total(s: Seq<nat>) -> nat
    decreases s.len(),
{
    if s.len() == 0 {
        0
    } else {
        total(s.drop_last()) + s.last()
    }
}

/// The lengths `lens` a list goes through over a series of calls, where call
/// `i` adds `added[i]` items and takes `taken[i]` out: one for `push_back`,
/// one for a `pop_front` that gives an item or a `remove` that finds one, and
/// as many as `remove_if` hands out.
pub open spec fn len_steps(lens: Seq<nat>, added: Seq<nat>, taken: Seq<nat>) -> bool {
    &&& lens.len() == added.len() + 1
    &&& added.len() == taken.len()
    &&& forall|i: int| 0 <= i < added.len() ==> #[trigger] lens[i + 1] + taken[i] == lens[i] + added[i]
}

/// Over a series of calls the length of a list counts them: the final length
/// plus everything taken out is the first length plus everything added.
pub proof fn law_len_counts(lens: Seq<nat>, added: Seq<nat>, taken: Seq<nat>)
    requires
        len_steps(lens, added, taken),
    ensures
        lens.last() + total(taken) == lens[0] + total(added),
    decreases added.len(),
{
    if added.len() > 0 {
        let n = added.len() - 1;
        let l2 = lens.drop_last();
        let a2 = added.drop_last();
        let t2 = taken.drop_last();
        assert forall|i: int| 0 <= i < a2.len() implies #[trigger] l2[i + 1] + t2[i] == l2[i] + a2[i] by {
            assert(lens[i + 1] + taken[i] == lens[i] + added[i]);
        }
        law_len_counts(l2, a2, t2);
        assert(lens[n + 1] + taken[n] == lens[n] + added[n]);
    }
}

} // verus!
