//! `swap_remove` and `remove` for the fixed-capacity vector of
//! `iceoryx2_bb_container`, holding `usize` items (worker indexes).

use vstd::prelude::*;

verus! {

/// The fixed-capacity vector of `iceoryx2_bb_container`, holding `usize` items.
/// It is held in a private field: its generic type, whose pointer parameter
/// carries trait bounds, is not declared itself.
#[verifier::external_body]
pub struct FixedVec {
    inner: iceoryx2_bb_container::vec::Vec<usize>,
}

/// The items of a fixed-capacity vector, in order.
pub uninterp spec fn fixed_vec_items(v: FixedVec) -> Seq<usize>;

/// The capacity a fixed-capacity vector was created with.
pub uninterp spec fn fixed_vec_capacity(v: FixedVec) -> nat;

impl FixedVec {
    /// `Vec::new` of `iceoryx2_bb_container`: an empty vector that can hold
    /// `capacity` items. The allocation size is computed unchecked, so the
    /// capacity is kept well inside the address space.
    #[verifier::external_body]
    pub(crate) fn iox_new(capacity: usize) -> (r: FixedVec)
        requires
            capacity <= 0x0FFF_FFFF_FFFF_FFFF,
        ensures
            fixed_vec_items(r) == Seq::<usize>::empty(),
            fixed_vec_capacity(r) == capacity,
    {
        FixedVec { inner: iceoryx2_bb_container::vec::Vec::new(capacity) }
    }

    /// `Vec::len` of `iceoryx2_bb_container`: the number of items.
    #[verifier::external_body]
    pub(crate) fn iox_len(&self) -> (r: usize)
        ensures
            r == fixed_vec_items(*self).len(),
    {
        self.inner.len()
    }

    /// `Vec::capacity` of `iceoryx2_bb_container`: the capacity it was made with.
    #[verifier::external_body]
    pub(crate) fn iox_capacity(&self) -> (r: usize)
        ensures
            r == fixed_vec_capacity(*self),
    {
        self.inner.capacity()
    }

    /// `Vec::push` of `iceoryx2_bb_container`: appends `x` unless the vector is
    /// full; returns whether it did.
    #[verifier::external_body]
    pub(crate) fn iox_push(&mut self, x: usize) -> (r: bool)
        ensures
            fixed_vec_capacity(*final(self)) == fixed_vec_capacity(*old(self)),
            r == (fixed_vec_items(*old(self)).len() < fixed_vec_capacity(*old(self))),
            r ==> fixed_vec_items(*final(self)) == fixed_vec_items(*old(self)).push(x),
            !r ==> fixed_vec_items(*final(self)) == fixed_vec_items(*old(self)),
    {
        self.inner.push(x)
    }

    /// `Vec::pop` of `iceoryx2_bb_container`: removes and returns the last item.
    #[verifier::external_body]
    pub(crate) fn iox_pop(&mut self) -> (r: Option<usize>)
        ensures
            fixed_vec_capacity(*final(self)) == fixed_vec_capacity(*old(self)),
            fixed_vec_items(*old(self)).len() == 0 ==> r is None && fixed_vec_items(*final(self))
                == fixed_vec_items(*old(self)),
            fixed_vec_items(*old(self)).len() > 0 ==> r == Some(fixed_vec_items(*old(self)).last())
                && fixed_vec_items(*final(self)) == fixed_vec_items(*old(self)).drop_last(),
    {
        self.inner.pop()
    }

    /// `Vec::as_slice` of `iceoryx2_bb_container`: the items as a slice.
    #[verifier::external_body]
    pub(crate) fn iox_as_slice(&self) -> (r: &[usize])
        ensures
            r@ == fixed_vec_items(*self),
    {
        self.inner.as_slice()
    }

    /// `Vec::as_mut_slice` of `iceoryx2_bb_container`: the items as a mutable
    /// slice; what is written through it ends up in the vector.
    #[verifier::external_body]
    fn iox_as_mut_slice(&mut self) -> (r: &mut [usize])
        ensures
            r@ == fixed_vec_items(*old(self)),
            fixed_vec_items(*final(self)) == final(r)@,
            fixed_vec_capacity(*final(self)) == fixed_vec_capacity(*old(self)),
    {
        self.inner.as_mut_slice()
    }
}

impl FixedVec {
    /// An empty vector that can hold `capacity` items.
    pub fn new(capacity: usize) -> (r: FixedVec)
        requires
            capacity <= 0x0FFF_FFFF_FFFF_FFFF,
        ensures
            fixed_vec_items(r) == Seq::<usize>::empty(),
            fixed_vec_capacity(r) == capacity,
    {
        FixedVec::iox_new(capacity)
    }

    /// The number of items.
    pub fn len(&self) -> (r: usize)
        ensures
            r == fixed_vec_items(*self).len(),
    {
        self.iox_len()
    }

    /// The most items the vector holds.
    pub fn capacity(&self) -> (r: usize)
        ensures
            r == fixed_vec_capacity(*self),
    {
        self.iox_capacity()
    }

    /// Appends `x` unless the vector is full; returns whether it did.
    pub fn push(&mut self, x: usize) -> (r: bool)
        ensures
            fixed_vec_capacity(*final(self)) == fixed_vec_capacity(*old(self)),
            r == (fixed_vec_items(*old(self)).len() < fixed_vec_capacity(*old(self))),
            r ==> fixed_vec_items(*final(self)) == fixed_vec_items(*old(self)).push(x),
            !r ==> fixed_vec_items(*final(self)) == fixed_vec_items(*old(self)),
    {
        self.iox_push(x)
    }

    /// Removes and returns the last item, `None` when empty.
    pub fn pop(&mut self) -> (r: Option<usize>)
        ensures
            fixed_vec_capacity(*final(self)) == fixed_vec_capacity(*old(self)),
            fixed_vec_items(*old(self)).len() == 0 ==> r is None && fixed_vec_items(*final(self))
                == fixed_vec_items(*old(self)),
            fixed_vec_items(*old(self)).len() > 0 ==> r == Some(fixed_vec_items(*old(self)).last())
                && fixed_vec_items(*final(self)) == fixed_vec_items(*old(self)).drop_last(),
    {
        self.iox_pop()
    }

    /// The items, in order.
    pub fn as_slice(&self) -> (r: &[usize])
        ensures
            r@ == fixed_vec_items(*self),
    {
        self.iox_as_slice()
    }
}

/// `swap_remove` and `remove` on a vector.
pub trait VectorExtension<T> {
    /// The items of the vector.
    spec fn ext_items(&self) -> Seq<T>;

    /// The capacity of the vector.
    spec fn ext_capacity(&self) -> nat;

    /// Removes the item at `index` by moving the last item into its place; returns the removed item.
    fn swap_remove(&mut self, index: usize) -> (r: T)
        requires
            index < old(self).ext_items().len(),
        ensures
            r == old(self).ext_items()[index as int],
            final(self).ext_capacity() == old(self).ext_capacity(),
            final(self).ext_items() == old(self).ext_items().update(index as int, old(self).ext_items().last()).drop_last(),
    ;

    /// Removes the item at `index`, shifting the later items one place to the front; returns the removed item.
    fn remove(&mut self, index: usize) -> (r: T)
        requires
            index < old(self).ext_items().len(),
        ensures
            r == old(self).ext_items()[index as int],
            final(self).ext_capacity() == old(self).ext_capacity(),
            final(self).ext_items() == old(self).ext_items().remove(index as int),
    ;
}

impl VectorExtension<usize> for FixedVec {
    open spec fn ext_items(&self) -> Seq<usize> {
        fixed_vec_items(*self)
    }

    open spec fn ext_capacity(&self) -> nat {
        fixed_vec_capacity(*self)
    }

    fn swap_remove(&mut self, index: usize) -> (r: usize) {
        let length = self.len();
        if index < length - 1 {
            let s = self.iox_as_mut_slice();
            let a = s[index];
            let b = s[length - 1];
            s[index] = b;
            s[length - 1] = a;
        }
        let r = self.pop();
        proof {
            assert(fixed_vec_items(*self) =~= fixed_vec_items(*old(self)).update(
                index as int,
                fixed_vec_items(*old(self)).last(),
            ).drop_last());
        }
        r.unwrap()
    }

    fn remove(&mut self, index: usize) -> (r: usize) {
        let length = self.len();
        let ghost orig = fixed_vec_items(*self);
        let s = self.iox_as_mut_slice();
        let removed = s[index];
        let mut i = index;
        while i < length - 1
            invariant
                index <= i < length,
                length == orig.len(),
                s@.len() == length,
                forall|j: int| 0 <= j < index ==> s@[j] == orig[j],
                forall|j: int| index <= j < i ==> s@[j] == orig[j + 1],
                forall|j: int| i < j < length ==> s@[j] == orig[j],
            decreases length - i,
        {
            let next = s[i + 1];
            s[i] = next;
            i = i + 1;
        }
        let r = self.pop();
        proof {
            assert(fixed_vec_items(*self) =~= orig.remove(index as int));
        }
        removed
    }
}

} // verus!
