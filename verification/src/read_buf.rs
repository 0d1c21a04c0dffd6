//! A read buffer over a byte slice that is filled in several steps.
//!
//! Layout:
//! ```text
//! [             capacity              ]
//! [ filled |         unfilled         ]
//! [    initialized    | uninitialized ]
//! ```

use vstd::prelude::*;

verus! {

/// A read buffer over a borrowed byte slice: the first `filled` bytes hold
/// data read so far, the first `initialized` bytes were written at least once.
pub struct ReadBuf<'a> {
    buf: &'a mut [u8],
    filled: usize,
    initialized: usize,
}

impl<'a> ReadBuf<'a> {
    /// The bytes of the underlying slice.
    pub closed spec fn bytes(&self) -> Seq<u8> {
        (*self.buf)@
    }

    /// The number of filled bytes.
    pub closed spec fn filled_len(&self) -> nat {
        self.filled as nat
    }

    /// The number of initialized bytes.
    pub closed spec fn initialized_len(&self) -> nat {
        self.initialized as nat
    }

    /// Filled bytes are initialized and initialized bytes are inside the slice.
    pub open spec fn wf(&self) -> bool {
        self.filled_len() <= self.initialized_len() <= self.bytes().len()
    }

    /// A buffer over the fully initialized slice `buf`, with nothing filled.
    pub fn new(buf: &'a mut [u8]) -> (r: Self)
        ensures
            r.wf(),
            r.bytes() == old(buf)@,
            r.filled_len() == 0,
            r.initialized_len() == old(buf)@.len(),
    {
        let initialized = buf.len();
        ReadBuf { buf, filled: 0, initialized }
    }

    /// A buffer over `buf` whose bytes count as not initialized yet, with nothing filled.
    pub fn uninit(buf: &'a mut [u8]) -> (r: Self)
        ensures
            r.wf(),
            r.bytes() == old(buf)@,
            r.filled_len() == 0,
            r.initialized_len() == 0,
    {
        ReadBuf { buf, filled: 0, initialized: 0 }
    }

    /// The total capacity.
    pub fn capacity(&self) -> (r: usize)
        ensures
            r == self.bytes().len(),
    {
        self.buf.len()
    }

    /// The number of bytes that can still be filled.
    pub fn remaining(&self) -> (r: usize)
        requires
            self.wf(),
        ensures
            r == self.bytes().len() - self.filled_len(),
    {
        self.buf.len() - self.filled
    }

    /// Forgets the filled bytes; the data stays initialized.
    pub fn clear(&mut self)
        requires
            old(self).wf(),
        ensures
            final(self).wf(),
            final(self).filled_len() == 0,
            final(self).initialized_len() == old(self).initialized_len(),
            final(self).bytes() == old(self).bytes(),
    {
        self.filled = 0;
    }

    /// Marks the first `n` bytes as initialized; does nothing when more are already.
    pub fn assume_init(&mut self, n: usize)
        requires
            old(self).wf(),
            n <= old(self).bytes().len(),
        ensures
            final(self).wf(),
            final(self).initialized_len() == (if n > old(self).initialized_len() { n as nat } else { old(self).initialized_len() }),
            final(self).filled_len() == old(self).filled_len(),
            final(self).bytes() == old(self).bytes(),
    {
        if n > self.initialized {
            self.initialized = n;
        }
    }

    /// The filled part.
    pub fn filled(&self) -> (r: &[u8])
        requires
            self.wf(),
        ensures
            r@ == self.bytes().subrange(0, self.filled_len() as int),
    {
        &self.buf[0..self.filled]
    }

    /// The initialized part.
    pub fn initialized(&self) -> (r: &[u8])
        requires
            self.wf(),
        ensures
            r@ == self.bytes().subrange(0, self.initialized_len() as int),
    {
        &self.buf[0..self.initialized]
    }

    /// The initialized but not filled part.
    pub fn initialized_unfilled(&self) -> (r: &[u8])
        requires
            self.wf(),
        ensures
            r@ == self.bytes().subrange(self.filled_len() as int, self.initialized_len() as int),
    {
        &self.buf[self.filled..self.initialized]
    }

    /// The filled part, writable.
    pub fn filled_mut(&mut self) -> (r: &mut [u8])
        requires
            old(self).wf(),
        ensures
            r@ == old(self).bytes().subrange(0, old(self).filled_len() as int),
            final(self).bytes() == final(r)@ + old(self).bytes().subrange(old(self).filled_len() as int, old(self).bytes().len() as int),
            final(self).filled_len() == old(self).filled_len(),
            final(self).initialized_len() == old(self).initialized_len(),
    {
        let n = self.filled;
        let (head, _) = self.buf.split_at_mut(n);
        head
    }

    /// The initialized part, writable.
    pub fn initialized_mut(&mut self) -> (r: &mut [u8])
        requires
            old(self).wf(),
        ensures
            r@ == old(self).bytes().subrange(0, old(self).initialized_len() as int),
            final(self).bytes() == final(r)@ + old(self).bytes().subrange(old(self).initialized_len() as int, old(self).bytes().len() as int),
            final(self).filled_len() == old(self).filled_len(),
            final(self).initialized_len() == old(self).initialized_len(),
    {
        let n = self.initialized;
        let (head, _) = self.buf.split_at_mut(n);
        head
    }

    /// The unfilled part, writable; what is written there counts as initialized
    /// only after [`assume_init`](Self::assume_init).
    pub fn unfilled_mut(&mut self) -> (r: &mut [u8])
        requires
            old(self).wf(),
        ensures
            r@ == old(self).bytes().subrange(old(self).filled_len() as int, old(self).bytes().len() as int),
            final(self).bytes() == old(self).bytes().subrange(0, old(self).filled_len() as int) + final(r)@,
            final(self).filled_len() == old(self).filled_len(),
            final(self).initialized_len() == old(self).initialized_len(),
    {
        let n = self.filled;
        let (_, tail) = self.buf.split_at_mut(n);
        tail
    }

    /// Sets the number of filled bytes to `n`, which may not exceed the initialized bytes.
    pub fn set_filled(&mut self, n: usize)
        requires
            old(self).wf(),
            n <= old(self).initialized_len(),
        ensures
            final(self).wf(),
            final(self).filled_len() == n,
            final(self).initialized_len() == old(self).initialized_len(),
            final(self).bytes() == old(self).bytes(),
    {
        self.filled = n;
    }

    /// Advances the filled bytes by `n`, which may not go past the initialized bytes.
    pub fn advance_filled(&mut self, n: usize)
        requires
            old(self).wf(),
            old(self).filled_len() + n <= old(self).initialized_len(),
        ensures
            final(self).wf(),
            final(self).filled_len() == old(self).filled_len() + n,
            final(self).initialized_len() == old(self).initialized_len(),
            final(self).bytes() == old(self).bytes(),
    {
        self.filled = self.filled + n;
    }

    /// Copies `src` behind the filled bytes and counts it as filled (and
    /// initialized); it must fit into the capacity.
    pub fn put_slice(&mut self, src: &[u8])
        requires
            old(self).wf(),
            old(self).filled_len() + src@.len() <= old(self).bytes().len(),
        ensures
            final(self).wf(),
            final(self).filled_len() == old(self).filled_len() + src@.len(),
            final(self).initialized_len() == (if old(self).initialized_len() < final(self).filled_len() {
                final(self).filled_len()
            } else {
                old(self).initialized_len()
            }),
            final(self).bytes() == old(self).bytes().subrange(0, old(self).filled_len() as int) + src@
                + old(self).bytes().subrange((old(self).filled_len() + src@.len()) as int, old(self).bytes().len() as int),
    {
        let len = src.len();
        let start = self.filled;
        let cap = self.buf.len();
        let ghost orig = self.bytes();
        let mut i: usize = 0;
        while i < len
            invariant
                i <= len,
                len == src@.len(),
                start == old(self).filled_len(),
                start + len <= orig.len(),
                orig.len() == cap,
                self.filled == start,
                self.initialized == old(self).initialized_len(),
                self.bytes().len() == orig.len(),
                forall|j: int| 0 <= j < start ==> self.bytes()[j] == orig[j],
                forall|j: int| start <= j < start + i ==> self.bytes()[j] == src@[j - start],
                forall|j: int| start + i <= j < orig.len() ==> self.bytes()[j] == orig[j],
            decreases len - i,
        {
            self.buf[start + i] = src[i];
            i = i + 1;
        }
        self.filled = start + len;
        if self.initialized < self.filled {
            self.initialized = self.filled;
        }
        proof {
            assert(self.bytes() =~= orig.subrange(0, start as int) + src@ + orig.subrange(start + len, orig.len() as int));
        }
    }

    /// Zeroes the uninitialized part, counts the whole buffer as initialized
    /// and returns the unfilled part, writable.
    pub fn initialize_unfilled(&mut self) -> (r: &mut [u8])
        requires
            old(self).wf(),
        ensures
            r@ == old(self).bytes().subrange(old(self).filled_len() as int, old(self).initialized_len() as int)
                + Seq::new((old(self).bytes().len() - old(self).initialized_len()) as nat, |i: int| 0u8),
            final(self).filled_len() == old(self).filled_len(),
            final(self).initialized_len() == old(self).bytes().len(),
            final(self).bytes() == old(self).bytes().subrange(0, old(self).filled_len() as int) + final(r)@,
    {
        let cap = self.buf.len();
        let size = cap - self.initialized;
        self.fill_uninit(size);
        self.unfilled_mut()
    }

    /// Zeroes the next `size` uninitialized bytes and counts them as initialized.
    fn fill_uninit(&mut self, size: usize)
        requires
            old(self).wf(),
            old(self).initialized_len() + size <= old(self).bytes().len(),
        ensures
            final(self).wf(),
            final(self).filled_len() == old(self).filled_len(),
            final(self).initialized_len() == old(self).initialized_len() + size,
            final(self).bytes() == old(self).bytes().subrange(0, old(self).initialized_len() as int)
                + Seq::new(size as nat, |i: int| 0u8)
                + old(self).bytes().subrange((old(self).initialized_len() + size) as int, old(self).bytes().len() as int),
    {
        let start = self.initialized;
        let cap = self.buf.len();
        let ghost orig = self.bytes();
        let mut i: usize = 0;
        while i < size
            invariant
                i <= size,
                start == old(self).initialized_len(),
                start + size <= orig.len(),
                orig.len() == cap,
                self.filled == old(self).filled_len(),
                self.initialized == start,
                self.bytes().len() == orig.len(),
                forall|j: int| 0 <= j < start ==> self.bytes()[j] == orig[j],
                forall|j: int| start <= j < start + i ==> self.bytes()[j] == 0u8,
                forall|j: int| start + i <= j < orig.len() ==> self.bytes()[j] == orig[j],
            decreases size - i,
        {
            self.buf[start + i] = 0;
            i = i + 1;
        }
        self.initialized = start + size;
        proof {
            assert(self.bytes() =~= orig.subrange(0, start as int) + Seq::new(size as nat, |i: int| 0u8)
                + orig.subrange(start + size, orig.len() as int));
        }
    }
}

} // verus!
