//! Readiness of an I/O registration: a 16-bit set of ready interests packed
//! together with a 16-bit tick that tells from which I/O driver round the
//! readiness comes.

use vstd::prelude::*;

use crate::mio_types::{IoEvent, IoEventInterest};

verus! {

/// Bit of the state part that marks readiness for reading.
pub const READINESS_STATE_READABLE: u32 = 0b0000_0001;

/// Bit of the state part that marks readiness for writing.
pub const READINESS_STATE_WRITABLE: u32 = 0b0000_0010;

/// Mask of the state bits (low half of the word).
pub const READINESS_STATE_MASK: u32 = 0x0000FFFF;

/// Mask of the tick bits (high half of the word).
pub const READINESS_TICK_MASK: u32 = 0xFFFF0000;

/// Number of bits the tick is shifted by inside the word.
pub const READINESS_TICK_SHIFT: u32 = 16;

/// Readiness state together with the tick of the round that produced it.
/// The low 16 bits hold the state, the high 16 bits the tick.
#[derive(Clone, Copy, PartialEq, Eq, Structural, Debug)]
pub struct ReadinessState(pub u32);

/// The state bits of a packed word.
pub open spec fn word_state(w: u32) -> u16 {
    (w & 0xFFFFu32) as u16
}

/// The tick bits of a packed word.
pub open spec fn word_tick(w: u32) -> u16 {
    (w >> 16u32) as u16
}

/// The packed word made of `state` and `tick`.
pub open spec fn word_of(state: u16, tick: u16) -> u32 {
    ((tick as u32) << 16u32) | (state as u32)
}

/// Packing a state and a tick and reading them back gives the same state and tick.
pub proof fn lemma_word_roundtrip(state: u16, tick: u16)
    ensures
        word_state(word_of(state, tick)) == state,
        word_tick(word_of(state, tick)) == tick,
{
    assert((((tick as u32) << 16u32) | (state as u32)) & 0xFFFFu32 == state as u32) by (bit_vector);
    assert((((tick as u32) << 16u32) | (state as u32)) >> 16u32 == tick as u32) by (bit_vector);
}

/// Every word is the packing of its own state and tick.
pub proof fn lemma_word_split(w: u32)
    ensures
        word_of(word_state(w), word_tick(w)) == w,
{
    assert(((((w >> 16u32) as u16) as u32) << 16u32) | (((w & 0xFFFFu32) as u16) as u32) == w)
        by (bit_vector);
}

/// Bitwise facts on 16-bit state sets used by the readiness operations.
pub proof fn lemma_u16_bits(a: u16, b: u16)
    ensures
        a | b == b | a,
        a & b == b & a,
        (a & !b) & b == 0,
        a & a == a,
        a | a == a,
        (a & 1u16 != 0) == ((a as u32) & 1u32 != 0),
        (a & 2u16 != 0) == ((a as u32) & 2u32 != 0),
{
    assert(a | b == b | a) by (bit_vector);
    assert(a & b == b & a) by (bit_vector);
    assert((a & !b) & b == 0) by (bit_vector);
    assert(a & a == a) by (bit_vector);
    assert(a | a == a) by (bit_vector);
    assert((a & 1u16 != 0) == ((a as u32) & 1u32 != 0)) by (bit_vector);
    assert((a & 2u16 != 0) == ((a as u32) & 2u32 != 0)) by (bit_vector);
}

impl ReadinessState {
    /// The state bits of this readiness.
    pub open spec fn state_bits(self) -> u16 {
        word_state(self.0)
    }

    /// The tick of this readiness.
    pub open spec fn tick_bits(self) -> u16 {
        word_tick(self.0)
    }

    /// Whether the readable bit is set.
    pub open spec fn readable(self) -> bool {
        self.0 & READINESS_STATE_READABLE != 0
    }

    /// Whether the writable bit is set.
    pub open spec fn writable(self) -> bool {
        self.0 & READINESS_STATE_WRITABLE != 0
    }

    /// Readiness made of `state` bits and `tick`.
    pub open spec fn of(state: u16, tick: u16) -> ReadinessState {
        ReadinessState(word_of(state, tick))
    }

    /// Returns the tick of this readiness.
    pub fn tick(&self) -> (r: u16)
        ensures
            r == self.tick_bits(),
    {
        self.extract_tick()
    }

    /// Returns `true` when the readable bit is set.
    pub fn is_readable(&self) -> (r: bool)
        ensures
            r == self.readable(),
    {
        self.0 & READINESS_STATE_READABLE != 0
    }

    /// Returns `true` when the writable bit is set.
    pub fn is_writable(&self) -> (r: bool)
        ensures
            r == self.writable(),
    {
        self.0 & READINESS_STATE_WRITABLE != 0
    }

    /// Clears the readable bit and keeps every other bit.
    pub fn clear_readable(&mut self)
        ensures
            final(self).0 == old(self).0 & !READINESS_STATE_READABLE,
            !final(self).readable(),
            final(self).writable() == old(self).writable(),
            final(self).tick_bits() == old(self).tick_bits(),
    {
        let v = self.0;
        self.0 = v & !READINESS_STATE_READABLE;
        proof {
            assert((v & !1u32) & 1u32 == 0) by (bit_vector);
            assert(((v & !1u32) & 2u32 != 0) == (v & 2u32 != 0)) by (bit_vector);
            assert((v & !1u32) >> 16u32 == v >> 16u32) by (bit_vector);
        }
    }

    /// Clears the writable bit and keeps every other bit.
    pub fn clear_writable(&mut self)
        ensures
            final(self).0 == old(self).0 & !READINESS_STATE_WRITABLE,
            !final(self).writable(),
            final(self).readable() == old(self).readable(),
            final(self).tick_bits() == old(self).tick_bits(),
    {
        let v = self.0;
        self.0 = v & !READINESS_STATE_WRITABLE;
        proof {
            assert((v & !2u32) & 2u32 == 0) by (bit_vector);
            assert(((v & !2u32) & 1u32 != 0) == (v & 1u32 != 0)) by (bit_vector);
            assert((v & !2u32) >> 16u32 == v >> 16u32) by (bit_vector);
        }
    }

    /// Readiness of an I/O event: readable and writable as the event reports, tick 0.
    pub fn from_mio_event(event: &IoEvent) -> (r: Self)
        ensures
            r == Self::of(
                interest_state_bits(event.view_interest().readable(), event.view_interest().writable()),
                0,
            ),
            r.readable() == event.view_interest().readable(),
            r.writable() == event.view_interest().writable(),
            r.tick_bits() == 0,
    {
        let rd = event.is_readable();
        let wr = event.is_writable();
        let s = interest_bits(rd, wr);
        proof {
            Self::lemma_small_state(s);
        }
        Self::from_components(s, 0)
    }

    /// Readable and writable bits of a packed state of at most the two low bits.
    proof fn lemma_small_state(s: u16)
        requires
            s <= 3,
        ensures
            (word_of(s, 0) & 1u32 != 0) == (s == 1 || s == 3),
            (word_of(s, 0) & 2u32 != 0) == (s == 2 || s == 3),
            word_tick(word_of(s, 0)) == 0,
    {
        assert(s <= 3 ==> (((((0u16 as u32) << 16u32) | (s as u32)) & 1u32 != 0) == (s == 1 || s == 3))) by (bit_vector);
        assert(s <= 3 ==> (((((0u16 as u32) << 16u32) | (s as u32)) & 2u32 != 0) == (s == 2 || s == 3))) by (bit_vector);
        lemma_word_roundtrip(s, 0);
    }

    /// Removes the state bits of `mask` from this state; the tick stays.
    pub fn clear(&mut self, mask: Self)
        ensures
            *final(self) == clear_spec(*old(self), mask),
            final(self).state_bits() == old(self).state_bits() & !mask.state_bits(),
            final(self).tick_bits() == old(self).tick_bits(),
    {
        let new_state = self.extract_state() & !mask.extract_state();
        let t = self.extract_tick();
        *self = Self::from_components(new_state, t);
        proof {
            lemma_word_roundtrip(new_state, t);
        }
    }

    /// The union of the state bits of both; the tick of `self` is kept.
    pub fn union(&self, other: Self) -> (r: Self)
        ensures
            r == union_spec(*self, other),
            r.state_bits() == self.state_bits() | other.state_bits(),
            r.tick_bits() == self.tick_bits(),
    {
        let new_state = self.extract_state() | other.extract_state();
        let r = Self::from_components(new_state, self.extract_tick());
        proof {
            lemma_word_roundtrip(new_state, self.tick_bits());
        }
        r
    }

    /// The common state bits of both, with the tick of `self`, or `None` when there are none.
    pub fn intersection(&self, other: Self) -> (r: Option<Self>)
        ensures
            r == intersection_spec(*self, other),
            (self.state_bits() & other.state_bits()) == 0 ==> r is None,
            (self.state_bits() & other.state_bits()) != 0 ==> r == Some(
                Self::of(self.state_bits() & other.state_bits(), self.tick_bits()),
            ),
            r matches Some(s) ==> s.state_bits() == self.state_bits() & other.state_bits()
                && s.tick_bits() == self.tick_bits(),
    {
        let val = self.extract_state() & other.extract_state();
        if val == 0 {
            None
        } else {
            let r = Self::from_components(val, self.extract_tick());
            proof {
                lemma_word_roundtrip(val, self.tick_bits());
            }
            Some(r)
        }
    }

    /// Advances the tick by one, wrapping at `u16::MAX`; the state bits stay.
    pub fn increment_tick(&mut self)
        ensures
            *final(self) == ticked(*old(self)),
            final(self).state_bits() == old(self).state_bits(),
            final(self).tick_bits() == (if old(self).tick_bits() == u16::MAX { 0 } else { (old(self).tick_bits() + 1) as u16 }),
    {
        let s = self.extract_state();
        let t = self.tick();
        let nt = t.wrapping_add(1);
        *self = Self::from_components(s, nt);
        proof {
            lemma_word_roundtrip(s, nt);
        }
    }

    /// Packs `state` into the low half and `tick` into the high half of the word.
    pub fn from_components(state: u16, tick: u16) -> (r: Self)
        ensures
            r == Self::of(state, tick),
            r.0 == word_of(state, tick),
            r.state_bits() == state,
            r.tick_bits() == tick,
    {
        proof {
            lemma_word_roundtrip(state, tick);
        }
        ReadinessState(((tick as u32) << READINESS_TICK_SHIFT) | (state as u32))
    }

    /// Returns the state half of the word.
    pub fn extract_state(&self) -> (r: u16)
        ensures
            r == self.state_bits(),
    {
        (self.0 & READINESS_STATE_MASK) as u16
    }

    /// Returns the tick half of the word.
    pub fn extract_tick(&self) -> (r: u16)
        ensures
            r == self.tick_bits(),
    {
        let v = self.0;
        proof {
            assert((v & 0xFFFF0000u32) >> 16u32 == v >> 16u32) by (bit_vector);
        }
        ((v & READINESS_TICK_MASK) >> READINESS_TICK_SHIFT) as u16
    }

    /// Returns the packed word.
    pub fn into_u32(self) -> (r: u32)
        ensures
            r == self.0,
    {
        self.0
    }

    /// The readiness that asks for the interests of `interest`, tick 0.
    pub fn from_interest(interest: IoEventInterest) -> (r: Self)
        ensures
            r == readiness_of_interest(interest),
            r.readable() == interest.readable(),
            r.writable() == interest.writable(),
            r.tick_bits() == 0,
    {
        let s = interest_bits(interest.is_readable(), interest.is_writable());
        proof {
            Self::lemma_small_state(s);
        }
        Self::from_components(s, 0)
    }
}

/// The state bits for the read and write flags: bit 0 for read, bit 1 for write.
pub open spec fn interest_state_bits(rd: bool, wr: bool) -> u16 {
    if rd && wr {
        3
    } else if rd {
        1
    } else if wr {
        2
    } else {
        0
    }
}

/// The readiness that stands for the interests of `interest`, with tick 0.
pub open spec fn readiness_of_interest(interest: IoEventInterest) -> ReadinessState {
    ReadinessState::of(interest_state_bits(interest.readable(), interest.writable()), 0)
}

/// Computes the state bits for the read and write flags.
pub fn interest_bits(rd: bool, wr: bool) -> (r: u16)
    ensures
        r == interest_state_bits(rd, wr),
{
    if rd && wr {
        3
    } else if rd {
        1
    } else if wr {
        2
    } else {
        0
    }
}

impl From<u32> for ReadinessState {
    fn from(value: u32) -> (r: Self) {
        ReadinessState(value)
    }
}

impl vstd::std_specs::convert::FromSpecImpl<u32> for ReadinessState {
    open spec fn obeys_from_spec() -> bool {
        true
    }

    open spec fn from_spec(v: u32) -> ReadinessState {
        ReadinessState(v)
    }
}

impl From<ReadinessState> for u32 {
    fn from(value: ReadinessState) -> (r: u32) {
        value.0
    }
}

impl vstd::std_specs::convert::FromSpecImpl<ReadinessState> for u32 {
    open spec fn obeys_from_spec() -> bool {
        true
    }

    open spec fn from_spec(v: ReadinessState) -> u32 {
        v.0
    }
}

impl From<IoEventInterest> for ReadinessState {
    fn from(interest: IoEventInterest) -> (r: Self) {
        Self::from_interest(interest)
    }
}

impl vstd::std_specs::convert::FromSpecImpl<IoEventInterest> for ReadinessState {
    open spec fn obeys_from_spec() -> bool {
        true
    }

    open spec fn from_spec(v: IoEventInterest) -> ReadinessState {
        readiness_of_interest(v)
    }
}

/// The union of the state bits of `a` and `b`, with the tick of `a`.
pub open spec fn union_spec(a: ReadinessState, b: ReadinessState) -> ReadinessState {
    ReadinessState::of(a.state_bits() | b.state_bits(), a.tick_bits())
}

/// The common state bits of `a` and `b` with the tick of `a`, or `None` when there are none.
pub open spec fn intersection_spec(a: ReadinessState, b: ReadinessState) -> Option<ReadinessState> {
    if a.state_bits() & b.state_bits() == 0 {
        None
    } else {
        Some(ReadinessState::of(a.state_bits() & b.state_bits(), a.tick_bits()))
    }
}

/// `a` with the state bits of `mask` removed; the tick of `a` stays.
pub open spec fn clear_spec(a: ReadinessState, mask: ReadinessState) -> ReadinessState {
    ReadinessState::of(a.state_bits() & !mask.state_bits(), a.tick_bits())
}

/// The tick that follows `t`, wrapping at `u16::MAX`.
pub open spec fn next_tick(t: u16) -> u16 {
    if t == u16::MAX {
        0
    } else {
        (t + 1) as u16
    }
}

/// `a` with its tick advanced by one.
pub open spec fn ticked(a: ReadinessState) -> ReadinessState {
    ReadinessState::of(a.state_bits(), next_tick(a.tick_bits()))
}

/// Two readinesses agree on their state bits whatever their ticks: union is
/// commutative on the state and keeps the tick of its left side.
pub proof fn law_union_commutes_on_state(a: ReadinessState, b: ReadinessState)
    ensures
        ReadinessState::of(a.state_bits() | b.state_bits(), a.tick_bits()).state_bits()
            == ReadinessState::of(b.state_bits() | a.state_bits(), b.tick_bits()).state_bits(),
{
    lemma_u16_bits(a.state_bits(), b.state_bits());
    lemma_word_roundtrip(a.state_bits() | b.state_bits(), a.tick_bits());
    lemma_word_roundtrip(b.state_bits() | a.state_bits(), b.tick_bits());
}

/// After clearing a mask, no bit of the mask is left: the intersection with
/// the mask is empty.
pub proof fn law_clear_then_no_intersection(a: ReadinessState, mask: ReadinessState)
    ensures
        (a.state_bits() & !mask.state_bits()) & mask.state_bits() == 0,
{
    lemma_u16_bits(a.state_bits(), mask.state_bits());
}

/// A state intersected with itself is itself, when it has any bit.
pub proof fn law_intersection_self(a: ReadinessState)
    ensures
        a.state_bits() != 0 ==> ReadinessState::of(a.state_bits() & a.state_bits(), a.tick_bits()) == a,
{
    lemma_u16_bits(a.state_bits(), a.state_bits());
    lemma_word_split(a.0);
}

} // verus!
