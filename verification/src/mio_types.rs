//! Identifiers, interests and events of the I/O selector.

use vstd::prelude::*;

verus! {

/// A unique identifier for an I/O resource.
#[derive(Clone, Copy, Debug, PartialEq, Eq, Structural, Hash)]
pub struct IoId(pub u64);

impl IoId {
    /// Creates an identifier holding `id`.
    pub fn new(id: u64) -> (r: Self)
        ensures
            r.0 == id,
    {
        IoId(id)
    }

    /// Returns the raw value of the identifier.
    pub fn as_u64(&self) -> (r: u64)
        ensures
            r == self.0,
    {
        self.0
    }
}

/// Interest in I/O operations on a file, as a set of bits; bit 0 is read, bit 1 is write.
#[derive(Clone, Copy, Debug, PartialEq, Eq, Structural, Hash)]
pub struct IoEventInterest(pub u8);

impl IoEventInterest {
    /// Interest in read operations only.
    pub fn readable_interest() -> (r: IoEventInterest)
        ensures
            r.0 == 1,
            r.readable(),
            !r.writable(),
    {
        assert(1u8 & 1u8 != 0 && 1u8 & 2u8 == 0) by (bit_vector);
        IoEventInterest(0b0000_0001)
    }

    /// Interest in write operations only.
    pub fn writable_interest() -> (r: IoEventInterest)
        ensures
            r.0 == 2,
            !r.readable(),
            r.writable(),
    {
        assert(2u8 & 1u8 == 0 && 2u8 & 2u8 != 0) by (bit_vector);
        IoEventInterest(0b0000_0010)
    }

    /// Whether the read bit is set.
    pub open spec fn readable(self) -> bool {
        self.0 & 1u8 != 0
    }

    /// Whether the write bit is set.
    pub open spec fn writable(self) -> bool {
        self.0 & 2u8 != 0
    }

    /// Returns `true` when the interest covers read operations.
    pub fn is_readable(&self) -> (r: bool)
        ensures
            r == self.readable(),
    {
        (self.0 & 0b0000_0001u8) != 0
    }

    /// Returns `true` when the interest covers write operations.
    pub fn is_writable(&self) -> (r: bool)
        ensures
            r == self.writable(),
    {
        (self.0 & 0b0000_0010u8) != 0
    }
}

impl core::ops::BitOr for IoEventInterest {
    type Output = IoEventInterest;

    fn bitor(self, rhs: Self) -> (r: IoEventInterest) {
        IoEventInterest(self.0 | rhs.0)
    }
}

impl vstd::std_specs::ops::BitOrSpecImpl for IoEventInterest {
    open spec fn obeys_bitor_spec() -> bool {
        true
    }

    open spec fn bitor_req(self, rhs: IoEventInterest) -> bool {
        true
    }

    open spec fn bitor_spec(self, rhs: IoEventInterest) -> IoEventInterest {
        IoEventInterest(self.0 | rhs.0)
    }
}

impl core::ops::BitAnd for IoEventInterest {
    type Output = IoEventInterest;

    fn bitand(self, rhs: Self) -> (r: IoEventInterest) {
        IoEventInterest(self.0 & rhs.0)
    }
}

impl vstd::std_specs::ops::BitAndSpecImpl for IoEventInterest {
    open spec fn obeys_bitand_spec() -> bool {
        true
    }

    open spec fn bitand_req(self, rhs: IoEventInterest) -> bool {
        true
    }

    open spec fn bitand_spec(self, rhs: IoEventInterest) -> IoEventInterest {
        IoEventInterest(self.0 & rhs.0)
    }
}

impl core::ops::Not for IoEventInterest {
    type Output = IoEventInterest;

    fn not(self) -> (r: IoEventInterest) {
        IoEventInterest(!self.0)
    }
}

impl vstd::std_specs::ops::NotSpecImpl for IoEventInterest {
    open spec fn obeys_not_spec() -> bool {
        true
    }

    open spec fn not_req(self) -> bool {
        true
    }

    open spec fn not_spec(self) -> IoEventInterest {
        IoEventInterest(!self.0)
    }
}

/// Combining two interests gives an interest that is readable (writable) exactly
/// when one of them is.
pub proof fn law_interest_union(a: IoEventInterest, b: IoEventInterest)
    ensures
        IoEventInterest(a.0 | b.0).readable() == (a.readable() || b.readable()),
        IoEventInterest(a.0 | b.0).writable() == (a.writable() || b.writable()),
        IoEventInterest(a.0 & b.0).readable() == (a.readable() && b.readable()),
        IoEventInterest(a.0 & b.0).writable() == (a.writable() && b.writable()),
{
    let x = a.0;
    let y = b.0;
    assert(((x | y) & 1u8 != 0) == ((x & 1u8 != 0) || (y & 1u8 != 0))) by (bit_vector);
    assert(((x | y) & 2u8 != 0) == ((x & 2u8 != 0) || (y & 2u8 != 0))) by (bit_vector);
    assert(((x & y) & 1u8 != 0) == ((x & 1u8 != 0) && (y & 1u8 != 0))) by (bit_vector);
    assert(((x & y) & 2u8 != 0) == ((x & 2u8 != 0) && (y & 2u8 != 0))) by (bit_vector);
}

/// An I/O event: which resource is ready and for which interest.
pub struct IoEvent {
    id: IoId,
    interest: IoEventInterest,
}

impl IoEvent {
    /// The identifier of the resource the event was reported for.
    pub closed spec fn view_id(self) -> IoId {
        self.id
    }

    /// The interest the event was reported for.
    pub closed spec fn view_interest(self) -> IoEventInterest {
        self.interest
    }

    /// Creates an event for resource `id` and `interest`.
    pub fn new(id: IoId, interest: IoEventInterest) -> (r: Self)
        ensures
            r.view_id() == id,
            r.view_interest() == interest,
    {
        Self { id, interest }
    }

    /// The identifier of the I/O resource.
    pub fn id(&self) -> (r: IoId)
        ensures
            r == self.view_id(),
    {
        self.id
    }

    /// The interest for which the event was reported.
    pub fn interest(&self) -> (r: IoEventInterest)
        ensures
            r == self.view_interest(),
    {
        self.interest
    }

    /// Returns `true` when the event was reported for reading.
    pub fn is_readable(&self) -> (r: bool)
        ensures
            r == self.view_interest().readable(),
    {
        self.interest.is_readable()
    }

    /// Returns `true` when the event was reported for writing.
    pub fn is_writable(&self) -> (r: bool)
        ensures
            r == self.view_interest().writable(),
    {
        self.interest.is_writable()
    }
}

} // verus!
