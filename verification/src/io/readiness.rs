//! The readiness of a source as the reactor last saw it.

use vstd::prelude::*;
use super::epoll::Event;

verus! {

/// The bit of a readiness that says the source can be read.
pub const READABLE: u8 = 0b01;

/// The bit of a readiness that says the source can be written.
pub const WRITABLE: u8 = 0b10;

/// What a readiness says.
pub struct ReadinessView {
    pub readable: bool,
    pub writable: bool,
}

/// A set of the two directions in which a source can be ready. The reactor
/// keeps one per source, so that whoever finds the source ready need not ask
/// the kernel.
#[derive(Debug, Clone, Copy)]
pub struct Readiness {
    bits: u8,
}

impl View for Readiness {
    type V = ReadinessView;

    closed spec fn view(&self) -> ReadinessView {
        ReadinessView { readable: self.bits & 0b01 != 0, writable: self.bits & 0b10 != 0 }
    }
}

impl Readiness {
    /// Ready for nothing.
    pub fn empty() -> (r: Readiness)
        ensures
            r@ == (ReadinessView { readable: false, writable: false }),
    {
        assert(0u8 & 0b01 == 0 && 0u8 & 0b10 == 0) by (bit_vector);
        Readiness { bits: 0 }
    }

    /// Ready to be read.
    pub fn readable() -> (r: Readiness)
        ensures
            r@ == (ReadinessView { readable: true, writable: false }),
    {
        assert(0b01u8 & 0b01 != 0 && 0b01u8 & 0b10 == 0) by (bit_vector);
        Readiness { bits: READABLE }
    }

    /// Ready to be written.
    pub fn writable() -> (r: Readiness)
        ensures
            r@ == (ReadinessView { readable: false, writable: true }),
    {
        assert(0b10u8 & 0b01 == 0 && 0b10u8 & 0b10 != 0) by (bit_vector);
        Readiness { bits: WRITABLE }
    }

    /// The readiness that an event reports.
    pub fn from_event(event: &Event) -> (r: Readiness)
        ensures
            r@ == (ReadinessView {
                readable: event@.is_readable(),
                writable: event@.is_writable(),
            }),
    {
        let mut r = Readiness::empty();
        if event.is_readable() {
            r = r.union(Readiness::readable());
        }
        if event.is_writable() {
            r = r.union(Readiness::writable());
        }
        r
    }

    pub fn is_empty(&self) -> (b: bool)
        ensures
            b == (!self@.readable && !self@.writable),
    {
        let bits = self.bits;
        assert(((bits & 0b01 != 0) || (bits & 0b10 != 0)) == (bits & 0b11 != 0)) by (bit_vector);
        self.bits & 0b11 == 0
    }

    pub fn is_readable(&self) -> (b: bool)
        ensures
            b == self@.readable,
    {
        self.bits & READABLE != 0
    }

    pub fn is_writable(&self) -> (b: bool)
        ensures
            b == self@.writable,
    {
        self.bits & WRITABLE != 0
    }

    /// Whether `self` is ready in every direction in which `other` is.
    pub fn contains(&self, other: Readiness) -> (b: bool)
        ensures
            b == ((other@.readable ==> self@.readable) && (other@.writable ==> self@.writable)),
    {
        let (x, y) = (self.bits, other.bits);
        assert(((x & y & 0b11) == (y & 0b11)) == (((y & 0b01 != 0) ==> (x & 0b01 != 0)) && ((y
            & 0b10 != 0) ==> (x & 0b10 != 0)))) by (bit_vector);
        self.bits & other.bits & 0b11 == other.bits & 0b11
    }

    /// Ready where either is.
    pub fn union(self, other: Readiness) -> (r: Readiness)
        ensures
            r@ == (ReadinessView {
                readable: self@.readable || other@.readable,
                writable: self@.writable || other@.writable,
            }),
    {
        let (x, y) = (self.bits, other.bits);
        assert(((x | y) & 0b01 != 0) == ((x & 0b01 != 0) || (y & 0b01 != 0))) by (bit_vector);
        assert(((x | y) & 0b10 != 0) == ((x & 0b10 != 0) || (y & 0b10 != 0))) by (bit_vector);
        Readiness { bits: self.bits | other.bits }
    }

    /// Ready where both are.
    pub fn intersection(self, other: Readiness) -> (r: Readiness)
        ensures
            r@ == (ReadinessView {
                readable: self@.readable && other@.readable,
                writable: self@.writable && other@.writable,
            }),
    {
        let (x, y) = (self.bits, other.bits);
        assert(((x & y) & 0b01 != 0) == ((x & 0b01 != 0) && (y & 0b01 != 0))) by (bit_vector);
        assert(((x & y) & 0b10 != 0) == ((x & 0b10 != 0) && (y & 0b10 != 0))) by (bit_vector);
        Readiness { bits: self.bits & other.bits }
    }

    /// Ready where `self` is and `other` is not: the removal that re-arms a
    /// direction after the source would have blocked.
    pub fn difference(self, other: Readiness) -> (r: Readiness)
        ensures
            r@ == (ReadinessView {
                readable: self@.readable && !other@.readable,
                writable: self@.writable && !other@.writable,
            }),
    {
        let (x, y) = (self.bits, other.bits);
        assert(((x & !y) & 0b01 != 0) == ((x & 0b01 != 0) && !(y & 0b01 != 0))) by (bit_vector);
        assert(((x & !y) & 0b10 != 0) == ((x & 0b10 != 0) && !(y & 0b10 != 0))) by (bit_vector);
        Readiness { bits: self.bits & !other.bits }
    }
}

} // verus!
