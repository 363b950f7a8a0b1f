use vstd::prelude::*;

verus! {

/// A non-empty set of readiness conditions: readable, writable or both.
///
/// Bit 0 stands for readable and bit 1 for writable; at least one is set.
#[derive(Clone, Copy, Debug, PartialEq, Eq, Structural)]
pub struct Interest {
    bits: u8,
}

const READABLE_BIT: u8 = 1;

const WRITABLE_BIT: u8 = 2;

impl Interest {
    /// The bits are one of the three non-empty subsets of {readable, writable}.
    pub closed spec fn wf(self) -> bool {
        1 <= self.bits <= 3
    }

    /// Whether readable readiness is part of the set.
    pub closed spec fn readable(self) -> bool {
        self.bits & READABLE_BIT != 0
    }

    /// Whether writable readiness is part of the set.
    pub closed spec fn writable(self) -> bool {
        self.bits & WRITABLE_BIT != 0
    }

    /// A well-formed interest is never empty.
    pub proof fn lemma_nonempty(self)
        requires
            self.wf(),
        ensures
            self.readable() || self.writable(),
    {
        let b = self.bits;
        assert(1 <= b <= 3 ==> (b & 1u8 != 0 || b & 2u8 != 0)) by (bit_vector);
    }

    /// Interest in readable readiness only.
    pub fn readable_only() -> (i: Interest)
        ensures
            i.wf(),
            i.readable(),
            !i.writable(),
    {
        let i = Interest { bits: READABLE_BIT };
        assert(1u8 & 1u8 != 0 && 1u8 & 2u8 == 0) by (bit_vector);
        i
    }

    /// Interest in writable readiness only.
    pub fn writable_only() -> (i: Interest)
        ensures
            i.wf(),
            !i.readable(),
            i.writable(),
    {
        let i = Interest { bits: WRITABLE_BIT };
        assert(2u8 & 1u8 == 0 && 2u8 & 2u8 != 0) by (bit_vector);
        i
    }

    /// The union of two interests.
    pub fn add(self, other: Interest) -> (i: Interest)
        requires
            self.wf(),
            other.wf(),
        ensures
            i.wf(),
            i.readable() == (self.readable() || other.readable()),
            i.writable() == (self.writable() || other.writable()),
    {
        let a = self.bits;
        let b = other.bits;
        let c = a | b;
        assert(1 <= a <= 3 && 1 <= b <= 3 ==> 1 <= (a | b) <= 3) by (bit_vector);
        assert((a | b) & 1u8 != 0 <==> (a & 1u8 != 0 || b & 1u8 != 0)) by (bit_vector);
        assert((a | b) & 2u8 != 0 <==> (a & 2u8 != 0 || b & 2u8 != 0)) by (bit_vector);
        Interest { bits: c }
    }

    /// The interests of `self` that are not in `other`, or `None` where none
    /// is left.
    pub fn remove(self, other: Interest) -> (r: Option<Interest>)
        requires
            self.wf(),
            other.wf(),
        ensures
            r is None <==> (
                (self.readable() ==> other.readable())
                && (self.writable() ==> other.writable())),
            r matches Some(i) ==> {
                &&& i.wf()
                &&& i.readable() == (self.readable() && !other.readable())
                &&& i.writable() == (self.writable() && !other.writable())
            },
    {
        let a = self.bits;
        let b = other.bits;
        let c = a & !b;
        assert(1 <= a <= 3 ==> (a & !b) <= 3) by (bit_vector);
        assert((a & !b) & 1u8 != 0 <==> (a & 1u8 != 0 && b & 1u8 == 0)) by (bit_vector);
        assert((a & !b) & 2u8 != 0 <==> (a & 2u8 != 0 && b & 2u8 == 0)) by (bit_vector);
        assert(1 <= a <= 3 ==> ((a & !b) == 0 <==> ((a & 1u8 != 0 ==> b & 1u8 != 0) && (a & 2u8 != 0 ==> b & 2u8 != 0)))) by (bit_vector);
        if c == 0 {
            None
        } else {
            Some(Interest { bits: c })
        }
    }

    pub fn is_readable(&self) -> (r: bool)
        ensures
            r == self.readable(),
    {
        self.bits & READABLE_BIT != 0
    }

    pub fn is_writable(&self) -> (r: bool)
        ensures
            r == self.writable(),
    {
        self.bits & WRITABLE_BIT != 0
    }
}

} // verus!
