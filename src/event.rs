use vstd::prelude::*;

verus! {

/// Caller-chosen identifier of a registration, handed back unchanged with
/// every event that concerns it.
#[derive(Clone, Copy, Debug, PartialEq, Eq, Structural)]
pub struct Token(pub u64);

/// Readiness kinds a registration cares about, as a set of bits.
#[derive(Clone, Copy, Debug, PartialEq, Eq, Structural)]
pub struct Interest {
    bits: u8,
}

pub const READABLE_BIT: u8 = 1;

pub const WRITABLE_BIT: u8 = 2;

impl Interest {
    pub closed spec fn spec_bits(&self) -> u8 {
        self.bits
    }

    pub closed spec fn spec_readable(&self) -> bool {
        self.bits & READABLE_BIT != 0
    }

    pub closed spec fn spec_writable(&self) -> bool {
        self.bits & WRITABLE_BIT != 0
    }

    /// The value that [`Interest::readable`] returns.
    pub closed spec fn readable_spec() -> Interest {
        Interest { bits: READABLE_BIT }
    }

    /// Interest in the descriptor becoming readable.
    pub fn readable() -> (r: Interest)
        ensures
            r == Interest::readable_spec(),
            r.spec_bits() == READABLE_BIT,
            r.spec_readable(),
            !r.spec_writable(),
    {
        proof {
            assert(READABLE_BIT & READABLE_BIT != 0u8) by (bit_vector);
            assert(READABLE_BIT & WRITABLE_BIT == 0u8) by (bit_vector);
        }
        Interest { bits: READABLE_BIT }
    }

    /// Interest in the descriptor becoming writable.
    pub fn writable() -> (r: Interest)
        ensures
            r.spec_bits() == WRITABLE_BIT,
            !r.spec_readable(),
            r.spec_writable(),
    {
        proof {
            assert(WRITABLE_BIT & READABLE_BIT == 0u8) by (bit_vector);
            assert(WRITABLE_BIT & WRITABLE_BIT != 0u8) by (bit_vector);
        }
        Interest { bits: WRITABLE_BIT }
    }

    /// The union of two interests.
    pub fn add(self, other: Interest) -> (r: Interest)
        ensures
            r.spec_bits() == self.spec_bits() | other.spec_bits(),
            r.spec_readable() == (self.spec_readable() || other.spec_readable()),
            r.spec_writable() == (self.spec_writable() || other.spec_writable()),
    {
        let a = self.bits;
        let b = other.bits;
        proof {
            assert(((a | b) & 1u8 != 0u8) == (a & 1u8 != 0u8 || b & 1u8 != 0u8)) by (bit_vector);
            assert(((a | b) & 2u8 != 0u8) == (a & 2u8 != 0u8 || b & 2u8 != 0u8)) by (bit_vector);
        }
        Interest { bits: a | b }
    }

    pub fn is_readable(&self) -> (r: bool)
        ensures
            r == self.spec_readable(),
    {
        self.bits & READABLE_BIT != 0
    }

    pub fn is_writable(&self) -> (r: bool)
        ensures
            r == self.spec_writable(),
    {
        self.bits & WRITABLE_BIT != 0
    }
}

} // verus!
