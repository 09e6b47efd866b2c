//! Window coordinates and other settings in single precision, held by bit
//! pattern.
use vstd::prelude::*;

verus! {

/// An IEEE 754 binary32 value, held by its bit pattern.
#[derive(Clone, Copy, Debug, PartialEq, Eq, Structural)]
pub struct Single {
    pub bits: u32,
}

/// Bit pattern of the sign alone.
pub const SINGLE_SIGN_BIT: u32 = 0x8000_0000;

/// Bit pattern of positive infinity.
pub const SINGLE_INFINITY_BITS: u32 = 0x7f80_0000;

impl Single {
    /// The bit pattern without its sign.
    pub open spec fn magnitude(self) -> int {
        if self.bits >= SINGLE_SIGN_BIT {
            self.bits - SINGLE_SIGN_BIT
        } else {
            self.bits as int
        }
    }

    /// The position of a number on the line; both zeros stand at `0`.
    pub open spec fn rank(self) -> int {
        if self.bits >= SINGLE_SIGN_BIT {
            -self.magnitude()
        } else {
            self.magnitude()
        }
    }

    pub open spec fn nan(self) -> bool {
        self.magnitude() > SINGLE_INFINITY_BITS
    }

    pub open spec fn finite(self) -> bool {
        self.magnitude() < SINGLE_INFINITY_BITS
    }

    /// The numeric `==`: no NaN equals anything, and the zeros are equal.
    pub open spec fn equals(self, other: Single) -> bool {
        !self.nan() && !other.nan() && self.rank() == other.rank()
    }

    /// The numeric `<=`.
    pub open spec fn at_most(self, other: Single) -> bool {
        !self.nan() && !other.nan() && self.rank() <= other.rank()
    }

    /// The larger of two numbers; a NaN yields to the other side.
    pub open spec fn larger(self, other: Single) -> Single {
        if self.nan() || (self.at_most(other) && !other.at_most(self)) {
            other
        } else {
            self
        }
    }

    pub fn is_finite(self) -> (result: bool)
        ensures
            result == self.finite(),
    {
        if self.bits >= SINGLE_SIGN_BIT {
            self.bits - SINGLE_SIGN_BIT < SINGLE_INFINITY_BITS
        } else {
            self.bits < SINGLE_INFINITY_BITS
        }
    }

    fn position(self) -> (result: i64)
        ensures
            result == self.rank(),
    {
        if self.bits >= SINGLE_SIGN_BIT {
            -((self.bits - SINGLE_SIGN_BIT) as i64)
        } else {
            self.bits as i64
        }
    }

    fn is_nan(self) -> (result: bool)
        ensures
            result == self.nan(),
    {
        if self.bits >= SINGLE_SIGN_BIT {
            self.bits - SINGLE_SIGN_BIT > SINGLE_INFINITY_BITS
        } else {
            self.bits > SINGLE_INFINITY_BITS
        }
    }

    pub fn is_equal_to(self, other: Single) -> (result: bool)
        ensures
            result == self.equals(other),
    {
        !self.is_nan() && !other.is_nan() && self.position() == other.position()
    }

    pub fn is_at_most(self, other: Single) -> (result: bool)
        ensures
            result == self.at_most(other),
    {
        !self.is_nan() && !other.is_nan() && self.position() <= other.position()
    }

    pub fn max(self, other: Single) -> (result: Single)
        ensures
            result == self.larger(other),
    {
        if self.is_nan() || (self.is_at_most(other) && !other.is_at_most(self)) {
            other
        } else {
            self
        }
    }
}

/// A size or a position.
#[derive(Clone, Copy, Debug, PartialEq, Eq, Structural)]
pub struct Pair {
    pub first: Single,
    pub second: Single,
}

impl Pair {
    pub open spec fn equals(self, other: Pair) -> bool {
        self.first.equals(other.first) && self.second.equals(other.second)
    }

    pub fn is_equal_to(self, other: Pair) -> (result: bool)
        ensures
            result == self.equals(other),
    {
        self.first.is_equal_to(other.first) && self.second.is_equal_to(other.second)
    }
}

/// Two optional pairs that are equal as numbers.
pub open spec fn equal_pairs(left: Option<Pair>, right: Option<Pair>) -> bool {
    match (left, right) {
        (None, None) => true,
        (Some(left), Some(right)) => left.equals(right),
        _ => false,
    }
}

pub fn pairs_are_equal(left: Option<Pair>, right: Option<Pair>) -> (result: bool)
    ensures
        result == equal_pairs(left, right),
{
    match (left, right) {
        (None, None) => true,
        (Some(left), Some(right)) => left.is_equal_to(right),
        _ => false,
    }
}

} // verus!
