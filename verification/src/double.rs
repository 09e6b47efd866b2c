//! Floating-point readings, held by bit pattern.
//!
//! The library orders and classifies readings; it never adds or divides them
//! itself. Arithmetic comes in as a function from an [`Arith`] request to the
//! rounded result, and every contract is stated relative to that function.
use vstd::prelude::*;

use crate::single::Single;

verus! {

/// An IEEE 754 binary64 value, held by its bit pattern.
#[derive(Clone, Copy, Debug, PartialEq, Eq, Structural)]
pub struct Double {
    pub bits: u64,
}

/// Bit pattern of the sign alone; also the pattern of `-0.0`.
pub const SIGN_BIT: u64 = 0x8000_0000_0000_0000;

/// Bit pattern of positive infinity: every finite magnitude is below it, every
/// NaN magnitude above it.
pub const INFINITY_BITS: u64 = 0x7ff0_0000_0000_0000;

/// Bit pattern of `1.0`.
pub const ONE_BITS: u64 = 0x3ff0_0000_0000_0000;

/// Bit pattern of `100.0`.
pub const HUNDRED_BITS: u64 = 0x4059_0000_0000_0000;

/// One arithmetic request.
#[derive(Clone, Copy, Debug, PartialEq, Eq, Structural)]
pub enum Arith {
    Sum(Double, Double),
    Difference(Double, Double),
    Product(Double, Double),
    Quotient(Double, Double),
    /// The binary64 value nearest to an unsigned integer.
    FromCount(u64),
    /// The binary64 value of a number in single precision.
    FromSingle(Single),
}

/// What the library asks of an arithmetic: it answers every request, and it
/// answers equal requests equally, a NaN by one pattern.
pub open spec fn lawful<F: Fn(Arith) -> Double>(ops: F) -> bool {
    &&& forall|request: Arith| #[trigger] call_requires(ops, (request,))
    &&& forall|request: Arith, left: Double, right: Double|
        #[trigger] call_ensures(ops, (request,), left) && #[trigger] call_ensures(
            ops,
            (request,),
            right,
        ) ==> left == right
}

/// The answer that a lawful arithmetic gives.
pub open spec fn answer<F: Fn(Arith) -> Double>(ops: F, request: Arith) -> Double {
    choose|result: Double| call_ensures(ops, (request,), result)
}

/// Evaluates one request.
pub fn evaluate<F: Fn(Arith) -> Double>(ops: &F, request: Arith) -> (result: Double)
    requires
        lawful(*ops),
    ensures
        result == answer(*ops, request),
{
    ops(request)
}

/// The sum of a sequence of readings, added left to right from zero.
pub open spec fn sum_of<F: Fn(Arith) -> Double>(ops: F, items: Seq<Double>) -> Double
    decreases items.len(),
{
    if items.len() == 0 {
        Double { bits: 0 }
    } else {
        answer(ops, Arith::Sum(sum_of(ops, items.drop_last()), items.last()))
    }
}

impl Double {
    pub open spec fn is_negative(self) -> bool {
        self.bits >= SIGN_BIT
    }

    /// The bit pattern without its sign.
    pub open spec fn magnitude(self) -> int {
        if self.is_negative() {
            self.bits - SIGN_BIT
        } else {
            self.bits as int
        }
    }

    /// The position of a number on the line; both zeros stand at `0`.
    pub open spec fn rank(self) -> int {
        if self.is_negative() {
            -self.magnitude()
        } else {
            self.magnitude()
        }
    }

    /// The position in the IEEE 754 total order, which tells the zeros apart
    /// and gives NaNs a place.
    pub open spec fn total_rank(self) -> int {
        if self.is_negative() {
            -self.magnitude() - 1
        } else {
            self.magnitude()
        }
    }

    pub open spec fn nan(self) -> bool {
        self.magnitude() > INFINITY_BITS
    }

    pub open spec fn finite(self) -> bool {
        self.magnitude() < INFINITY_BITS
    }

    /// The numeric `<`, false when either side is NaN.
    pub open spec fn below(self, other: Double) -> bool {
        !self.nan() && !other.nan() && self.rank() < other.rank()
    }

    pub open spec fn positive(self) -> bool {
        0 < self.bits <= INFINITY_BITS
    }

    /// The larger of two readings; a NaN yields to the other side.
    pub open spec fn larger(self, other: Double) -> Double {
        if self.nan() || self.below(other) {
            other
        } else {
            self
        }
    }

    /// The smaller of two readings; a NaN yields to the other side.
    pub open spec fn smaller(self, other: Double) -> Double {
        if self.nan() || other.below(self) {
            other
        } else {
            self
        }
    }

    /// A reading fit for display: anything that is not finite, and anything
    /// below zero, reads as zero.
    pub open spec fn displayed(self) -> Double {
        if self.finite() {
            self.larger(Double { bits: 0 })
        } else {
            Double { bits: 0 }
        }
    }

    pub fn zero() -> (result: Double)
        ensures
            result.bits == 0,
    {
        Double { bits: 0 }
    }

    pub fn is_finite(self) -> (result: bool)
        ensures
            result == self.finite(),
    {
        if self.bits >= SIGN_BIT {
            self.bits - SIGN_BIT < INFINITY_BITS
        } else {
            self.bits < INFINITY_BITS
        }
    }

    pub fn is_nan(self) -> (result: bool)
        ensures
            result == self.nan(),
    {
        if self.bits >= SIGN_BIT {
            self.bits - SIGN_BIT > INFINITY_BITS
        } else {
            self.bits > INFINITY_BITS
        }
    }

    /// Whether the reading is a number above zero.
    pub fn is_positive(self) -> (result: bool)
        ensures
            result == self.positive(),
            result == (Double { bits: 0 }).below(self),
    {
        0 < self.bits && self.bits <= INFINITY_BITS
    }

    /// The numeric `<`.
    pub fn is_below(self, other: Double) -> (result: bool)
        ensures
            result == self.below(other),
    {
        if self.is_nan() || other.is_nan() {
            false
        } else if self.bits >= SIGN_BIT {
            if other.bits >= SIGN_BIT {
                self.bits > other.bits
            } else {
                self.bits > SIGN_BIT || other.bits > 0
            }
        } else {
            other.bits < SIGN_BIT && self.bits < other.bits
        }
    }

    /// Strictly earlier in the IEEE 754 total order.
    pub fn precedes(self, other: Double) -> (result: bool)
        ensures
            result == (self.total_rank() < other.total_rank()),
    {
        if self.bits >= SIGN_BIT {
            other.bits < SIGN_BIT || self.bits > other.bits
        } else {
            other.bits < SIGN_BIT && self.bits < other.bits
        }
    }

    pub fn max(self, other: Double) -> (result: Double)
        ensures
            result == self.larger(other),
    {
        if self.is_nan() || self.is_below(other) {
            other
        } else {
            self
        }
    }

    pub fn min(self, other: Double) -> (result: Double)
        ensures
            result == self.smaller(other),
    {
        if self.is_nan() || other.is_below(self) {
            other
        } else {
            self
        }
    }

    /// The reading as it is shown: see [`Double::displayed`].
    pub fn finite_non_negative(self) -> (result: Double)
        ensures
            result == self.displayed(),
    {
        if self.is_finite() {
            self.max(Double { bits: 0 })
        } else {
            Double { bits: 0 }
        }
    }
}

/// The total order tells every two bit patterns apart.
pub proof fn total_rank_is_injective(left: Double, right: Double)
    ensures
        left.total_rank() == right.total_rank() ==> left == right,
{
}

/// A displayed reading is finite and not below zero, and displaying it again
/// changes nothing.
pub proof fn displayed_readings_are_finite_and_stable(value: Double)
    ensures
        value.displayed().finite(),
        !value.displayed().below(Double { bits: 0 }),
        value.displayed().displayed() == value.displayed(),
{
}

} // verus!
