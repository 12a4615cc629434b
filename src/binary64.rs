//! IEEE 754 binary64 values held as their bit patterns, with the ordering
//! of the `<` operator on them.

use vstd::prelude::*;

verus! {

/// The sign bit of a binary64 pattern.
pub const SIGN_BIT: u64 = 0x8000_0000_0000_0000;

/// The pattern of positive infinity, the largest non-NaN magnitude.
pub const INFINITY_BITS: u64 = 0x7FF0_0000_0000_0000;

/// An IEEE 754 binary64 value, held as its 64-bit pattern.
#[derive(Clone, Copy, Debug, PartialEq, Eq, Structural)]
pub struct Binary64 {
    pub bits: u64,
}

impl Binary64 {
    /// The pattern without its sign bit.
    pub open spec fn magnitude(self) -> int {
        self.bits as int % (SIGN_BIT as int)
    }

    pub open spec fn is_negative(self) -> bool {
        self.bits >= SIGN_BIT
    }

    /// A NaN has the largest exponent and a non-zero fraction.
    pub open spec fn spec_is_nan(self) -> bool {
        self.magnitude() > INFINITY_BITS as int
    }

    /// Position on the number line: for non-NaN values the magnitude pattern
    /// grows with the absolute value, so the signed magnitude orders them
    /// (and `+0` and `-0` share rank 0).
    pub open spec fn rank(self) -> int {
        if self.is_negative() {
            -self.magnitude()
        } else {
            self.magnitude()
        }
    }

    /// `a < b` as IEEE 754 defines it: false whenever either side is NaN.
    pub open spec fn spec_lt(self, other: Binary64) -> bool {
        &&& !self.spec_is_nan()
        &&& !other.spec_is_nan()
        &&& self.rank() < other.rank()
    }

    /// `a <= b` as IEEE 754 defines it.
    pub open spec fn spec_le(self, other: Binary64) -> bool {
        &&& !self.spec_is_nan()
        &&& !other.spec_is_nan()
        &&& self.rank() <= other.rank()
    }

    pub open spec fn spec_infinity() -> Binary64 {
        Binary64 { bits: INFINITY_BITS }
    }

    /// Positive infinity.
    pub fn infinity() -> (r: Binary64)
        ensures
            r == Binary64::spec_infinity(),
            !r.spec_is_nan(),
    {
        Binary64 { bits: INFINITY_BITS }
    }

    pub fn is_nan(&self) -> (r: bool)
        ensures
            r == self.spec_is_nan(),
    {
        self.bits % SIGN_BIT > INFINITY_BITS
    }

    /// The IEEE 754 `<` comparison.
    pub fn lt(&self, other: &Binary64) -> (r: bool)
        ensures
            r == self.spec_lt(*other),
    {
        let ma = self.bits % SIGN_BIT;
        let mb = other.bits % SIGN_BIT;
        if ma > INFINITY_BITS || mb > INFINITY_BITS {
            return false;
        }
        let na = self.bits >= SIGN_BIT;
        let nb = other.bits >= SIGN_BIT;
        if !na && !nb {
            ma < mb
        } else if na && nb {
            mb < ma
        } else if na {
            ma != 0 || mb != 0
        } else {
            false
        }
    }
}

} // verus!
