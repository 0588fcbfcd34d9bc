//! Coordinates as IEEE-754 binary64 bit patterns.
//!
//! Every coordinate and offset in this crate is carried as the 64-bit pattern of
//! a double-precision number. Comparison and sign change are then integer
//! operations with an exact meaning, which the contracts below state.

use vstd::prelude::*;
use vstd::arithmetic::power2::pow2;
use vstd::std_specs::cmp::PartialEqSpecImpl;

verus! {

/// The sign bit of a binary64 pattern.
pub const SIGN_BIT: u64 = 0x8000_0000_0000_0000;

/// Everything but the sign bit of a binary64 pattern.
pub const MAGNITUDE_BITS: u64 = 0x7fff_ffff_ffff_ffff;

/// The pattern of positive infinity: all exponent bits set, fraction zero.
pub const INFINITY_BITS: u64 = 0x7ff0_0000_0000_0000;

/// One double-precision number, held as its bit pattern.
#[derive(Clone, Copy, Debug)]
pub struct Scalar {
    pub bits: u64,
}

impl Scalar {
    /// The pattern without its sign bit.
    pub open spec fn magnitude_bits(self) -> u64 {
        self.bits & MAGNITUDE_BITS
    }

    /// Whether the pattern is a NaN: exponent all ones, fraction not zero.
    pub open spec fn is_nan(self) -> bool {
        self.magnitude_bits() > INFINITY_BITS
    }

    /// Whether the pattern is one of the two zeros.
    pub open spec fn is_zero(self) -> bool {
        self.magnitude_bits() == 0
    }

    /// Numeric equality as IEEE-754 defines it: a NaN equals nothing, the two
    /// zeros equal each other, and any other number equals only its own pattern.
    pub open spec fn same_number(self, other: Scalar) -> bool {
        &&& !self.is_nan()
        &&& !other.is_nan()
        &&& (self.bits == other.bits || (self.is_zero() && other.is_zero()))
    }

    /// The pattern with its sign bit flipped.
    pub open spec fn negated(self) -> Scalar {
        Scalar { bits: self.bits ^ SIGN_BIT }
    }

    /// The sign bit: 1 for a negative number.
    pub open spec fn sign(self) -> nat {
        (self.bits / 0x8000_0000_0000_0000) as nat
    }

    /// The biased exponent, eleven bits wide.
    pub open spec fn exponent(self) -> nat {
        ((self.bits / 0x10_0000_0000_0000) % 0x800) as nat
    }

    /// The fraction, 52 bits wide.
    pub open spec fn fraction(self) -> nat {
        (self.bits % 0x10_0000_0000_0000) as nat
    }

    /// Whether the pattern stands for a number, and not for an infinity or a NaN.
    pub open spec fn is_finite(self) -> bool {
        self.exponent() < 0x7ff
    }

    /// Whether the pattern stands for one of the two infinities.
    pub open spec fn is_infinite(self) -> bool {
        self.exponent() == 0x7ff && self.fraction() == 0
    }

    /// The absolute value of a finite pattern, counted in units of `2^-1074`,
    /// the smallest positive double: a subnormal counts its fraction, a normal
    /// number its fraction with the hidden bit, doubled once for every step of
    /// its exponent above one.
    pub open spec fn magnitude(self) -> nat {
        if self.exponent() == 0 {
            self.fraction()
        } else {
            (0x10_0000_0000_0000 + self.fraction()) * pow2((self.exponent() - 1) as nat)
        }
    }

    /// Positive zero.
    pub open spec fn spec_zero() -> Scalar {
        Scalar { bits: 0 }
    }

    pub fn from_bits(bits: u64) -> (r: Scalar)
        ensures
            r.bits == bits,
    {
        Scalar { bits }
    }

    pub fn to_bits(self) -> (r: u64)
        ensures
            r == self.bits,
    {
        self.bits
    }

    #[verifier::when_used_as_spec(spec_zero)]
    pub fn zero() -> (r: Scalar)
        ensures
            r == Scalar::spec_zero(),
    {
        Scalar { bits: 0 }
    }

    /// Flips the sign and leaves every other bit alone.
    pub fn negate(self) -> (r: Scalar)
        ensures
            r == self.negated(),
    {
        Scalar { bits: self.bits ^ SIGN_BIT }
    }
}

impl PartialEq for Scalar {
    fn eq(&self, other: &Scalar) -> (r: bool) {
        let a: u64 = self.bits & MAGNITUDE_BITS;
        let b: u64 = other.bits & MAGNITUDE_BITS;
        a <= INFINITY_BITS && b <= INFINITY_BITS && (self.bits == other.bits || (a == 0 && b == 0))
    }
}

impl PartialEqSpecImpl for Scalar {
    open spec fn obeys_eq_spec() -> bool {
        true
    }

    open spec fn eq_spec(&self, other: &Scalar) -> bool {
        self.same_number(*other)
    }
}

/// The sign, exponent and fraction of a pattern are its bits: the tests on
/// the whole pattern are tests on these three fields.
pub proof fn lemma_fields(a: Scalar)
    ensures
        a.sign() <= 1,
        a.exponent() < 0x800,
        a.fraction() < 0x10_0000_0000_0000,
        a.bits == a.sign() * 0x8000_0000_0000_0000 + a.exponent() * 0x10_0000_0000_0000
            + a.fraction(),
        a.magnitude_bits() == a.exponent() * 0x10_0000_0000_0000 + a.fraction(),
        a.is_nan() == (a.exponent() == 0x7ff && a.fraction() != 0),
        a.is_zero() == (a.exponent() == 0 && a.fraction() == 0),
        a.negated().sign() == 1 - a.sign(),
        a.negated().exponent() == a.exponent(),
        a.negated().fraction() == a.fraction(),
{
    let b = a.bits;
    assert(b & 0x7fff_ffff_ffff_ffffu64 == b % 0x8000_0000_0000_0000u64) by (bit_vector);
    assert(b ^ 0x8000_0000_0000_0000u64 == if b >= 0x8000_0000_0000_0000u64 {
        (b - 0x8000_0000_0000_0000u64) as u64
    } else {
        (b + 0x8000_0000_0000_0000u64) as u64
    }) by (bit_vector);
}

/// Numeric equality does not depend on the order of its operands.
pub proof fn lemma_same_number_symmetric(a: Scalar, b: Scalar)
    ensures
        a.same_number(b) == b.same_number(a),
{
}

/// Negating twice gives the pattern back, bit for bit.
pub proof fn lemma_negated_twice(a: Scalar)
    ensures
        a.negated().negated() == a,
{
    let b = a.bits;
    assert((b ^ 0x8000_0000_0000_0000u64) ^ 0x8000_0000_0000_0000u64 == b) by (bit_vector);
}

/// Negation changes the sign bit and nothing else, so it keeps NaNs NaNs and
/// zeros zeros, and a negated pattern always differs from the one it came from.
pub proof fn lemma_negated_keeps_magnitude(a: Scalar)
    ensures
        a.negated().magnitude_bits() == a.magnitude_bits(),
        a.negated().is_nan() == a.is_nan(),
        a.negated().is_zero() == a.is_zero(),
        a.negated().bits != a.bits,
{
    let b = a.bits;
    assert((b ^ 0x8000_0000_0000_0000u64) & 0x7fff_ffff_ffff_ffffu64 == b
        & 0x7fff_ffff_ffff_ffffu64) by (bit_vector);
    assert((b ^ 0x8000_0000_0000_0000u64) != b) by (bit_vector);
}

} // verus!
