//! Widening single-precision patterns to double precision.
//!
//! A binary32 pattern has one sign bit, eight exponent bits and 23 fraction
//! bits; a binary64 pattern has one, eleven and 52. Widening re-biases the
//! exponent and moves the fraction up; a subnormal single is normalised on
//! the way, since every one of them is a normal double.

use vstd::prelude::*;
use vstd::arithmetic::power2::pow2;
use vstd::arithmetic::power2::lemma2_to64;
use vstd::arithmetic::power2::lemma_pow2_adds;
use vstd::arithmetic::power2::lemma_pow2_pos;
use vstd::arithmetic::power2::lemma_pow2_strictly_increases;
use vstd::arithmetic::power2::lemma_pow2_unfold;
use crate::scalar::lemma_fields;
use crate::scalar::Scalar;

verus! {

/// The sign bit of a binary32 pattern.
pub open spec fn single_sign(bits: u32) -> nat {
    (bits / 0x8000_0000) as nat
}

/// The biased exponent of a binary32 pattern.
pub open spec fn single_exponent(bits: u32) -> nat {
    ((bits / 0x80_0000) % 0x100) as nat
}

/// The fraction bits of a binary32 pattern.
pub open spec fn single_fraction(bits: u32) -> nat {
    (bits % 0x80_0000) as nat
}

/// Whether a binary32 pattern stands for a number, and not for an infinity or a NaN.
pub open spec fn single_is_finite(bits: u32) -> bool {
    single_exponent(bits) < 0xff
}

/// Whether a binary32 pattern stands for one of the two infinities.
pub open spec fn single_is_infinite(bits: u32) -> bool {
    single_exponent(bits) == 0xff && single_fraction(bits) == 0
}

/// Whether a binary32 pattern is a NaN.
pub open spec fn single_is_nan(bits: u32) -> bool {
    single_exponent(bits) == 0xff && single_fraction(bits) != 0
}

/// The absolute value of a finite binary32 pattern, counted in units of
/// `2^-149`, the smallest positive single.
pub open spec fn single_magnitude(bits: u32) -> nat {
    if single_exponent(bits) == 0 {
        single_fraction(bits)
    } else {
        (0x80_0000 + single_fraction(bits)) * pow2((single_exponent(bits) - 1) as nat)
    }
}

/// The binary64 pattern with the given sign, biased exponent and fraction.
pub open spec fn assembled(sign: nat, exponent: nat, fraction: nat) -> Scalar {
    Scalar {
        bits: (sign * 0x8000_0000_0000_0000 + exponent * 0x10_0000_0000_0000 + fraction) as u64,
    }
}

/// How many times a subnormal fraction must be doubled until its leading one
/// reaches the place of the hidden bit.
pub open spec fn leading_gap(fraction: nat) -> nat
    decreases 0x100_0000 - fraction,
{
    if fraction == 0 || fraction >= 0x80_0000 {
        0
    } else {
        1 + leading_gap(2 * fraction)
    }
}

/// A subnormal fraction doubled until its leading one is the hidden bit.
pub open spec fn normalized(fraction: nat) -> nat
    decreases 0x100_0000 - fraction,
{
    if fraction == 0 || fraction >= 0x80_0000 {
        fraction
    } else {
        normalized(2 * fraction)
    }
}

/// The double-precision pattern of the number that the single-precision
/// pattern `bits` stands for. An infinity stays an infinity; a NaN becomes a
/// quiet NaN that keeps its sign and the low 22 bits of its payload.
pub open spec fn widened(bits: u32) -> Scalar {
    let sign = single_sign(bits);
    let exponent = single_exponent(bits);
    let fraction = single_fraction(bits);
    if exponent == 0xff {
        if fraction == 0 {
            assembled(sign, 0x7ff, 0)
        } else {
            assembled(sign, 0x7ff, 0x8_0000_0000_0000 + (fraction % 0x40_0000) * 0x2000_0000)
        }
    } else if exponent != 0 {
        assembled(sign, exponent + 896, fraction * 0x2000_0000)
    } else if fraction == 0 {
        assembled(sign, 0, 0)
    } else {
        assembled(
            sign,
            (897 - leading_gap(fraction)) as nat,
            ((normalized(fraction) - 0x80_0000) * 0x2000_0000) as nat,
        )
    }
}

/// The widened patterns of a whole array, element by element.
pub open spec fn widened_all(singles: Seq<u32>) -> Seq<Scalar> {
    Seq::new(singles.len(), |i: int| widened(singles[i]))
}

/// A subnormal fraction reaches the hidden bit after at most 23 doublings,
/// and then lies below twice the hidden bit.
pub proof fn lemma_normalized_bounds(fraction: nat)
    requires
        0 < fraction < 0x80_0000,
    ensures
        1 <= leading_gap(fraction) <= 23,
        0x80_0000 <= normalized(fraction) < 0x100_0000,
{
    assert(pow2(0) == 1) by {
        lemma2_to64();
    }
    lemma_gap_below(fraction, 0);
}

/// A fraction of at least `2^k` needs at most `23 - k` doublings.
proof fn lemma_gap_below(fraction: nat, k: nat)
    requires
        pow2(k) <= fraction < 0x80_0000,
    ensures
        k <= 22,
        1 <= leading_gap(fraction) <= 23 - k,
        0x80_0000 <= normalized(fraction) < 0x100_0000,
    decreases 0x100_0000 - fraction,
{
    assert(pow2(23) == 0x80_0000) by {
        lemma2_to64();
    }
    if k > 23 {
        lemma_pow2_strictly_increases(23, k);
    }
    assert(k <= 22);
    lemma_pow2_pos(k);
    if 2 * fraction < 0x80_0000 {
        lemma_pow2_unfold(k + 1);
        lemma_gap_below(2 * fraction, k + 1);
    } else {
        assert(leading_gap(2 * fraction) == 0);
    }
}

/// A pattern assembled from fields that fit has exactly those fields.
pub proof fn lemma_assembled(sign: nat, exponent: nat, fraction: nat)
    requires
        sign <= 1,
        exponent < 0x800,
        fraction < 0x10_0000_0000_0000,
    ensures
        assembled(sign, exponent, fraction).sign() == sign,
        assembled(sign, exponent, fraction).exponent() == exponent,
        assembled(sign, exponent, fraction).fraction() == fraction,
{
}

/// Normalising a subnormal fraction doubles it once for every step of its gap.
pub proof fn lemma_normalized_is_scaled(fraction: nat)
    requires
        0 < fraction < 0x80_0000,
    ensures
        normalized(fraction) == fraction * pow2(leading_gap(fraction)),
    decreases 0x100_0000 - fraction,
{
    let rest = leading_gap(2 * fraction);
    assert(normalized(fraction) == normalized(2 * fraction));
    assert(pow2(rest + 1) == 2 * pow2(rest)) by {
        lemma_pow2_unfold(rest + 1);
    }
    assert((2 * fraction) * pow2(rest) == fraction * (2 * pow2(rest))) by (nonlinear_arith);
    if 2 * fraction < 0x80_0000 {
        lemma_normalized_is_scaled(2 * fraction);
    } else {
        assert(pow2(0) == 1) by {
            lemma2_to64();
        }
    }
}

/// Widening keeps the number. The sign is kept. A finite single widens to a
/// finite double of the same absolute value: the double counts it in units
/// that are `2^925` times finer, so its count is `2^925` times the single's.
/// An infinity widens to an infinity and a NaN to a NaN.
pub proof fn lemma_widened_keeps_value(bits: u32)
    ensures
        widened(bits).sign() == single_sign(bits),
        single_is_finite(bits) ==> widened(bits).is_finite() && widened(bits).magnitude()
            == single_magnitude(bits) * pow2(925),
        single_is_infinite(bits) ==> widened(bits).is_infinite(),
        single_is_nan(bits) ==> widened(bits).is_nan(),
{
    let sign = single_sign(bits);
    let exponent = single_exponent(bits);
    let fraction = single_fraction(bits);
    lemma_fields(widened(bits));
    lemma2_to64();
    if exponent == 0xff {
        if fraction == 0 {
            lemma_assembled(sign, 0x7ff, 0);
        } else {
            lemma_assembled(sign, 0x7ff, 0x8_0000_0000_0000 + (fraction % 0x40_0000) * 0x2000_0000);
        }
    } else if exponent != 0 {
        lemma_assembled(sign, exponent + 896, fraction * 0x2000_0000);
        let unit = pow2((exponent + 895) as nat);
        lemma_pow2_adds((exponent - 1) as nat, 925);
        lemma_pow2_adds(29, (exponent + 895) as nat);
        assert(((0x80_0000 + fraction) * 0x2000_0000) * unit == (0x80_0000 + fraction) * (
        0x2000_0000 * unit)) by (nonlinear_arith);
        assert((0x80_0000 + fraction) * pow2((exponent - 1) as nat) * pow2(925) == (0x80_0000
            + fraction) * (pow2((exponent - 1) as nat) * pow2(925))) by (nonlinear_arith);
    } else if fraction == 0 {
        lemma_assembled(sign, 0, 0);
    } else {
        let gap = leading_gap(fraction);
        let scaled = normalized(fraction);
        lemma_normalized_bounds(fraction);
        lemma_normalized_is_scaled(fraction);
        lemma_assembled(sign, (897 - gap) as nat, ((scaled - 0x80_0000) * 0x2000_0000) as nat);
        let unit = pow2((896 - gap) as nat);
        lemma_pow2_adds(gap, 29);
        lemma_pow2_adds(gap + 29, (896 - gap) as nat);
        assert((fraction * pow2(gap) * 0x2000_0000) * unit == fraction * ((pow2(gap)
            * 0x2000_0000) * unit)) by (nonlinear_arith);
    }
}

/// Widens one single-precision pattern: the result stands for the same
/// number, with the same sign.
pub fn widen(bits: u32) -> (r: Scalar)
    ensures
        r == widened(bits),
        r.sign() == single_sign(bits),
        single_is_finite(bits) ==> r.is_finite() && r.magnitude() == single_magnitude(bits) * pow2(
            925,
        ),
        single_is_infinite(bits) ==> r.is_infinite(),
        single_is_nan(bits) ==> r.is_nan(),
{
    proof {
        lemma_widened_keeps_value(bits);
    }
    let sign: u64 = (bits / 0x8000_0000) as u64;
    let exponent: u64 = ((bits / 0x80_0000) % 0x100) as u64;
    let fraction: u64 = (bits % 0x80_0000) as u64;
    let top: u64 = sign * 0x8000_0000_0000_0000;
    if exponent == 0xff {
        if fraction == 0 {
            Scalar::from_bits(top + 0x7ff * 0x10_0000_0000_0000)
        } else {
            Scalar::from_bits(
                top + 0x7ff * 0x10_0000_0000_0000 + (0x8_0000_0000_0000 + (fraction % 0x40_0000)
                    * 0x2000_0000),
            )
        }
    } else if exponent != 0 {
        Scalar::from_bits(top + (exponent + 896) * 0x10_0000_0000_0000 + fraction * 0x2000_0000)
    } else if fraction == 0 {
        Scalar::from_bits(top)
    } else {
        let mut scaled: u64 = fraction;
        let mut gap: u64 = 0;
        proof {
            lemma_normalized_bounds(fraction as nat);
        }
        while scaled < 0x80_0000
            invariant
                0 < scaled < 0x100_0000,
                leading_gap(fraction as nat) <= 23,
                gap + leading_gap(scaled as nat) == leading_gap(fraction as nat),
                normalized(scaled as nat) == normalized(fraction as nat),
            decreases 0x100_0000 - scaled,
        {
            scaled = 2 * scaled;
            gap = gap + 1;
        }
        Scalar::from_bits(
            top + (897 - gap) * 0x10_0000_0000_0000 + (scaled - 0x80_0000) * 0x2000_0000,
        )
    }
}

/// Widens an array of single-precision patterns, element by element.
pub fn widen_all(singles: &Vec<u32>) -> (r: Vec<Scalar>)
    ensures
        r@ == widened_all(singles@),
{
    let mut r: Vec<Scalar> = Vec::with_capacity(singles.len());
    let mut i: usize = 0;
    while i < singles.len()
        invariant
            i <= singles.len(),
            r.len() == i,
            forall|k: int| 0 <= k < i ==> r@[k] == widened(singles@[k]),
        decreases singles.len() - i,
    {
        r.push(widen(singles[i]));
        i += 1;
    }
    r
}

} // verus!
