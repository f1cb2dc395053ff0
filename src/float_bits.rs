//! IEEE-754 binary64 values carried as their bit patterns, with the order
//! that the `<` of `f64` gives them.
use vstd::prelude::*;

verus! {

/// All bits but the sign.
pub const MAGNITUDE_MASK: u64 = 0x7fff_ffff_ffff_ffff;

/// The magnitude of both infinities; every larger magnitude is a NaN.
pub const INFINITY_MAGNITUDE: u64 = 0x7ff0_0000_0000_0000;

/// Bits of the magnitude of `bits`: its exponent and fraction fields.
pub open spec fn magnitude(bits: u64) -> u64 {
    bits & MAGNITUDE_MASK
}

/// The sign bit of `bits` is set.
pub open spec fn sign_set(bits: u64) -> bool {
    (bits >> 63u64) != 0
}

/// `bits` encodes a NaN: all exponent bits set and a fraction that is not zero.
pub open spec fn nan_bits(bits: u64) -> bool {
    magnitude(bits) > INFINITY_MAGNITUDE
}

/// The position of the value that `bits` encodes on the line of reals.
///
/// In binary64 the exponent field lies above the fraction and is biased, so
/// among values of one sign a larger magnitude field is a larger absolute
/// value, infinity included. Both zeros have rank 0.
pub open spec fn rank(bits: u64) -> int {
    if sign_set(bits) {
        -(magnitude(bits) as int)
    } else {
        magnitude(bits) as int
    }
}

/// The `<` of `f64` on the values that `a` and `b` encode: false where
/// either is a NaN, and false between the two zeros.
pub open spec fn float_less(a: u64, b: u64) -> bool {
    !nan_bits(a) && !nan_bits(b) && rank(a) < rank(b)
}

/// A binary64 value, held as its bit pattern.
#[derive(Clone, Copy, Debug, PartialEq, Eq, Structural)]
pub struct FloatBits {
    pub bits: u64,
}

impl FloatBits {
    /// The value whose bit pattern is `bits`.
    pub fn from_bits(bits: u64) -> (r: FloatBits)
        ensures
            r.bits == bits,
    {
        FloatBits { bits }
    }

    /// The bit pattern of this value.
    pub fn to_bits(&self) -> (r: u64)
        ensures
            r == self.bits,
    {
        self.bits
    }

    /// This value is a NaN.
    pub fn is_nan(&self) -> (r: bool)
        ensures
            r == nan_bits(self.bits),
    {
        (self.bits & MAGNITUDE_MASK) > INFINITY_MAGNITUDE
    }

    /// `self < other` as `f64` compares them.
    pub fn less_than(&self, other: &FloatBits) -> (r: bool)
        ensures
            r == float_less(self.bits, other.bits),
    {
        let a = self.bits & MAGNITUDE_MASK;
        let b = other.bits & MAGNITUDE_MASK;
        if a > INFINITY_MAGNITUDE || b > INFINITY_MAGNITUDE {
            return false;
        }
        let a_negative = (self.bits >> 63u64) != 0;
        let b_negative = (other.bits >> 63u64) != 0;
        if a_negative {
            if b_negative {
                b < a
            } else {
                a != 0 || b != 0
            }
        } else {
            if b_negative {
                false
            } else {
                a < b
            }
        }
    }
}

/// No value is less than itself.
pub proof fn lemma_less_irreflexive(a: u64)
    ensures
        !float_less(a, a),
{
}

/// The order of `f64` is transitive.
pub proof fn lemma_less_transitive(a: u64, b: u64, c: u64)
    requires
        float_less(a, b),
        float_less(b, c),
    ensures
        float_less(a, c),
{
}

/// The order of `f64` is asymmetric.
pub proof fn lemma_less_asymmetric(a: u64, b: u64)
    requires
        float_less(a, b),
    ensures
        !float_less(b, a),
{
}

} // verus!
