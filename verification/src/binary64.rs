//! IEEE-754 binary64 values held as bit patterns.
//!
//! A pattern splits into a sign bit, an 11-bit biased exponent and a 52-bit
//! fraction. A finite pattern denotes the real number
//! `scaled_value() / 2^1074`; scaling by the smallest subnormal keeps the
//! model inside the integers.

use vstd::prelude::*;
use vstd::arithmetic::power2::{pow2, lemma_pow2_pos, lemma_pow2_unfold, lemma_pow2_strictly_increases};

verus! {

/// The sign bit of a binary64 bit pattern.
pub const SIGN_BIT: u64 = 0x8000_0000_0000_0000;

/// The bit pattern of positive infinity: exponent field all ones, fraction zero.
pub const INFINITY_BITS: u64 = 0x7FF0_0000_0000_0000;

/// Two to the power 52: the weight of the exponent field's lowest bit, and
/// the implicit leading bit of a normal significand.
pub const HIDDEN_BIT: u64 = 0x0010_0000_0000_0000;

/// The biased exponent shared by the infinities and the NaNs.
pub const EXPONENT_MAX: u64 = 2047;

/// A binary64 floating-point value, held as its 64-bit pattern.
#[derive(Clone, Copy, Debug, PartialEq, Eq, Structural)]
pub struct Binary64 {
    pub bits: u64,
}

impl Binary64 {
    /// Whether the sign bit is set.
    pub open spec fn sign_negative(self) -> bool {
        self.bits >= SIGN_BIT
    }

    /// The pattern with its sign bit cleared.
    pub open spec fn abs_bits(self) -> nat {
        if self.bits >= SIGN_BIT {
            (self.bits - SIGN_BIT) as nat
        } else {
            self.bits as nat
        }
    }

    /// The exponent field, between 0 and 2047.
    pub open spec fn biased_exponent(self) -> nat {
        self.abs_bits() / (HIDDEN_BIT as nat)
    }

    /// The fraction field, below 2^52.
    pub open spec fn fraction(self) -> nat {
        self.abs_bits() % (HIDDEN_BIT as nat)
    }

    /// Neither an infinity nor a NaN.
    pub open spec fn finite(self) -> bool {
        self.biased_exponent() < EXPONENT_MAX
    }

    /// Positive or negative infinity.
    pub open spec fn infinite(self) -> bool {
        self.biased_exponent() == EXPONENT_MAX && self.fraction() == 0
    }

    /// Not a number.
    pub open spec fn nan(self) -> bool {
        self.biased_exponent() == EXPONENT_MAX && self.fraction() != 0
    }

    /// For a finite pattern, the absolute value it denotes, times 2^1074.
    /// A subnormal (exponent field 0) has significand `fraction`; a normal
    /// one has significand `2^52 + fraction` and weight `2^(exponent - 1)`.
    pub open spec fn scaled_magnitude(self) -> nat {
        if self.biased_exponent() == 0 {
            self.fraction()
        } else {
            (HIDDEN_BIT + self.fraction()) as nat * pow2((self.biased_exponent() - 1) as nat)
        }
    }

    /// For a finite pattern, the value it denotes, times 2^1074.
    pub open spec fn scaled_value(self) -> int {
        if self.sign_negative() {
            -(self.scaled_magnitude() as int)
        } else {
            self.scaled_magnitude() as int
        }
    }

    /// Finite and greater than zero.
    pub open spec fn positive(self) -> bool {
        self.finite() && self.scaled_value() > 0
    }

    /// Equal to zero, of either sign.
    pub open spec fn zero(self) -> bool {
        self.finite() && self.scaled_value() == 0
    }

    /// `|self| < |bound|` as IEEE-754 orders the extended reals: false when
    /// either side is a NaN, and every finite value lies below the infinities.
    pub open spec fn magnitude_below(self, bound: Binary64) -> bool {
        &&& self.finite()
        &&& !bound.nan()
        &&& bound.infinite() || self.scaled_magnitude() < bound.scaled_magnitude()
    }

    /// Wraps a bit pattern.
    pub fn from_bits(bits: u64) -> (value: Binary64)
        ensures
            value.bits == bits,
    {
        Binary64 { bits }
    }

    /// The bit pattern of this value.
    pub fn to_bits(self) -> (bits: u64)
        ensures
            bits == self.bits,
    {
        self.bits
    }

    /// The pattern with its sign bit cleared.
    fn magnitude_bits(self) -> (bits: u64)
        ensures
            bits == self.abs_bits(),
            bits < SIGN_BIT,
    {
        if self.bits >= SIGN_BIT {
            self.bits - SIGN_BIT
        } else {
            self.bits
        }
    }

    /// Tells whether the value is neither an infinity nor a NaN.
    pub fn is_finite(self) -> (r: bool)
        ensures
            r == self.finite(),
    {
        self.magnitude_bits() < INFINITY_BITS
    }

    /// Tells whether the value is finite and greater than zero.
    pub fn is_positive(self) -> (r: bool)
        ensures
            r == self.positive(),
    {
        proof {
            self.lemma_magnitude_zero();
        }
        0 < self.bits && self.bits < INFINITY_BITS
    }

    /// Tells whether the value equals zero; negative zero does.
    pub fn is_zero(self) -> (r: bool)
        ensures
            r == self.zero(),
    {
        proof {
            self.lemma_magnitude_zero();
        }
        self.magnitude_bits() == 0
    }

    /// Tells whether `|self| < |bound|`.
    pub fn is_magnitude_below(self, bound: Binary64) -> (r: bool)
        ensures
            r == self.magnitude_below(bound),
    {
        proof {
            if self.finite() && bound.finite() {
                Self::lemma_magnitude_order(self, bound);
            }
        }
        let own: u64 = self.magnitude_bits();
        let other: u64 = bound.magnitude_bits();
        own < INFINITY_BITS && other <= INFINITY_BITS && own < other
    }

    /// The scaled magnitude is zero exactly when all bits but the sign are clear.
    pub proof fn lemma_magnitude_zero(self)
        ensures
            self.scaled_magnitude() == 0 <==> self.abs_bits() == 0,
    {
        let e = self.biased_exponent();
        let f = self.fraction();
        if e > 0 {
            let w = pow2((e - 1) as nat);
            lemma_pow2_pos((e - 1) as nat);
            assert((HIDDEN_BIT + f) as nat * w > 0) by (nonlinear_arith)
                requires
                    w > 0,
                    f >= 0,
            ;
        }
    }

    /// Among finite patterns, the order of the magnitudes denoted is the
    /// order of the patterns with their sign bits cleared.
    pub proof fn lemma_magnitude_order(a: Binary64, b: Binary64)
        requires
            a.finite(),
            b.finite(),
        ensures
            a.abs_bits() < b.abs_bits() <==> a.scaled_magnitude() < b.scaled_magnitude(),
            a.abs_bits() == b.abs_bits() <==> a.scaled_magnitude() == b.scaled_magnitude(),
    {
        if a.abs_bits() < b.abs_bits() {
            Self::lemma_magnitude_increases(a, b);
        } else if b.abs_bits() < a.abs_bits() {
            Self::lemma_magnitude_increases(b, a);
        }
    }

    proof fn lemma_magnitude_increases(a: Binary64, b: Binary64)
        requires
            a.finite(),
            b.finite(),
            a.abs_bits() < b.abs_bits(),
        ensures
            a.scaled_magnitude() < b.scaled_magnitude(),
    {
        let h = HIDDEN_BIT as nat;
        let (ea, fa) = (a.biased_exponent(), a.fraction());
        let (eb, fb) = (b.biased_exponent(), b.fraction());
        assert(ea < eb || (ea == eb && fa < fb));
        if ea == eb {
            if ea > 0 {
                let w = pow2((ea - 1) as nat);
                lemma_pow2_pos((ea - 1) as nat);
                assert((h + fa) * w < (h + fb) * w) by (nonlinear_arith)
                    requires
                        w > 0,
                        fa < fb,
                ;
            }
        } else {
            let wb = pow2((eb - 1) as nat);
            lemma_pow2_pos((eb - 1) as nat);
            if ea == 0 {
                assert((h + fb) * wb >= h) by (nonlinear_arith)
                    requires
                        wb >= 1,
                        fb >= 0,
                        h >= 0,
                ;
            } else {
                let wa = pow2((ea - 1) as nat);
                lemma_pow2_pos((ea - 1) as nat);
                lemma_pow2_unfold(ea);
                if ea < eb - 1 {
                    lemma_pow2_strictly_increases(ea, (eb - 1) as nat);
                }
                assert(2 * wa <= wb);
                assert((h + fa) * wa < (h + fb) * wb) by (nonlinear_arith)
                    requires
                        fa < h,
                        fb >= 0,
                        wa > 0,
                        2 * wa <= wb,
                ;
            }
        }
    }
}

} // verus!
