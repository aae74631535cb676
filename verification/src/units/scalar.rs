//! IEEE-754 doubles by their bit patterns, and their order.

use vstd::arithmetic::power2::{lemma_pow2_pos, lemma_pow2_strictly_increases, lemma_pow2_unfold, pow2};
use vstd::prelude::*;

verus! {

/// The sign bit of a double.
pub const SIGN_BIT: u64 = 0x8000_0000_0000_0000;

/// Magnitude bits of positive infinity; every larger magnitude is a NaN.
pub const INFINITY_BITS: u64 = 0x7FF0_0000_0000_0000;

/// The number of values that the fraction field can hold: 2^52.
pub const FRACTION_SPAN: u64 = 0x10_0000_0000_0000;

/// Bits of `0.0`.
pub const ZERO_BITS: u64 = 0;

/// Bits of `1.0`.
pub const ONE_BITS: u64 = 0x3FF0_0000_0000_0000;

/// A double-precision number, held as the 64 bits of its encoding.
///
/// The derived `==` compares bits. The numeric comparisons are the methods
/// [`Scalar::lt`], [`Scalar::le`], [`Scalar::gt`], [`Scalar::ge`] and
/// [`Scalar::equals`]: a NaN compares false with everything, and the two
/// zeros are equal.
#[derive(Clone, Copy, Debug, PartialEq, Eq, Structural)]
pub struct Scalar {
    pub bits: u64,
}

impl Scalar {
    /// The encoding without its sign bit.
    pub open spec fn magnitude(self) -> int {
        if self.bits >= SIGN_BIT {
            self.bits - SIGN_BIT
        } else {
            self.bits as int
        }
    }

    /// Whether the sign bit is set.
    pub open spec fn sign(self) -> bool {
        self.bits >= SIGN_BIT
    }

    /// Whether the value is a NaN.
    pub open spec fn nan(self) -> bool {
        self.magnitude() > INFINITY_BITS
    }

    /// The place of a value that is no NaN on the number line: an integer
    /// that grows exactly as the value does. Both zeros stand at 0.
    pub open spec fn position(self) -> int {
        if self.sign() {
            -self.magnitude()
        } else {
            self.magnitude()
        }
    }

    /// Whether the value is a number that is not infinite.
    pub open spec fn finite(self) -> bool {
        self.magnitude() < INFINITY_BITS
    }

    /// The exponent field of the encoding, from 0 to 2047.
    pub open spec fn exponent_field(self) -> int {
        self.magnitude() / (FRACTION_SPAN as int)
    }

    /// The fraction field of the encoding, below 2^52.
    pub open spec fn fraction_field(self) -> int {
        self.magnitude() % (FRACTION_SPAN as int)
    }

    /// The absolute value of a finite double in units of 2^-1074, of which
    /// every finite double is a whole number: the fraction itself for a
    /// subnormal, and the fraction with its leading one, shifted by the
    /// exponent, for a normal.
    pub open spec fn scaled_size(self) -> int {
        if self.exponent_field() == 0 {
            self.fraction_field()
        } else {
            (FRACTION_SPAN + self.fraction_field()) * pow2((self.exponent_field() - 1) as nat)
        }
    }

    /// The value of a finite double in units of 2^-1074.
    pub open spec fn scaled_value(self) -> int {
        if self.sign() {
            -self.scaled_size()
        } else {
            self.scaled_size()
        }
    }

    /// `self < other` as doubles.
    pub open spec fn spec_lt(self, other: Scalar) -> bool {
        !self.nan() && !other.nan() && self.position() < other.position()
    }

    /// `self <= other` as doubles.
    pub open spec fn spec_le(self, other: Scalar) -> bool {
        !self.nan() && !other.nan() && self.position() <= other.position()
    }

    /// `self > other` as doubles.
    pub open spec fn spec_gt(self, other: Scalar) -> bool {
        other.spec_lt(self)
    }

    /// `self >= other` as doubles.
    pub open spec fn spec_ge(self, other: Scalar) -> bool {
        other.spec_le(self)
    }

    /// `self == other` as doubles.
    pub open spec fn spec_equals(self, other: Scalar) -> bool {
        !self.nan() && !other.nan() && self.position() == other.position()
    }

    /// The value `0.0`.
    pub open spec fn spec_zero() -> Scalar {
        Scalar { bits: ZERO_BITS }
    }

    /// The value `1.0`.
    pub open spec fn spec_one() -> Scalar {
        Scalar { bits: ONE_BITS }
    }

    /// The scalar with the given encoding.
    pub fn from_bits(bits: u64) -> (r: Scalar)
        ensures
            r.bits == bits,
    {
        Scalar { bits }
    }

    /// The encoding.
    pub fn to_bits(self) -> (r: u64)
        ensures
            r == self.bits,
    {
        self.bits
    }

    #[verifier::when_used_as_spec(spec_zero)]
    pub fn zero() -> (r: Scalar)
        ensures
            r == Scalar::spec_zero(),
    {
        Scalar { bits: ZERO_BITS }
    }

    #[verifier::when_used_as_spec(spec_one)]
    pub fn one() -> (r: Scalar)
        ensures
            r == Scalar::spec_one(),
    {
        Scalar { bits: ONE_BITS }
    }

    fn magnitude_bits(self) -> (r: u64)
        ensures
            r == self.magnitude(),
    {
        if self.bits >= SIGN_BIT {
            self.bits - SIGN_BIT
        } else {
            self.bits
        }
    }

    /// Whether the value is a NaN.
    #[verifier::when_used_as_spec(nan)]
    pub fn is_nan(self) -> (r: bool)
        ensures
            r == self.nan(),
    {
        self.magnitude_bits() > INFINITY_BITS
    }

    #[verifier::when_used_as_spec(spec_lt)]
    pub fn lt(self, other: Scalar) -> (r: bool)
        ensures
            r == self.spec_lt(other),
    {
        if self.is_nan() || other.is_nan() {
            return false;
        }
        let a: u64 = self.magnitude_bits();
        let b: u64 = other.magnitude_bits();
        if self.bits >= SIGN_BIT {
            if other.bits >= SIGN_BIT {
                b < a
            } else {
                a > 0 || b > 0
            }
        } else {
            if other.bits >= SIGN_BIT {
                false
            } else {
                a < b
            }
        }
    }

    #[verifier::when_used_as_spec(spec_equals)]
    pub fn equals(self, other: Scalar) -> (r: bool)
        ensures
            r == self.spec_equals(other),
    {
        if self.is_nan() || other.is_nan() {
            return false;
        }
        let a: u64 = self.magnitude_bits();
        let b: u64 = other.magnitude_bits();
        if a == 0 && b == 0 {
            true
        } else {
            self.bits == other.bits
        }
    }

    #[verifier::when_used_as_spec(spec_le)]
    pub fn le(self, other: Scalar) -> (r: bool)
        ensures
            r == self.spec_le(other),
    {
        self.lt(other) || self.equals(other)
    }

    #[verifier::when_used_as_spec(spec_gt)]
    pub fn gt(self, other: Scalar) -> (r: bool)
        ensures
            r == self.spec_gt(other),
    {
        other.lt(self)
    }

    #[verifier::when_used_as_spec(spec_ge)]
    pub fn ge(self, other: Scalar) -> (r: bool)
        ensures
            r == self.spec_ge(other),
    {
        other.le(self)
    }
}

/// Of two values that are no NaN exactly one of `<`, `==`, `>` holds.
pub proof fn lemma_trichotomy(a: Scalar, b: Scalar)
    requires
        !a.nan(),
        !b.nan(),
    ensures
        a.spec_lt(b) || a.spec_equals(b) || a.spec_gt(b),
        !(a.spec_lt(b) && a.spec_equals(b)),
        !(a.spec_lt(b) && a.spec_gt(b)),
        !(a.spec_equals(b) && a.spec_gt(b)),
        a.spec_ge(b) == !a.spec_lt(b),
        a.spec_le(b) == !a.spec_gt(b),
{
}

/// `<` is transitive, and so is `<=`.
pub proof fn lemma_order_transitive(a: Scalar, b: Scalar, c: Scalar)
    ensures
        a.spec_lt(b) && b.spec_lt(c) ==> a.spec_lt(c),
        a.spec_le(b) && b.spec_le(c) ==> a.spec_le(c),
        a.spec_le(b) && b.spec_lt(c) ==> a.spec_lt(c),
        a.spec_lt(b) && b.spec_le(c) ==> a.spec_lt(c),
{
}

/// A NaN is neither below, above nor equal to anything, itself included.
pub proof fn lemma_nan_unordered(a: Scalar, b: Scalar)
    requires
        a.nan() || b.nan(),
    ensures
        !a.spec_lt(b),
        !a.spec_le(b),
        !a.spec_gt(b),
        !a.spec_ge(b),
        !a.spec_equals(b),
{
}

/// Of two encodings the one with the greater magnitude bits is the
/// greater in absolute value.
pub proof fn lemma_magnitude_orders_sizes(a: Scalar, b: Scalar)
    requires
        a.magnitude() < b.magnitude(),
    ensures
        0 <= a.scaled_size() < b.scaled_size(),
{
    let span = FRACTION_SPAN as int;
    let ea = a.exponent_field();
    let eb = b.exponent_field();
    let fa = a.fraction_field();
    let fb = b.fraction_field();
    assert(a.magnitude() == ea * span + fa && 0 <= fa < span);
    assert(b.magnitude() == eb * span + fb && 0 <= fb < span);
    assert(0 <= ea <= eb);
    if ea == eb {
        if ea != 0 {
            let p = pow2((ea - 1) as nat) as int;
            lemma_pow2_pos((ea - 1) as nat);
            assert(fa < fb);
            assert(0 <= (span + fa) * p < (span + fb) * p) by (nonlinear_arith)
                requires
                    0 <= fa < fb,
                    0 < p,
                    0 < span,
            ;
        }
    } else {
        let q = pow2((eb - 1) as nat) as int;
        lemma_pow2_pos((eb - 1) as nat);
        assert(span * q <= (span + fb) * q) by (nonlinear_arith)
            requires
                0 <= fb,
                0 < q,
        ;
        assert(span <= span * q) by (nonlinear_arith)
            requires
                1 <= q,
                0 < span,
        ;
        if ea != 0 {
            let p = pow2((ea - 1) as nat) as int;
            lemma_pow2_pos((ea - 1) as nat);
            lemma_pow2_unfold(ea as nat);
            assert(pow2(ea as nat) == 2 * p);
            if ea < eb - 1 {
                lemma_pow2_strictly_increases(ea as nat, (eb - 1) as nat);
            }
            assert(2 * p <= q);
            assert(0 <= (span + fa) * p < span * (2 * p)) by (nonlinear_arith)
                requires
                    0 <= fa < span,
                    0 < p,
            ;
            assert(span * (2 * p) <= span * q) by (nonlinear_arith)
                requires
                    2 * p <= q,
                    0 < span,
            ;
        }
    }
}

/// The comparisons of this type are those of the values that the encodings
/// stand for: of two finite doubles, the one is below the other exactly
/// where its value is, and they are equal exactly where their values are.
pub proof fn lemma_order_is_by_value(a: Scalar, b: Scalar)
    requires
        a.finite(),
        b.finite(),
    ensures
        a.spec_lt(b) <==> a.scaled_value() < b.scaled_value(),
        a.spec_le(b) <==> a.scaled_value() <= b.scaled_value(),
        a.spec_equals(b) <==> a.scaled_value() == b.scaled_value(),
{
    if a.magnitude() < b.magnitude() {
        lemma_magnitude_orders_sizes(a, b);
    } else if b.magnitude() < a.magnitude() {
        lemma_magnitude_orders_sizes(b, a);
    }
    let zero = Scalar { bits: 0 };
    if a.magnitude() > 0 {
        lemma_magnitude_orders_sizes(zero, a);
    }
    if b.magnitude() > 0 {
        lemma_magnitude_orders_sizes(zero, b);
    }
}

/// Positive infinity is above every finite double and negative infinity
/// below, and the two zeros are the doubles of value zero.
pub proof fn lemma_infinities_and_zeros(a: Scalar)
    requires
        a.finite(),
    ensures
        a.spec_lt(Scalar { bits: INFINITY_BITS }),
        (Scalar { bits: (SIGN_BIT + INFINITY_BITS) as u64 }).spec_lt(a),
        a.spec_equals(Scalar::spec_zero()) <==> a.scaled_value() == 0,
        Scalar::spec_one().scaled_value() == pow2(1074),
{
    lemma_order_is_by_value(a, Scalar::spec_zero());
    let one = Scalar::spec_one();
    assert(one.exponent_field() == 1023);
    assert(one.fraction_field() == 0);
    vstd::arithmetic::power2::lemma_pow2_adds(52, 1022);
    vstd::arithmetic::power2::lemma2_to64_rest();
    assert(pow2(52) == FRACTION_SPAN);
    assert(one.scaled_size() == FRACTION_SPAN * pow2(1022));
}

} // verus!
