//! Bit-pattern carriers for floating-point values.
//!
//! A [`Scalar`] holds the bits of an IEEE-754 single-precision value and a
//! [`Seconds`] holds the bits of a double-precision clock reading. The crate
//! never does arithmetic on them; it only orders single-precision values the
//! way `f32::total_cmp` does and picks minima and maxima the way `f32::min`
//! and `f32::max` do, with `-0.0` taken as below `+0.0`.

use vstd::prelude::*;

verus! {

/// Sign bit of a single-precision bit pattern.
pub const SIGN_BIT: u32 = 0x8000_0000;

/// Bit pattern of positive infinity; every larger magnitude is a NaN.
pub const INFINITY_MAGNITUDE: u32 = 0x7f80_0000;

/// Bit pattern of `1.0`.
pub const ONE: u32 = 0x3f80_0000;

/// A single-precision value held by its bit pattern.
#[derive(Clone, Copy, Debug, PartialEq, Eq, Structural)]
pub struct Scalar {
    pub bits: u32,
}

/// A double-precision clock reading (seconds) held by its bit pattern.
#[derive(Clone, Copy, Debug, PartialEq, Eq, Structural)]
pub struct Seconds {
    pub bits: u64,
}

/// Three single-precision components held by their bit patterns.
#[derive(Clone, Copy, Debug, PartialEq, Eq, Structural)]
pub struct Vec3Bits {
    pub x: Scalar,
    pub y: Scalar,
    pub z: Scalar,
}

/// The integer that `f32::total_cmp` compares for a bit pattern: non-negative
/// patterns keep their value, negative ones are mirrored below zero.
pub open spec fn order_key(bits: u32) -> int {
    if bits < SIGN_BIT {
        bits as int
    } else {
        0x7fff_ffff - bits as int
    }
}

/// A bit pattern is a NaN when its exponent is all ones and its mantissa is
/// not zero.
pub open spec fn is_nan_bits(bits: u32) -> bool {
    bits % SIGN_BIT > INFINITY_MAGNITUDE
}

impl Scalar {
    /// The value `0.0`.
    pub open spec fn spec_zero() -> Scalar {
        Scalar { bits: 0 }
    }

    pub open spec fn key(self) -> int {
        order_key(self.bits)
    }

    pub open spec fn nan(self) -> bool {
        is_nan_bits(self.bits)
    }

    /// `self > 0.0`: a non-NaN value with the sign bit clear that is not zero.
    pub open spec fn positive(self) -> bool {
        0 < self.bits < SIGN_BIT && !self.nan()
    }

    /// `self >= 1.0`.
    pub open spec fn reaches_one(self) -> bool {
        !self.nan() && self.key() >= order_key(ONE)
    }

    /// `f32::total_cmp(self, other) == Less`.
    pub open spec fn total_lt(self, other: Scalar) -> bool {
        self.key() < other.key()
    }

    /// The minimum in the manner of `f32::min`: a NaN operand yields the
    /// other operand, otherwise the smaller value in the total order (which
    /// agrees with `f32::min` except that it separates the two zeros).
    pub open spec fn spec_min_num(self, other: Scalar) -> Scalar {
        if self.nan() {
            other
        } else if other.nan() {
            self
        } else if other.total_lt(self) {
            other
        } else {
            self
        }
    }

    /// The maximum in the manner of `f32::max`: a NaN operand yields the
    /// other operand, otherwise the larger value in the total order.
    pub open spec fn spec_max_num(self, other: Scalar) -> Scalar {
        if self.nan() {
            other
        } else if other.nan() {
            self
        } else if self.total_lt(other) {
            other
        } else {
            self
        }
    }

    /// The value `0.0`.
    pub fn zero() -> (r: Scalar)
        ensures
            r == Scalar::spec_zero(),
    {
        Scalar { bits: 0 }
    }

    /// The total-order key of this value.
    pub fn order_key(self) -> (r: i64)
        ensures
            r == self.key(),
    {
        if self.bits < SIGN_BIT {
            self.bits as i64
        } else {
            0x7fff_ffff_i64 - self.bits as i64
        }
    }

    pub fn is_nan(self) -> (r: bool)
        ensures
            r == self.nan(),
    {
        self.bits % SIGN_BIT > INFINITY_MAGNITUDE
    }

    /// Whether `self > 0.0`.
    pub fn is_positive(self) -> (r: bool)
        ensures
            r == self.positive(),
    {
        0 < self.bits && self.bits < SIGN_BIT && !self.is_nan()
    }

    /// Whether `self >= 1.0`.
    pub fn is_at_least_one(self) -> (r: bool)
        ensures
            r == self.reaches_one(),
    {
        !self.is_nan() && self.order_key() >= ONE as i64
    }

    /// Whether `self` orders strictly before `other` under `f32::total_cmp`.
    pub fn total_less_than(self, other: Scalar) -> (r: bool)
        ensures
            r == self.total_lt(other),
    {
        self.order_key() < other.order_key()
    }

    /// The minimum of two values; see [`Scalar::spec_min_num`].
    pub fn min_num(self, other: Scalar) -> (r: Scalar)
        ensures
            r == self.spec_min_num(other),
    {
        if self.is_nan() {
            other
        } else if other.is_nan() {
            self
        } else if other.total_less_than(self) {
            other
        } else {
            self
        }
    }

    /// The maximum of two values; see [`Scalar::spec_max_num`].
    pub fn max_num(self, other: Scalar) -> (r: Scalar)
        ensures
            r == self.spec_max_num(other),
    {
        if self.is_nan() {
            other
        } else if other.is_nan() {
            self
        } else if self.total_less_than(other) {
            other
        } else {
            self
        }
    }
}

impl Scalar {
    /// `self == other` between floats: a NaN equals nothing, the two zeros
    /// equal each other, and otherwise equal values have equal patterns.
    pub open spec fn float_eq(self, other: Scalar) -> bool {
        &&& !self.nan()
        &&& !other.nan()
        &&& (self.bits == other.bits || (self.bits % SIGN_BIT == 0 && other.bits % SIGN_BIT == 0))
    }

    /// Whether `self == other` holds between the floats.
    pub fn float_equals(self, other: Scalar) -> (r: bool)
        ensures
            r == self.float_eq(other),
    {
        !self.is_nan() && !other.is_nan() && (self.bits == other.bits || (self.bits % SIGN_BIT == 0
            && other.bits % SIGN_BIT == 0))
    }
}

impl Seconds {
    /// The clock reading `0.0`.
    pub fn zero() -> (r: Seconds)
        ensures
            r.bits == 0,
    {
        Seconds { bits: 0 }
    }
}

impl Vec3Bits {
    /// The zero vector.
    pub open spec fn spec_zero() -> Vec3Bits {
        Vec3Bits { x: Scalar::spec_zero(), y: Scalar::spec_zero(), z: Scalar::spec_zero() }
    }

    /// `self == other` between vectors: every component equal as a float.
    pub open spec fn float_eq(self, other: Vec3Bits) -> bool {
        &&& self.x.float_eq(other.x)
        &&& self.y.float_eq(other.y)
        &&& self.z.float_eq(other.z)
    }

    /// Whether `self == other` holds between the vectors.
    pub fn float_equals(self, other: Vec3Bits) -> (r: bool)
        ensures
            r == self.float_eq(other),
    {
        self.x.float_equals(other.x) && self.y.float_equals(other.y) && self.z.float_equals(other.z)
    }

    /// The zero vector.
    pub fn zero() -> (r: Vec3Bits)
        ensures
            r == Vec3Bits::spec_zero(),
    {
        Vec3Bits { x: Scalar::zero(), y: Scalar::zero(), z: Scalar::zero() }
    }
}

/// The total order on bit patterns is a total order: distinct patterns get
/// distinct keys, so exactly one of `<`, `==`, `>` holds.
pub proof fn order_key_injective(a: u32, b: u32)
    ensures
        order_key(a) == order_key(b) <==> a == b,
{
}

/// A value is positive exactly when it is not a NaN and orders above `+0.0`.
pub proof fn positive_iff_above_zero(a: Scalar)
    ensures
        a.positive() <==> !a.nan() && Scalar::spec_zero().total_lt(a),
{
}

/// Negative-signed patterns order below every non-negative-signed pattern.
pub proof fn order_key_sign(a: u32, b: u32)
    requires
        a >= SIGN_BIT,
        b < SIGN_BIT,
    ensures
        order_key(a) < order_key(b),
{
}

/// The minimum and the maximum are symmetric in their operands unless both
/// operands are NaNs.
pub proof fn min_max_num_symmetric(a: Scalar, b: Scalar)
    requires
        !(a.nan() && b.nan()),
    ensures
        a.spec_min_num(b) == b.spec_min_num(a),
        a.spec_max_num(b) == b.spec_max_num(a),
{
    order_key_injective(a.bits, b.bits);
}

/// Between non-NaN operands the minimum is below both and the maximum is
/// above both.
pub proof fn min_max_num_bounds(a: Scalar, b: Scalar)
    requires
        !a.nan(),
        !b.nan(),
    ensures
        a.spec_min_num(b).key() <= a.key(),
        a.spec_min_num(b).key() <= b.key(),
        a.spec_max_num(b).key() >= a.key(),
        a.spec_max_num(b).key() >= b.key(),
{
}

} // verus!
