//! Binary64 numbers as bit patterns, with the comparisons of IEEE-754.

use vstd::prelude::*;

verus! {

/// The sign bit of a binary64 pattern.
pub const SIGN_BIT: u64 = 0x8000_0000_0000_0000;

/// The pattern of positive infinity; every larger magnitude is a NaN.
pub const INFINITY_BITS: u64 = 0x7FF0_0000_0000_0000;

/// The pattern of the number one.
pub const ONE_BITS: u64 = 0x3FF0_0000_0000_0000;

/// A binary64 number, held as its 64 bits.
///
/// Two scalars are `==` when their bits are the same; the numeric
/// comparison, under which the two zeros are equal and a NaN equals
/// nothing, is [`Scalar::equals`].
#[derive(Clone, Copy, Debug, PartialEq, Eq, Structural)]
pub struct Scalar {
    pub bits: u64,
}

impl Scalar {
    /// The pattern with the sign bit cleared.
    pub open spec fn magnitude(self) -> int {
        if self.bits >= SIGN_BIT {
            self.bits - SIGN_BIT
        } else {
            self.bits as int
        }
    }

    /// Whether the sign bit is set.
    pub open spec fn sign(self) -> bool {
        self.bits >= SIGN_BIT
    }

    /// Whether the pattern is a NaN.
    pub open spec fn nan(self) -> bool {
        self.magnitude() > INFINITY_BITS
    }

    /// The place of the number on the line of integers: for two numbers that
    /// are not NaN, the smaller number has the smaller rank, and both zeros
    /// have rank zero.
    pub open spec fn rank(self) -> int {
        if self.sign() {
            -self.magnitude()
        } else {
            self.magnitude()
        }
    }

    /// `self < other` as IEEE-754 defines it.
    pub open spec fn lt_spec(self, other: Scalar) -> bool {
        !self.nan() && !other.nan() && self.rank() < other.rank()
    }

    /// `self <= other` as IEEE-754 defines it.
    pub open spec fn le_spec(self, other: Scalar) -> bool {
        !self.nan() && !other.nan() && self.rank() <= other.rank()
    }

    /// `self == other` as IEEE-754 defines it.
    pub open spec fn equals_spec(self, other: Scalar) -> bool {
        !self.nan() && !other.nan() && self.rank() == other.rank()
    }

    /// The number with the opposite sign.
    pub open spec fn neg_spec(self) -> Scalar {
        if self.bits >= SIGN_BIT {
            Scalar { bits: (self.bits - SIGN_BIT) as u64 }
        } else {
            Scalar { bits: (self.bits + SIGN_BIT) as u64 }
        }
    }

    /// The number with the sign bit cleared.
    pub open spec fn abs_spec(self) -> Scalar {
        Scalar { bits: self.magnitude() as u64 }
    }

    /// The smaller of two numbers; a NaN gives way to the other argument,
    /// and of two equal numbers the first is kept.
    pub open spec fn min_spec(self, other: Scalar) -> Scalar {
        if self.nan() {
            other
        } else if other.nan() {
            self
        } else if other.rank() < self.rank() {
            other
        } else {
            self
        }
    }

    /// The larger of two numbers; a NaN gives way to the other argument,
    /// and of two equal numbers the first is kept.
    pub open spec fn max_spec(self, other: Scalar) -> Scalar {
        if self.nan() {
            other
        } else if other.nan() {
            self
        } else if other.rank() > self.rank() {
            other
        } else {
            self
        }
    }

    /// The scalar with the given bits.
    pub fn from_bits(bits: u64) -> (r: Scalar)
        ensures
            r.bits == bits,
    {
        Scalar { bits }
    }

    /// The bits of the scalar.
    pub fn to_bits(self) -> (r: u64)
        ensures
            r == self.bits,
    {
        self.bits
    }

    /// Positive zero.
    pub fn zero() -> (r: Scalar)
        ensures
            r.bits == 0,
            !r.nan(),
            r.rank() == 0,
    {
        Scalar { bits: 0 }
    }

    /// The number one.
    pub fn one() -> (r: Scalar)
        ensures
            r.bits == ONE_BITS,
            !r.nan(),
            r.rank() == ONE_BITS,
    {
        Scalar { bits: ONE_BITS }
    }

    /// Positive infinity.
    pub fn infinity() -> (r: Scalar)
        ensures
            r.bits == INFINITY_BITS,
            !r.nan(),
            r.rank() == INFINITY_BITS,
    {
        Scalar { bits: INFINITY_BITS }
    }

    /// Negative infinity.
    pub fn neg_infinity() -> (r: Scalar)
        ensures
            r.bits == INFINITY_BITS + SIGN_BIT,
            !r.nan(),
            r.rank() == -INFINITY_BITS,
    {
        Scalar { bits: INFINITY_BITS + SIGN_BIT }
    }

    /// Whether the scalar is a NaN.
    pub fn is_nan(self) -> (r: bool)
        ensures
            r == self.nan(),
    {
        let magnitude: u64 = if self.bits >= SIGN_BIT {
            self.bits - SIGN_BIT
        } else {
            self.bits
        };
        magnitude > INFINITY_BITS
    }

    /// Whether the sign bit is set, which it is for negative zero too.
    pub fn is_sign_negative(self) -> (r: bool)
        ensures
            r == self.sign(),
    {
        self.bits >= SIGN_BIT
    }

    /// The rank as a machine integer.
    pub fn key(self) -> (r: i64)
        ensures
            r == self.rank(),
    {
        if self.bits >= SIGN_BIT {
            let magnitude: u64 = self.bits - SIGN_BIT;
            -(magnitude as i64)
        } else {
            self.bits as i64
        }
    }

    /// Numeric `<`.
    pub fn lt(self, other: Scalar) -> (r: bool)
        ensures
            r == self.lt_spec(other),
    {
        !self.is_nan() && !other.is_nan() && self.key() < other.key()
    }

    /// Numeric `<=`.
    pub fn le(self, other: Scalar) -> (r: bool)
        ensures
            r == self.le_spec(other),
    {
        !self.is_nan() && !other.is_nan() && self.key() <= other.key()
    }

    /// Numeric `>`.
    pub fn gt(self, other: Scalar) -> (r: bool)
        ensures
            r == other.lt_spec(self),
    {
        other.lt(self)
    }

    /// Numeric `>=`.
    pub fn ge(self, other: Scalar) -> (r: bool)
        ensures
            r == other.le_spec(self),
    {
        other.le(self)
    }

    /// Numeric `==`: the two zeros are equal, and a NaN equals nothing.
    pub fn equals(self, other: Scalar) -> (r: bool)
        ensures
            r == self.equals_spec(other),
    {
        !self.is_nan() && !other.is_nan() && self.key() == other.key()
    }

    /// The number with the opposite sign; only the sign bit changes.
    pub fn neg(self) -> (r: Scalar)
        ensures
            r == self.neg_spec(),
            r.nan() == self.nan(),
            r.magnitude() == self.magnitude(),
            r.sign() == !self.sign(),
            r.rank() == -self.rank(),
    {
        if self.bits >= SIGN_BIT {
            Scalar { bits: self.bits - SIGN_BIT }
        } else {
            Scalar { bits: self.bits + SIGN_BIT }
        }
    }

    /// The absolute value; only the sign bit changes.
    pub fn abs(self) -> (r: Scalar)
        ensures
            r == self.abs_spec(),
            r.nan() == self.nan(),
            !r.sign(),
            r.rank() == self.magnitude(),
    {
        if self.bits >= SIGN_BIT {
            Scalar { bits: self.bits - SIGN_BIT }
        } else {
            self
        }
    }

    /// The smaller of two numbers.
    pub fn min(self, other: Scalar) -> (r: Scalar)
        ensures
            r == self.min_spec(other),
    {
        if self.is_nan() {
            other
        } else if other.is_nan() {
            self
        } else if other.key() < self.key() {
            other
        } else {
            self
        }
    }

    /// The larger of two numbers.
    pub fn max(self, other: Scalar) -> (r: Scalar)
        ensures
            r == self.max_spec(other),
    {
        if self.is_nan() {
            other
        } else if other.is_nan() {
            self
        } else if other.key() > self.key() {
            other
        } else {
            self
        }
    }
}

/// Two numbers compare in exactly one way: less, equal or greater.
pub proof fn lemma_order_is_total(a: Scalar, b: Scalar)
    requires
        !a.nan(),
        !b.nan(),
    ensures
        a.lt_spec(b) || a.equals_spec(b) || b.lt_spec(a),
        !(a.lt_spec(b) && a.equals_spec(b)),
        !(a.lt_spec(b) && b.lt_spec(a)),
        !(a.equals_spec(b) && b.lt_spec(a)),
        a.le_spec(b) <==> a.lt_spec(b) || a.equals_spec(b),
{
}

/// Less-than is transitive, and a NaN compares with nothing.
pub proof fn lemma_order_is_transitive(a: Scalar, b: Scalar, c: Scalar)
    ensures
        a.lt_spec(b) && b.lt_spec(c) ==> a.lt_spec(c),
        a.le_spec(b) && b.le_spec(c) ==> a.le_spec(c),
        a.nan() ==> !a.lt_spec(b) && !b.lt_spec(a) && !a.le_spec(b) && !a.equals_spec(b),
{
}

/// Changing the signs of two numbers reverses their order, and the two
/// zeros are equal.
pub proof fn lemma_neg_reverses(a: Scalar, b: Scalar)
    ensures
        a.lt_spec(b) <==> b.neg_spec().lt_spec(a.neg_spec()),
        a.neg_spec().neg_spec() == a,
        (Scalar { bits: 0 }).equals_spec((Scalar { bits: 0 }).neg_spec()),
{
}

/// The lesser of two numbers is one of them and at most either; the
/// greater is one of them and at least either.
pub proof fn lemma_min_max_bound(a: Scalar, b: Scalar)
    requires
        !a.nan(),
        !b.nan(),
    ensures
        a.min_spec(b) == a || a.min_spec(b) == b,
        a.min_spec(b).le_spec(a) && a.min_spec(b).le_spec(b),
        a.max_spec(b) == a || a.max_spec(b) == b,
        a.le_spec(a.max_spec(b)) && b.le_spec(a.max_spec(b)),
{
}

/// Three scalars: a point, a direction or a colour.
#[derive(Clone, Copy, Debug, PartialEq, Eq, Structural)]
pub struct Vec3 {
    pub x: Scalar,
    pub y: Scalar,
    pub z: Scalar,
}

impl Vec3 {
    /// Whether a component is a NaN.
    pub open spec fn nan(self) -> bool {
        self.x.nan() || self.y.nan() || self.z.nan()
    }

    /// The vector with every component negated.
    pub open spec fn neg_spec(self) -> Vec3 {
        Vec3 { x: self.x.neg_spec(), y: self.y.neg_spec(), z: self.z.neg_spec() }
    }

    /// The vector whose components are all the same scalar.
    pub open spec fn splat_spec(value: Scalar) -> Vec3 {
        Vec3 { x: value, y: value, z: value }
    }

    /// The component on the given axis: `y` for 1, `z` for 2, `x` otherwise.
    pub open spec fn axis_spec(self, n: int) -> Scalar {
        if n == 1 {
            self.y
        } else if n == 2 {
            self.z
        } else {
            self.x
        }
    }

    /// The vector of the three components.
    pub fn new(x: Scalar, y: Scalar, z: Scalar) -> (r: Vec3)
        ensures
            r == (Vec3 { x, y, z }),
    {
        Vec3 { x, y, z }
    }

    /// The vector whose components are all the same scalar.
    pub fn splat(value: Scalar) -> (r: Vec3)
        ensures
            r == Vec3::splat_spec(value),
    {
        Vec3 { x: value, y: value, z: value }
    }

    /// The component on the given axis.
    pub fn axis(self, n: i32) -> (r: Scalar)
        ensures
            r == self.axis_spec(n as int),
    {
        if n == 1 {
            self.y
        } else if n == 2 {
            self.z
        } else {
            self.x
        }
    }

    /// The opposite vector.
    pub fn neg(self) -> (r: Vec3)
        ensures
            r == self.neg_spec(),
    {
        Vec3 { x: self.x.neg(), y: self.y.neg(), z: self.z.neg() }
    }
}

} // verus!
