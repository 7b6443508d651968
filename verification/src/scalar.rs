//! Real numbers as they cross the boundary of this library: IEEE 754 binary64
//! values held as their 64 bits.
//!
//! The library never rounds. It classifies a value, orders two values and
//! changes a sign, all of which are exact on the bits; sums, products, roots
//! and every other rounded operation are the caller's.
//!
//! Layout of the bits, most significant first: one sign bit, eleven exponent
//! bits, fifty-two fraction bits. [`Scalar::value`] is the number that the
//! format makes of them, and the contracts of this library order numbers by
//! it. A larger pattern below the sign bit is a larger absolute value
//! ([`rank_orders_as_value`]), so the code orders two numbers by their bits.

use vstd::prelude::*;

verus! {

/// The sign bit.
pub const SIGN_BIT: u64 = 0x8000_0000_0000_0000;

/// Bits of positive infinity: every exponent bit set, no fraction bit.
pub const INFINITY_BITS: u64 = 0x7FF0_0000_0000_0000;

/// Bits of `1.0`.
pub const ONE_BITS: u64 = 0x3FF0_0000_0000_0000;

/// The lowest exponent bit: 2 to the 52.
pub const EXPONENT_UNIT: u64 = 0x0010_0000_0000_0000;

/// Bits of `256.0`.
pub const TWO_TO_THE_EIGHT_BITS: u64 = 0x4070_0000_0000_0000;

/// 2 to the `e`.
pub open spec fn two_to(e: nat) -> nat
    decreases e,
{
    if e == 0 {
        1
    } else {
        2 * two_to((e - 1) as nat)
    }
}

/// The absolute value, in units of 2 to the -1074, of the pattern `m` below
/// the sign bit. With exponent field `e` and fraction field `f`: `f` where
/// `e` is 0, a subnormal number, and `(2^52 + f) 2^(e - 1)` elsewhere.
pub open spec fn size_of(m: int) -> int {
    if m / (EXPONENT_UNIT as int) == 0 {
        m % (EXPONENT_UNIT as int)
    } else {
        (EXPONENT_UNIT + m % (EXPONENT_UNIT as int)) * two_to(
            (m / (EXPONENT_UNIT as int) - 1) as nat,
        )
    }
}

/// A binary64 value, by its bits.
#[derive(Clone, Copy, Debug, PartialEq, Eq, Structural)]
pub struct Scalar {
    pub bits: u64,
}

impl Scalar {
    /// The sign bit is set. True of `-0.0` as well.
    pub open spec fn negative(self) -> bool {
        self.bits >= SIGN_BIT
    }

    /// The bits below the sign bit: the absolute value, as a pattern.
    pub open spec fn magnitude(self) -> int {
        if self.bits >= SIGN_BIT {
            self.bits - SIGN_BIT
        } else {
            self.bits as int
        }
    }

    /// Not a number: the exponent bits are all set and some fraction bit is.
    pub open spec fn nan(self) -> bool {
        self.magnitude() > INFINITY_BITS
    }

    /// The number that the bits stand for, in units of 2 to the -1074, the
    /// smallest positive value: an integer for every finite value. The
    /// infinities come out beyond every finite value, and a NaN, which
    /// stands for no number, beyond those.
    pub open spec fn value(self) -> int {
        if self.negative() {
            -size_of(self.magnitude())
        } else {
            size_of(self.magnitude())
        }
    }

    /// The bits read as a sign and a magnitude. The rank orders as the value
    /// does, and both zeros have rank 0.
    pub open spec fn rank(self) -> int {
        if self.negative() {
            -self.magnitude()
        } else {
            self.magnitude()
        }
    }

    /// `self < other`, which is false when either is NaN.
    pub open spec fn below(self, other: Scalar) -> bool {
        !self.nan() && !other.nan() && self.value() < other.value()
    }

    /// `self <= other`, which is false when either is NaN.
    pub open spec fn at_most(self, other: Scalar) -> bool {
        !self.nan() && !other.nan() && self.value() <= other.value()
    }

    /// `lo <= self <= hi`.
    pub open spec fn within(self, lo: Scalar, hi: Scalar) -> bool {
        lo.at_most(self) && self.at_most(hi)
    }

    /// The absolute value: the sign bit cleared.
    pub open spec fn absolute(self) -> Scalar {
        if self.bits >= SIGN_BIT {
            Scalar { bits: (self.bits - SIGN_BIT) as u64 }
        } else {
            self
        }
    }

    /// `self` kept between `lo` and `hi`: `lo` where it is below `lo`, `hi`
    /// where it is above `hi`, itself elsewhere. A NaN is kept.
    pub open spec fn clamped(self, lo: Scalar, hi: Scalar) -> Scalar {
        if self.below(lo) {
            lo
        } else if hi.below(self) {
            hi
        } else {
            self
        }
    }

    /// The whole part of the value, kept between 0 and 255. A NaN gives 0.
    pub open spec fn whole_u8(self) -> u8 {
        if self.nan() || self.value() < 0 {
            0
        } else if self.value() >= 256 * two_to(1074) {
            255
        } else {
            (self.value() / (two_to(1074) as int)) as u8
        }
    }

    /// The same value with the other sign.
    pub open spec fn negated(self) -> Scalar {
        if self.bits >= SIGN_BIT {
            Scalar { bits: (self.bits - SIGN_BIT) as u64 }
        } else {
            Scalar { bits: (self.bits + SIGN_BIT) as u64 }
        }
    }

    pub fn from_bits(bits: u64) -> (s: Scalar)
        ensures
            s.bits == bits,
    {
        Scalar { bits }
    }

    pub fn to_bits(self) -> (bits: u64)
        ensures
            bits == self.bits,
    {
        self.bits
    }

    /// `0.0`.
    pub fn zero() -> (s: Scalar)
        ensures
            s.bits == 0,
            !s.nan(),
            s.value() == 0,
    {
        Scalar { bits: 0 }
    }

    /// `1.0`: 2 to the 1074 of the units in which values are counted.
    pub fn one() -> (s: Scalar)
        ensures
            s.bits == ONE_BITS,
            !s.nan(),
            s.value() == EXPONENT_UNIT * two_to(1022),
    {
        Scalar { bits: ONE_BITS }
    }

    /// Positive infinity, which no value that is not NaN exceeds.
    pub fn infinity() -> (s: Scalar)
        ensures
            s.bits == INFINITY_BITS,
            !s.nan(),
            forall|x: Scalar| !x.nan() ==> x.at_most(s),
    {
        let s = Scalar { bits: INFINITY_BITS };
        proof {
            assert forall|x: Scalar| !x.nan() implies x.at_most(s) by {
                rank_orders_as_value(x, s);
            }
        }
        s
    }

    /// The bits below the sign bit.
    pub fn magnitude_bits(self) -> (m: u64)
        ensures
            m == self.magnitude(),
            m < SIGN_BIT,
    {
        if self.bits >= SIGN_BIT {
            self.bits - SIGN_BIT
        } else {
            self.bits
        }
    }

    /// `|self|`: the sign bit cleared, every other bit kept.
    pub fn abs(self) -> (s: Scalar)
        ensures
            s == self.absolute(),
            s.nan() == self.nan(),
            s.value() == if self.value() < 0 {
                -self.value()
            } else {
                self.value()
            },
    {
        proof {
            rank_orders_as_value(self, Scalar { bits: 0 });
        }
        Scalar { bits: self.magnitude_bits() }
    }

    pub fn is_negative(self) -> (r: bool)
        ensures
            r == self.negative(),
    {
        self.bits >= SIGN_BIT
    }

    pub fn is_nan(self) -> (r: bool)
        ensures
            r == self.nan(),
    {
        self.magnitude_bits() > INFINITY_BITS
    }

    /// `self < other`.
    pub fn lt(self, other: Scalar) -> (r: bool)
        ensures
            r == self.below(other),
    {
        if self.is_nan() || other.is_nan() {
            return false;
        }
        proof {
            rank_orders_as_value(self, other);
        }
        let a: u64 = self.magnitude_bits();
        let b: u64 = other.magnitude_bits();
        if self.is_negative() {
            if other.is_negative() {
                a > b
            } else {
                a > 0 || b > 0
            }
        } else {
            !other.is_negative() && a < b
        }
    }

    /// `self <= other`.
    pub fn le(self, other: Scalar) -> (r: bool)
        ensures
            r == self.at_most(other),
    {
        if self.is_nan() || other.is_nan() {
            return false;
        }
        !other.lt(self)
    }

    /// `self > other`.
    pub fn gt(self, other: Scalar) -> (r: bool)
        ensures
            r == other.below(self),
    {
        other.lt(self)
    }

    /// `self >= other`.
    pub fn ge(self, other: Scalar) -> (r: bool)
        ensures
            r == other.at_most(self),
    {
        other.le(self)
    }

    /// `self` kept between `lo` and `hi`.
    pub fn clamp(self, lo: Scalar, hi: Scalar) -> (s: Scalar)
        requires
            lo.at_most(hi),
        ensures
            s == self.clamped(lo, hi),
            !self.nan() ==> s.within(lo, hi),
    {
        if self.lt(lo) {
            lo
        } else if self.gt(hi) {
            hi
        } else {
            self
        }
    }

    /// The value as a whole number between 0 and 255: what is behind the
    /// point is dropped, what is below 0 becomes 0 and what is above 255
    /// becomes 255.
    pub fn to_u8(self) -> (n: u8)
        ensures
            n == self.whole_u8(),
    {
        if self.is_nan() {
            return 0;
        }
        proof {
            rank_orders_as_value(self, Scalar { bits: 0 });
            rank_orders_as_value(self, Scalar { bits: ONE_BITS });
            rank_orders_as_value(self, Scalar { bits: TWO_TO_THE_EIGHT_BITS });
            value_of_a_power_of_two(1023);
            value_of_a_power_of_two(1031);
            two_to_adds(8, 1074);
            two_to_the_eight();
        }
        if self.is_negative() {
            proof {
                two_to_grows(1074);
                assert(0int / (two_to(1074) as int) == 0) by (nonlinear_arith)
                    requires
                        two_to(1074) > 0,
                ;
            }
            return 0;
        }
        if self.bits < ONE_BITS {
            assert(self.value() / (two_to(1074) as int) == 0) by (nonlinear_arith)
                requires
                    0 <= self.value() < two_to(1074),
            ;
            return 0;
        }
        if self.bits >= TWO_TO_THE_EIGHT_BITS {
            return 255;
        }
        let exponent: u64 = self.bits / EXPONENT_UNIT;
        let significand: u64 = EXPONENT_UNIT + self.bits % EXPONENT_UNIT;
        let drop: u64 = 1075 - exponent;
        let divisor: u64 = power_of_two(drop);
        proof {
            let a = two_to((exponent - 1) as nat) as int;
            let b = divisor as int;
            two_to_grows((exponent - 1) as nat);
            two_to_adds((exponent - 1) as nat, drop as nat);
            assert(self.value() == significand * a);
            assert(two_to(1074) == a * b);
            whole_part_of_a_product(significand as int, a, b);
            two_to_is_monotone(45, drop as nat);
            two_to_the_forty_five();
            assert(significand / divisor < 256) by (nonlinear_arith)
                requires
                    0 <= significand < 0x20_0000_0000_0000,
                    divisor >= 0x2000_0000_0000,
            ;
        }
        (significand / divisor) as u8
    }

    /// `-self`: the sign bit flipped, every other bit kept.
    pub fn neg(self) -> (s: Scalar)
        ensures
            s == self.negated(),
            s.magnitude() == self.magnitude(),
            s.negative() != self.negative(),
            s.nan() == self.nan(),
            s.value() == -self.value(),
    {
        if self.bits >= SIGN_BIT {
            Scalar { bits: self.bits - SIGN_BIT }
        } else {
            Scalar { bits: self.bits + SIGN_BIT }
        }
    }
}

/// Every power of two is positive, and the next one is twice as large.
proof fn two_to_grows(e: nat)
    ensures
        two_to(e) > 0,
        two_to(e + 1) == 2 * two_to(e),
    decreases e,
{
    if e > 0 {
        two_to_grows((e - 1) as nat);
    }
}

/// Powers of two multiply by adding the exponents.
proof fn two_to_adds(a: nat, b: nat)
    ensures
        two_to(a + b) == two_to(a) * two_to(b),
    decreases a,
{
    if a > 0 {
        two_to_adds((a - 1) as nat, b);
        assert(two_to(a + b) == 2 * two_to((a - 1 + b) as nat));
        assert(2 * (two_to((a - 1) as nat) * two_to(b)) == (2 * two_to((a - 1) as nat)) * two_to(b))
            by (nonlinear_arith);
    } else {
        assert(two_to(0) == 1);
        assert(1 * two_to(b) == two_to(b)) by (nonlinear_arith);
    }
}

/// A larger exponent gives a power of two that is not smaller.
proof fn two_to_is_monotone(a: nat, b: nat)
    requires
        a <= b,
    ensures
        two_to(a) <= two_to(b),
    decreases b - a,
{
    if a < b {
        two_to_is_monotone(a, (b - 1) as nat);
        two_to_grows((b - 1) as nat);
    }
}

/// The power of two of a sum, from the powers of the summands.
proof fn two_to_of_sum(a: nat, b: nat, x: int, y: int)
    requires
        two_to(a) == x,
        two_to(b) == y,
    ensures
        two_to(a + b) == x * y,
{
    two_to_adds(a, b);
}

proof fn two_to_the_eight()
    ensures
        two_to(8) == 256,
{
    reveal_with_fuel(two_to, 9);
}

proof fn two_to_the_forty_five()
    ensures
        two_to(45) == 0x2000_0000_0000,
{
    two_to_the_eight();
    two_to_of_sum(8, 8, 0x100, 0x100);
    two_to_of_sum(16, 16, 0x1_0000, 0x1_0000);
    two_to_of_sum(32, 8, 0x1_0000_0000, 0x100);
    assert(two_to(5) == 32) by {
        reveal_with_fuel(two_to, 6);
    }
    two_to_of_sum(40, 5, 0x100_0000_0000, 32);
}

proof fn two_to_the_fifty_two()
    ensures
        two_to(52) == EXPONENT_UNIT,
{
    two_to_the_forty_five();
    assert(two_to(7) == 128) by {
        reveal_with_fuel(two_to, 8);
    }
    two_to_of_sum(45, 7, 0x2000_0000_0000, 128);
}

proof fn two_to_the_sixty_two()
    ensures
        two_to(62) == 0x4000_0000_0000_0000,
{
    two_to_the_fifty_two();
    assert(two_to(10) == 1024) by {
        reveal_with_fuel(two_to, 11);
    }
    two_to_of_sum(52, 10, 0x10_0000_0000_0000, 1024);
}

/// The pattern with exponent field `e` and no fraction bit stands for 2 to
/// the `e - 1023`: in units of 2 to the -1074, for 2 to the `e + 51`.
proof fn value_of_a_power_of_two(e: nat)
    requires
        1 <= e <= 2047,
    ensures
        size_of(e * EXPONENT_UNIT) == two_to(e + 51),
{
    let unit = EXPONENT_UNIT as int;
    assert((e * unit) / unit == e && (e * unit) % unit == 0) by (nonlinear_arith)
        requires
            unit > 0,
    ;
    two_to_the_fifty_two();
    two_to_adds(52, (e - 1) as nat);
}

/// Dividing a product by a product with the same first factor.
proof fn whole_part_of_a_product(x: int, a: int, b: int)
    requires
        0 <= x,
        0 < a,
        0 < b,
    ensures
        (x * a) / (a * b) == x / b,
{
    vstd::arithmetic::div_mod::lemma_div_denominator(x * a, a, b);
    vstd::arithmetic::div_mod::lemma_div_multiples_vanish(x, a);
    assert(x * a == a * x) by (nonlinear_arith);
}

/// 2 to the `e`.
fn power_of_two(e: u64) -> (p: u64)
    requires
        e <= 62,
    ensures
        p == two_to(e as nat),
{
    let mut p: u64 = 1;
    let mut i: u64 = 0;
    while i < e
        invariant
            i <= e <= 62,
            p == two_to(i as nat),
        decreases e - i,
    {
        proof {
            two_to_grows(i as nat);
            two_to_is_monotone((i + 1) as nat, 62);
            two_to_the_sixty_two();
        }
        p = 2 * p;
        i = i + 1;
    }
    p
}

/// The next pattern stands for a larger absolute value.
proof fn size_grows_by_step(m: int)
    requires
        0 <= m,
    ensures
        size_of(m) < size_of(m + 1),
{
    let unit = EXPONENT_UNIT as int;
    let e = m / unit;
    let f = m % unit;
    if f < unit - 1 {
        assert((m + 1) / unit == e && (m + 1) % unit == f + 1);
        if e > 0 {
            let p = two_to((e - 1) as nat) as int;
            two_to_grows((e - 1) as nat);
            assert((unit + f) * p < (unit + f + 1) * p) by (nonlinear_arith)
                requires
                    p > 0,
            ;
        }
    } else {
        assert((m + 1) / unit == e + 1 && (m + 1) % unit == 0);
        if e > 0 {
            let p = two_to((e - 1) as nat) as int;
            two_to_grows((e - 1) as nat);
            assert(two_to(e as nat) == 2 * p);
            assert((unit + f) * p < unit * (2 * p)) by (nonlinear_arith)
                requires
                    p > 0,
                    f < unit,
            ;
        } else {
            assert(two_to(0) == 1);
            assert(unit * 1 == unit) by (nonlinear_arith);
        }
    }
}

/// A larger pattern stands for a larger absolute value.
proof fn size_grows(m: int, n: int)
    requires
        0 <= m < n,
    ensures
        size_of(m) < size_of(n),
    decreases n - m,
{
    size_grows_by_step(n - 1);
    if m < n - 1 {
        size_grows(m, n - 1);
    }
}

/// The bits order as the values do: one value is below another exactly if
/// its rank is, and two values are equal exactly if their ranks are.
pub proof fn rank_orders_as_value(a: Scalar, b: Scalar)
    ensures
        a.rank() < b.rank() <==> a.value() < b.value(),
        a.rank() == b.rank() <==> a.value() == b.value(),
{
    let (m, n) = (a.magnitude(), b.magnitude());
    assert(size_of(0) == 0);
    if m < n {
        size_grows(m, n);
    }
    if n < m {
        size_grows(n, m);
    }
    if 0 < m {
        size_grows(0, m);
    }
    if 0 < n {
        size_grows(0, n);
    }
}

/// Changing the sign mirrors the value at zero, and leaves a NaN a NaN.
pub proof fn negation_mirrors_the_value(a: Scalar)
    ensures
        a.negated().value() == -a.value(),
        a.negated().nan() == a.nan(),
{
    assert(size_of(0) == 0);
}

/// Two values of which neither is below the other are the same value, and
/// have the same bits unless both are zeros.
pub proof fn equal_values_have_equal_bits(a: Scalar, b: Scalar)
    requires
        a.value() == b.value(),
    ensures
        a.bits == b.bits || a.value() == 0,
{
    rank_orders_as_value(a, b);
    rank_orders_as_value(a, Scalar { bits: 0 });
}

} // verus!
