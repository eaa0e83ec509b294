//! IEEE-754 single-precision values, held by their bit pattern.
use vstd::prelude::*;

verus! {

/// An IEEE-754 single-precision number, held as its 32 bits: sign, eight bits
/// of exponent, twenty-three bits of fraction.
///
/// `==` compares the bits. The numeric order is given by [`Single::below`] and
/// [`Single::at_most`], which treat the two zeros as equal and a NaN as
/// unordered, as the hardware comparison does.
#[derive(Debug, Copy, Clone, PartialEq, Eq, Structural)]
pub struct Single {
    pub bits: u32,
}

/// Bit patterns of the whole numbers that the factory settings and the rules
/// of the engine are made of; each constant is named after its number.
pub const ZERO_BITS: u32 = 0;

pub const ONE_BITS: u32 = 0x3F80_0000;

pub const FIVE_BITS: u32 = 0x40A0_0000;

pub const TWENTY_BITS: u32 = 0x41A0_0000;

pub const MINUS_TWENTY_BITS: u32 = 0xC1A0_0000;

pub const TWENTY_TWO_BITS: u32 = 0x41B0_0000;

pub const TWENTY_FIVE_BITS: u32 = 0x41C8_0000;

pub const THIRTY_BITS: u32 = 0x41F0_0000;

pub const THIRTY_FIVE_BITS: u32 = 0x420C_0000;

pub const FORTY_BITS: u32 = 0x4220_0000;

pub const FIFTY_BITS: u32 = 0x4248_0000;

pub const SIXTY_BITS: u32 = 0x4270_0000;

pub const EIGHTY_BITS: u32 = 0x42A0_0000;

pub const NINETY_FIVE_BITS: u32 = 0x42BE_0000;

pub const HUNDRED_BITS: u32 = 0x42C8_0000;

/// Bit pattern of positive infinity; any larger magnitude is a NaN.
pub const INFINITY_BITS: u32 = 0x7F80_0000;

/// Weight of the sign bit.
pub const SIGN_BIT: u32 = 0x8000_0000;

/// The pattern, without the sign, of the number `m * 2^(exponent - 150)`,
/// where `m` is below 2^24: `m` is doubled, and the exponent lowered, until
/// `m` has its 24th bit set; that bit is left out of the pattern, the
/// exponent stands before the other 23.
pub open spec fn normal_pattern(m: nat, exponent: nat) -> nat
    decreases 0x100_0000 - m,
{
    if m == 0 {
        0
    } else if m >= 0x80_0000 {
        (exponent * 0x80_0000 + (m - 0x80_0000)) as nat
    } else {
        normal_pattern(2 * m, (exponent - 1) as nat)
    }
}

impl Single {
    /// The single that stands for the whole number `i`; every whole number
    /// of a magnitude below 2^24 has one.
    pub open spec fn whole(i: int) -> Single {
        if i >= 0 {
            Single { bits: normal_pattern(i as nat, 150) as u32 }
        } else {
            Single { bits: (0x8000_0000 + normal_pattern((-i) as nat, 150)) as u32 }
        }
    }

    /// The bits without the sign.
    pub open spec fn magnitude(self) -> int {
        self.bits as int % 0x8000_0000
    }

    /// Whether the sign bit is set.
    pub open spec fn negative(self) -> bool {
        self.bits >= 0x8000_0000
    }

    /// Whether the pattern stands for no number: exponent all ones, fraction not zero.
    pub open spec fn nan(self) -> bool {
        self.magnitude() > 0x7F80_0000
    }

    /// An integer that orders the patterns as their numbers are ordered:
    /// the magnitude for a positive pattern, its negation for a negative one.
    pub open spec fn key(self) -> int {
        if self.negative() {
            -self.magnitude()
        } else {
            self.magnitude()
        }
    }

    /// `self < other` as numbers; false where either is a NaN.
    pub open spec fn below(self, other: Single) -> bool {
        !self.nan() && !other.nan() && self.key() < other.key()
    }

    /// `self <= other` as numbers; false where either is a NaN.
    pub open spec fn at_most(self, other: Single) -> bool {
        !self.nan() && !other.nan() && self.key() <= other.key()
    }

    /// The value with the given bit pattern.
    pub fn from_bits(bits: u32) -> (r: Single)
        ensures
            r.bits == bits,
    {
        Single { bits }
    }

    /// The bit pattern of the value.
    pub fn to_bits(&self) -> (r: u32)
        ensures
            r == self.bits,
    {
        self.bits
    }

    /// Whether the value is a NaN.
    pub fn is_nan(&self) -> (r: bool)
        ensures
            r == self.nan(),
    {
        self.bits % SIGN_BIT > INFINITY_BITS
    }

    fn order_key(&self) -> (r: i64)
        ensures
            r == self.key(),
    {
        let magnitude: u32 = self.bits % SIGN_BIT;
        if self.bits >= SIGN_BIT {
            -(magnitude as i64)
        } else {
            magnitude as i64
        }
    }

    /// `self < other` as numbers.
    pub fn lt(&self, other: &Single) -> (r: bool)
        ensures
            r == self.below(*other),
    {
        !self.is_nan() && !other.is_nan() && self.order_key() < other.order_key()
    }

    /// `self <= other` as numbers.
    pub fn le(&self, other: &Single) -> (r: bool)
        ensures
            r == self.at_most(*other),
    {
        !self.is_nan() && !other.is_nan() && self.order_key() <= other.order_key()
    }

    /// `self > other` as numbers.
    pub fn gt(&self, other: &Single) -> (r: bool)
        ensures
            r == other.below(*self),
    {
        other.lt(self)
    }

    /// `self >= other` as numbers.
    pub fn ge(&self, other: &Single) -> (r: bool)
        ensures
            r == other.at_most(*self),
    {
        other.le(self)
    }

    /// Whole numbers are ordered as their singles are, and none of them is a NaN.
    pub proof fn lemma_whole_order(i: int, j: int)
        requires
            -0x100_0000 < i < 0x100_0000,
            -0x100_0000 < j < 0x100_0000,
        ensures
            !Single::whole(i).nan(),
            Single::whole(i).below(Single::whole(j)) <==> i < j,
            Single::whole(i).at_most(Single::whole(j)) <==> i <= j,
    {
        lemma_whole_key(i);
        lemma_whole_key(j);
        let a = vstd::math::abs(i);
        let b = vstd::math::abs(j);
        if a < b {
            lemma_magnitude_rises(a, b);
        } else if b < a {
            lemma_magnitude_rises(b, a);
        }
    }

    /// The named patterns are those of their numbers.
    pub proof fn lemma_named_patterns()
        ensures
            Single::whole(0).bits == ZERO_BITS,
            Single::whole(1).bits == ONE_BITS,
            Single::whole(5).bits == FIVE_BITS,
            Single::whole(20).bits == TWENTY_BITS,
            Single::whole(-20).bits == MINUS_TWENTY_BITS,
            Single::whole(22).bits == TWENTY_TWO_BITS,
            Single::whole(25).bits == TWENTY_FIVE_BITS,
            Single::whole(30).bits == THIRTY_BITS,
            Single::whole(35).bits == THIRTY_FIVE_BITS,
            Single::whole(40).bits == FORTY_BITS,
            Single::whole(50).bits == FIFTY_BITS,
            Single::whole(60).bits == SIXTY_BITS,
            Single::whole(80).bits == EIGHTY_BITS,
            Single::whole(95).bits == NINETY_FIVE_BITS,
            Single::whole(100).bits == HUNDRED_BITS,
    {
        reveal_with_fuel(normal_pattern, 25);
    }
}

/// A number that reaches 2^23 by `k` doublings, and has not reached it yet,
/// reaches it by `k - 1` doublings once it is doubled.
proof fn lemma_doubling(m: nat, k: nat)
    requires
        m < 0x80_0000,
        m * vstd::arithmetic::power2::pow2(k) >= 0x80_0000,
    ensures
        k >= 1,
        (2 * m) * vstd::arithmetic::power2::pow2((k - 1) as nat) >= 0x80_0000,
{
    if k == 0 {
        vstd::arithmetic::power2::lemma2_to64();
    } else {
        vstd::arithmetic::power2::lemma_pow2_unfold(k);
        let p = vstd::arithmetic::power2::pow2((k - 1) as nat);
        assert(m * (2 * p) == (2 * m) * p) by (nonlinear_arith);
    }
}

/// Every positive number reaches 2^23 by 23 doublings.
proof fn lemma_doublings(m: nat)
    requires
        m >= 1,
    ensures
        m * vstd::arithmetic::power2::pow2(23) >= 0x80_0000,
{
    vstd::arithmetic::power2::lemma2_to64();
    assert(m * 0x80_0000 >= 0x80_0000) by (nonlinear_arith)
        requires
            m >= 1,
    ;
}

/// The pattern of a number that reaches 2^23 by `k` doublings lies at or
/// above that of the exponent less `k`, and below that of the next exponent.
proof fn lemma_pattern_bounds(m: nat, exponent: nat, k: nat)
    requires
        1 <= m < 0x100_0000,
        m * vstd::arithmetic::power2::pow2(k) >= 0x80_0000,
        exponent >= k,
    ensures
        (exponent - k) * 0x80_0000 <= normal_pattern(m, exponent) < (exponent + 1) * 0x80_0000,
    decreases 0x100_0000 - m,
{
    if m < 0x80_0000 {
        lemma_doubling(m, k);
        lemma_pattern_bounds(2 * m, (exponent - 1) as nat, (k - 1) as nat);
    }
}

/// Of two positive numbers below 2^24 the larger has the larger pattern.
proof fn lemma_pattern_rises(a: nat, b: nat, exponent: nat, k: nat)
    requires
        1 <= a < b < 0x100_0000,
        a * vstd::arithmetic::power2::pow2(k) >= 0x80_0000,
        exponent >= k,
    ensures
        normal_pattern(a, exponent) < normal_pattern(b, exponent),
    decreases 0x100_0000 - a,
{
    if a >= 0x80_0000 {
    } else {
        lemma_doubling(a, k);
        if b >= 0x80_0000 {
            lemma_pattern_bounds(2 * a, (exponent - 1) as nat, (k - 1) as nat);
        } else {
            lemma_pattern_rises(2 * a, 2 * b, (exponent - 1) as nat, (k - 1) as nat);
        }
    }
}

/// The patterns of whole numbers of a magnitude below 2^24 rise with the
/// magnitude, from zero for zero, and stay below that of infinity.
proof fn lemma_magnitude_rises(a: nat, b: nat)
    requires
        a < b < 0x100_0000,
    ensures
        normal_pattern(a, 150) < normal_pattern(b, 150) < 0x7F80_0000,
{
    lemma_doublings(b);
    lemma_pattern_bounds(b, 150, 23);
    if a > 0 {
        lemma_doublings(a);
        lemma_pattern_rises(a, b, 150, 23);
    }
}

/// The single of a whole number is a number, and its key has the sign of the
/// whole number and the pattern of its magnitude.
proof fn lemma_whole_key(i: int)
    requires
        -0x100_0000 < i < 0x100_0000,
    ensures
        !Single::whole(i).nan(),
        i >= 0 ==> Single::whole(i).key() == normal_pattern(i as nat, 150),
        i < 0 ==> Single::whole(i).key() == -normal_pattern((-i) as nat, 150),
        i != 0 ==> normal_pattern(vstd::math::abs(i), 150) > 0,
        normal_pattern(vstd::math::abs(i), 150) < 0x7F80_0000,
{
    let n = vstd::math::abs(i);
    if n > 0 {
        lemma_magnitude_rises(0, n);
    }
}

} // verus!
