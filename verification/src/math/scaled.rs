use vstd::arithmetic::div_mod::{
    lemma_div_is_ordered, lemma_div_is_ordered_by_denominator, lemma_div_nonincreasing,
    lemma_div_multiples_vanish, lemma_div_pos_is_pos, lemma_fundamental_div_mod,
    lemma_fundamental_div_mod_converse, lemma_mod_division_less_than_divisor,
};
use vstd::math::abs;
use vstd::prelude::*;

verus! {

/// How many raw fractions make up one unit under fixed point scaling.
///
/// This is `2^F` for `F = 16` fractional bits.
pub const SCALE: i32 = 65536;

/// Truncating integer division (rounding toward zero), the behaviour of
/// machine division on signed integers.
pub open spec fn div_trunc(a: int, b: int) -> int {
    if a == 0 {
        0
    } else if a > 0 && b > 0 {
        a / b
    } else if a < 0 && b < 0 {
        (-a) / (-b)
    } else if a < 0 {
        -((-a) / b)
    } else {
        -(a / (-b))
    }
}

/// `10^p`, the divisor used to interpret a decimal-precision exponent.
pub open spec fn pow10(p: nat) -> int
    decreases p,
{
    if p == 0 {
        1
    } else {
        10 * pow10((p - 1) as nat)
    }
}

/// Fixed point scaled value.
///
/// The raw backing integer stores `real_value * SCALE`, so every physical
/// quantity is carried with `F = 16` fractional bits and all arithmetic is
/// exact integer arithmetic.
#[derive(Clone, Copy, Debug, PartialEq, Eq, Structural)]
pub struct Scaled(pub i32);

impl View for Scaled {
    type V = int;

    open spec fn view(&self) -> int {
        self.0 as int
    }
}

/// The raw value that `Scaled::new(value, precision)` stores:
/// `value * SCALE` divided (truncating) by `10^precision`.
pub open spec fn spec_new(value: int, precision: nat) -> int {
    div_trunc(value * 65536, pow10(precision))
}

/// The raw value that `Scaled::from_int(value)` stores.
pub open spec fn spec_from_int(value: int) -> int {
    value * 65536
}

/// The integer unit that a raw value stands for, rounding down:
/// the high bits above the `F` fractional bits, as an arithmetic shift
/// would extract them.
pub open spec fn spec_unit(raw: int) -> int {
    raw / 65536
}

impl Scaled {
    /// Builds the scaled value `value / 10^precision`.
    pub fn new(value: i32, precision: u32) -> (r: Scaled)
        requires
            precision <= 9,
            i32::MIN <= value * 65536 <= i32::MAX,
        ensures
            r@ == spec_new(value as int, precision as nat),
    {
        let num: i32 = value * 65536;
        let den: i32 = pow10_exec(precision);
        match num.checked_div(den) {
            Some(q) => Scaled(q),
            None => {
                proof {
                    lemma_div_trunc_bounded(num as int, den as int);
                }
                Scaled(0)
            },
        }
    }

    /// Builds the scaled value equal to the plain integer `value`.
    pub fn from_int(value: i32) -> (r: Scaled)
        requires
            -32768 <= value <= 32767,
        ensures
            r@ == spec_from_int(value as int),
    {
        Scaled(value * 65536)
    }

    /// The absolute value, on the raw bits.
    pub fn abs(self) -> (r: Scaled)
        requires
            self@ != i32::MIN,
        ensures
            r@ == if self@ >= 0 {
                self@
            } else {
                -self@
            },
    {
        if self.0 < 0 {
            Scaled(-self.0)
        } else {
            self
        }
    }

    pub fn zero() -> (r: Scaled)
        ensures
            r@ == 0,
    {
        Scaled(0)
    }

    /// Extracts the integer unit, dropping the fractional bits
    /// (rounding toward negative infinity, as an arithmetic shift does).
    pub fn unit(self) -> (r: i32)
        ensures
            r == spec_unit(self@),
    {
        if self.0 >= 0 {
            ((self.0 as u32) / 65536u32) as i32
        } else {
            let m: u64 = (-(self.0 as i64)) as u64;
            let q: u64 = (m + 65535) / 65536;
            proof {
                lemma_unit_negative(self.0 as int, m as int);
            }
            (-(q as i64)) as i32
        }
    }

    pub fn is_zero(self) -> (r: bool)
        ensures
            r == (self@ == 0),
    {
        self.0 == 0
    }

    pub fn is_positive(self) -> (r: bool)
        ensures
            r == (self@ > 0),
    {
        self.0 > 0
    }

    pub fn is_negative(self) -> (r: bool)
        ensures
            r == (self@ < 0),
    {
        self.0 < 0
    }

    /// Componentwise sum on the raw values.
    pub fn add(self, other: Scaled) -> (r: Scaled)
        requires
            i32::MIN <= self@ + other@ <= i32::MAX,
        ensures
            r@ == self@ + other@,
    {
        Scaled(self.0 + other.0)
    }

    /// Componentwise difference on the raw values.
    pub fn sub(self, other: Scaled) -> (r: Scaled)
        requires
            i32::MIN <= self@ - other@ <= i32::MAX,
        ensures
            r@ == self@ - other@,
    {
        Scaled(self.0 - other.0)
    }

    /// Arithmetic negation.
    pub fn neg(self) -> (r: Scaled)
        requires
            self@ != i32::MIN,
        ensures
            r@ == -self@,
    {
        Scaled(-self.0)
    }

    /// Multiplication by a plain integer, on the raw value.
    pub fn scale(self, k: i32) -> (r: Scaled)
        requires
            i32::MIN <= self@ * k <= i32::MAX,
        ensures
            r@ == self@ * k,
    {
        Scaled(self.0 * k)
    }

    /// Truncating division by a plain integer, on the raw value.
    pub fn div_int(self, k: i32) -> (r: Scaled)
        requires
            k != 0,
            !(self@ == i32::MIN && k == -1),
        ensures
            r@ == div_trunc(self@, k as int),
    {
        match self.0.checked_div(k) {
            Some(q) => Scaled(q),
            None => {
                proof {
                    lemma_div_trunc_bounded(self.0 as int, k as int);
                }
                Scaled(0)
            },
        }
    }

    /// The smaller of two scaled values, by the raw comparison.
    pub fn min(self, other: Scaled) -> (r: Scaled)
        ensures
            r@ == if self@ <= other@ {
                self@
            } else {
                other@
            },
    {
        if self.0 <= other.0 {
            self
        } else {
            other
        }
    }

    /// The larger of two scaled values, by the raw comparison.
    pub fn max(self, other: Scaled) -> (r: Scaled)
        ensures
            r@ == if self@ >= other@ {
                self@
            } else {
                other@
            },
    {
        if self.0 >= other.0 {
            self
        } else {
            other
        }
    }
}

/// `10^p` for small exponents, matching `pow10`.
pub fn pow10_exec(p: u32) -> (r: i32)
    requires
        p <= 9,
    ensures
        r == pow10(p as nat),
        r > 0,
{
    proof {
        reveal_with_fuel(pow10, 11);
    }
    if p == 0 {
        1
    } else if p == 1 {
        10
    } else if p == 2 {
        100
    } else if p == 3 {
        1000
    } else if p == 4 {
        10000
    } else if p == 5 {
        100000
    } else if p == 6 {
        1000000
    } else if p == 7 {
        10000000
    } else if p == 8 {
        100000000
    } else {
        1000000000
    }
}

/// Fixed-point round trip: converting any integer to a scaled value and
/// extracting the unit back gives the integer again.
pub proof fn lemma_from_unit_round_trip(v: int)
    ensures
        spec_unit(spec_from_int(v)) == v,
{
    lemma_div_multiples_vanish(v, 65536);
}

/// Truncating division never moves away from zero, so the quotient of two
/// `i32` values stays in range whenever it is not the one overflowing case
/// `i32::MIN / -1`.
proof fn lemma_div_trunc_bounded(a: int, b: int)
    requires
        i32::MIN <= a <= i32::MAX,
        b != 0,
        !(a == i32::MIN && b == -1),
    ensures
        i32::MIN <= div_trunc(a, b) <= i32::MAX,
{
    if a != 0 {
        let m = abs(a) as int;
        let d = abs(b) as int;
        lemma_div_pos_is_pos(m, d);
        lemma_div_nonincreasing(m, d);
        if a == i32::MIN && b < 0 {
            lemma_div_is_ordered_by_denominator(m, 2, d);
            assert(m / 2 == 0x40000000);
        }
    }
}

/// The floor-division form used by `Scaled::unit` on negative raw values:
/// `-((m + 65535) / 65536)` equals the Euclidean quotient `a / 65536`
/// where `m == -a`.
proof fn lemma_unit_negative(a: int, m: int)
    requires
        a < 0,
        m == -a,
        a >= i32::MIN,
    ensures
        -((m + 65535) / 65536) == a / 65536,
        0 <= (m + 65535) / 65536 <= 32768,
{
    let q = a / 65536;
    let r = a % 65536;
    lemma_fundamental_div_mod(a, 65536);
    lemma_mod_division_less_than_divisor(a, 65536);
    assert(a == 65536 * q + r);
    assert(m + 65535 == 65536 * (-q) + (65535 - r));
    lemma_fundamental_div_mod_converse(m + 65535, 65536, -q, 65535 - r);
    lemma_div_is_ordered(i32::MIN as int, a, 65536);
    assert((i32::MIN as int) / 65536 == -32768);
}

} // verus!
