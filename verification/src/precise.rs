//! Fixed-point precision number.
//!
//! A non-negative rational value stored as an unsigned integer scaled by
//! [`ONE`].  The scale matches the pool-share mint's six decimals.  Every
//! operation is a pure function of its operands: the same inputs always
//! produce the same bits, which matters because these numbers determine
//! economic settlement.  Multiplication, division and the conversion back to
//! an integer apply a half-unit correction so that truncation rounds to the
//! nearest representable value; `floor`, `ceiling` and `sqrt` round exactly
//! as their names say.

use vstd::arithmetic::div_mod::{
    lemma_div_basics, lemma_div_is_ordered, lemma_fundamental_div_mod,
    lemma_mod_bound,
};
use vstd::arithmetic::mul::lemma_mul_inequality;
use vstd::prelude::*;

verus! {

/// The number one in this representation: six decimal digits of precision.
pub const ONE: u128 = 1_000_000;

/// Correction added before a truncating division so that the result rounds
/// to the nearest unit instead of always down.
pub const HALF_ONE: u128 = ONE / 2;

/// The exact integer square root: the largest `r` with `r * r <= n`.
pub open spec fn spec_isqrt(n: int) -> int
    decreases n,
{
    if n <= 0 {
        0
    } else {
        let r = spec_isqrt(n - 1);
        if (r + 1) * (r + 1) <= n {
            r + 1
        } else {
            r
        }
    }
}

/// The integer square root is bracketed by the two neighbouring squares.
pub proof fn lemma_isqrt_bounds(n: int)
    requires
        n >= 0,
    ensures
        spec_isqrt(n) >= 0,
        spec_isqrt(n) * spec_isqrt(n) <= n,
        (spec_isqrt(n) + 1) * (spec_isqrt(n) + 1) > n,
    decreases n,
{
    if n > 0 {
        lemma_isqrt_bounds(n - 1);
        let r = spec_isqrt(n - 1);
        if (r + 1) * (r + 1) <= n {
            // (r + 1)^2 > n - 1 and (r + 1)^2 <= n pin (r + 1)^2 == n.
            assert((r + 2) * (r + 2) > n) by (nonlinear_arith)
                requires
                    (r + 1) * (r + 1) == n,
                    r >= 0,
            ;
        }
    }
}

/// The bracketing property determines the integer square root uniquely.
pub proof fn lemma_isqrt_unique(n: int, r: int)
    requires
        n >= 0,
        r >= 0,
        r * r <= n,
        (r + 1) * (r + 1) > n,
    ensures
        r == spec_isqrt(n),
{
    lemma_isqrt_bounds(n);
    let s = spec_isqrt(n);
    if r < s {
        assert(false) by (nonlinear_arith)
            requires
                0 <= r < s,
                s * s <= n,
                (r + 1) * (r + 1) > n,
        ;
    }
    if r > s {
        assert(false) by (nonlinear_arith)
            requires
                0 <= s < r,
                r * r <= n,
                (s + 1) * (s + 1) > n,
        ;
    }
}

/// Law: the integer square root is monotonic.
pub proof fn lemma_isqrt_monotonic(a: int, b: int)
    requires
        0 <= a <= b,
    ensures
        spec_isqrt(a) <= spec_isqrt(b),
{
    lemma_isqrt_bounds(a);
    lemma_isqrt_bounds(b);
    let sa = spec_isqrt(a);
    let sb = spec_isqrt(b);
    if sa > sb {
        assert(false) by (nonlinear_arith)
            requires
                0 <= sb < sa,
                sa * sa <= a,
                a <= b,
                (sb + 1) * (sb + 1) > b,
        ;
    }
}

/// The integer square root, by Newton's method from a fixed initial guess.
/// The guess starts at 2^64, an upper bound for the root of any `u128`, and
/// strictly decreases each iteration, so the loop is bounded.
pub fn isqrt_u128(n: u128) -> (r: u128)
    ensures
        r == spec_isqrt(n as int),
        r * r <= n,
        (r + 1) * (r + 1) > n,
{
    if n == 0 {
        return 0;
    }
    let mut x: u128 = 0x1_0000_0000_0000_0000;
    proof {
        assert((0x1_0000_0000_0000_0000u128 + 1) * (0x1_0000_0000_0000_0000u128 + 1)
            > u128::MAX) by (nonlinear_arith);
    }
    loop
        invariant
            1 <= n <= u128::MAX,
            1 <= x <= 0x1_0000_0000_0000_0000u128,
            (x + 1) * (x + 1) > n,
        decreases x,
    {
        proof {
            // n < (x + 1)^2 bounds the quotient: n / x <= x + 2.
            assert(n <= x * x + 2 * x) by (nonlinear_arith)
                requires
                    (x + 1) * (x + 1) > n,
            ;
            lemma_div_is_ordered(n as int, x * x + 2 * x, x as int);
            assert(x * x + 2 * x == (x + 2) * x) by (nonlinear_arith);
            vstd::arithmetic::div_mod::lemma_div_by_multiple(x + 2, x as int);
            lemma_fundamental_div_mod(n as int, x as int);
            lemma_mod_bound(n as int, x as int);
            lemma_div_basics(n as int);
        }
        let d = n / x;
        let next = (x + d) / 2;
        proof {
            lemma_fundamental_div_mod(x + d, 2);
            lemma_mod_bound(x + d, 2);
        }
        if next < x {
            proof {
                // The new guess still over-approximates the root.
                assert((next + 1) * (next + 1) > n) by (nonlinear_arith)
                    requires
                        n < x * d + x,
                        x + d <= 2 * next + 1,
                        x >= 1,
                        d >= 0,
                        next >= 0,
                ;
                // The guess never reaches zero: x >= 2 or d = n >= 1.
                assert(next >= 1);
            }
            x = next;
        } else {
            proof {
                // At the fixed point, d >= x, hence x * x <= x * d <= n.
                lemma_mul_inequality(x as int, d as int, x as int);
                assert(x * x <= x * d) by (nonlinear_arith)
                    requires
                        x >= 0,
                        x <= d,
                ;
                lemma_isqrt_unique(n as int, x as int);
            }
            return x;
        }
    }
}

/// A fixed-point number: `value` counts units of `1 / ONE`.
#[derive(Clone, Copy, Debug, PartialEq, Eq, Structural)]
pub struct PreciseNumber {
    /// The scaled magnitude; the represented value is `value / ONE`.
    pub value: u128,
}

impl PreciseNumber {
    /// Lossless construction from an unsigned integer; no result when the
    /// scaled magnitude overflows.
    pub open spec fn spec_new(value: u128) -> Option<PreciseNumber> {
        if value * ONE > u128::MAX {
            None
        } else {
            Some((PreciseNumber { value: (value * ONE) as u128 }))
        }
    }

    /// Addition; no result on overflow.
    pub open spec fn spec_add(self, rhs: PreciseNumber) -> Option<PreciseNumber> {
        if self.value + rhs.value > u128::MAX {
            None
        } else {
            Some((PreciseNumber { value: (self.value + rhs.value) as u128 }))
        }
    }

    /// Subtraction; no result when it would go negative.
    pub open spec fn spec_sub(self, rhs: PreciseNumber) -> Option<PreciseNumber> {
        if self.value < rhs.value {
            None
        } else {
            Some((PreciseNumber { value: (self.value - rhs.value) as u128 }))
        }
    }

    /// Multiplication, rounded to the nearest unit.  When the full product
    /// overflows, the larger operand is pre-scaled down, trading precision
    /// for range.
    pub open spec fn spec_mul(self, rhs: PreciseNumber) -> Option<PreciseNumber> {
        if self.value * rhs.value <= u128::MAX {
            if self.value * rhs.value + HALF_ONE > u128::MAX {
                None
            } else {
                Some(
                    (PreciseNumber {
                        value: ((self.value * rhs.value + HALF_ONE) / (ONE as int)) as u128,
                    }),
                )
            }
        } else if self.value >= rhs.value {
            if (self.value / ONE) * rhs.value > u128::MAX {
                None
            } else {
                Some((PreciseNumber { value: ((self.value / ONE) * rhs.value) as u128 }))
            }
        } else {
            if (rhs.value / ONE) * self.value > u128::MAX {
                None
            } else {
                Some((PreciseNumber { value: ((rhs.value / ONE) * self.value) as u128 }))
            }
        }
    }

    /// Division, rounded to the nearest unit; no result for a zero divisor.
    /// When scaling the dividend up overflows, it is divided first and
    /// scaled after, trading precision for range.
    pub open spec fn spec_div(self, rhs: PreciseNumber) -> Option<PreciseNumber> {
        if rhs.value == 0 {
            None
        } else if self.value * ONE <= u128::MAX {
            if self.value * ONE + HALF_ONE > u128::MAX {
                None
            } else {
                Some(
                    (PreciseNumber {
                        value: ((self.value * ONE + HALF_ONE) / (rhs.value as int)) as u128,
                    }),
                )
            }
        } else {
            if self.value + HALF_ONE > u128::MAX {
                None
            } else if ((self.value + HALF_ONE) / (rhs.value as int)) * ONE > u128::MAX {
                None
            } else {
                Some(
                    (PreciseNumber {
                        value: (((self.value + HALF_ONE) / (rhs.value as int)) * ONE) as u128,
                    }),
                )
            }
        }
    }

    /// The largest whole multiple of [`ONE`] not above this value.
    pub open spec fn spec_floor(self) -> PreciseNumber {
        PreciseNumber { value: ((self.value / ONE) * ONE) as u128 }
    }

    /// The smallest whole multiple of [`ONE`] not below this value; no
    /// result on overflow.
    pub open spec fn spec_ceiling(self) -> Option<PreciseNumber> {
        if self.value + (ONE - 1) > u128::MAX {
            None
        } else {
            Some(
                (PreciseNumber {
                    value: (((self.value + (ONE - 1)) / (ONE as int)) * ONE) as u128,
                }),
            )
        }
    }

    /// Back to an unsigned integer, rounded to the nearest whole unit.
    pub open spec fn spec_to_imprecise(self) -> Option<u128> {
        if self.value + HALF_ONE > u128::MAX {
            None
        } else {
            Some(((self.value + HALF_ONE) / (ONE as int)) as u128)
        }
    }

    /// The square root, exact at the representation's granularity: the
    /// result is the floor of the real square root.  No result only when
    /// the magnitude is too large for the internal scaling.
    pub open spec fn spec_sqrt(self) -> Option<PreciseNumber> {
        if self.value * ONE > u128::MAX {
            None
        } else {
            Some((PreciseNumber { value: spec_isqrt(self.value * ONE) as u128 }))
        }
    }

    /// Creates a precision number from an unsigned integer, exactly.
    pub fn new(value: u128) -> (r: Option<Self>)
        ensures
            r == Self::spec_new(value),
    {
        let v = value.checked_mul(ONE)?;
        Some(PreciseNumber { value: v })
    }

    /// Checked addition.
    pub fn checked_add(&self, rhs: &Self) -> (r: Option<Self>)
        ensures
            r == self.spec_add(*rhs),
    {
        let v = self.value.checked_add(rhs.value)?;
        Some(PreciseNumber { value: v })
    }

    /// Checked subtraction; fails rather than wrap below zero.
    pub fn checked_sub(&self, rhs: &Self) -> (r: Option<Self>)
        ensures
            r == self.spec_sub(*rhs),
    {
        let v = self.value.checked_sub(rhs.value)?;
        Some(PreciseNumber { value: v })
    }

    /// Checked multiplication, rounded to the nearest unit.
    pub fn checked_mul(&self, rhs: &Self) -> (r: Option<Self>)
        ensures
            r == self.spec_mul(*rhs),
    {
        match self.value.checked_mul(rhs.value) {
            Some(v) => {
                let v = v.checked_add(HALF_ONE)?;
                Some(PreciseNumber { value: v / ONE })
            },
            None => {
                let v = if self.value >= rhs.value {
                    (self.value / ONE).checked_mul(rhs.value)?
                } else {
                    (rhs.value / ONE).checked_mul(self.value)?
                };
                Some(PreciseNumber { value: v })
            },
        }
    }

    /// Checked division, rounded to the nearest unit; fails on a zero
    /// divisor.
    pub fn checked_div(&self, rhs: &Self) -> (r: Option<Self>)
        ensures
            r == self.spec_div(*rhs),
    {
        if rhs.value == 0 {
            return None;
        }
        match self.value.checked_mul(ONE) {
            Some(v) => {
                let v = v.checked_add(HALF_ONE)?;
                Some(PreciseNumber { value: v / rhs.value })
            },
            None => {
                let v = self.value.checked_add(HALF_ONE)?;
                let v = (v / rhs.value).checked_mul(ONE)?;
                Some(PreciseNumber { value: v })
            },
        }
    }

    /// Floors to a whole number of units.
    pub fn floor(&self) -> (r: Option<Self>)
        ensures
            r == Some(self.spec_floor()),
    {
        proof {
            lemma_fundamental_div_mod(self.value as int, ONE as int);
            lemma_mod_bound(self.value as int, ONE as int);
        }
        Some(PreciseNumber { value: (self.value / ONE) * ONE })
    }

    /// Ceilings to a whole number of units.
    pub fn ceiling(&self) -> (r: Option<Self>)
        ensures
            r == self.spec_ceiling(),
    {
        let v = self.value.checked_add(ONE - 1)?;
        proof {
            lemma_fundamental_div_mod(v as int, ONE as int);
            lemma_mod_bound(v as int, ONE as int);
        }
        Some(PreciseNumber { value: (v / ONE) * ONE })
    }

    /// Converts back to an unsigned integer, rounding to the nearest.
    pub fn to_imprecise(&self) -> (r: Option<u128>)
        ensures
            r == self.spec_to_imprecise(),
    {
        let v = self.value.checked_add(HALF_ONE)?;
        Some(v / ONE)
    }

    /// The square root: deterministic, and exact at the representation's
    /// granularity.
    pub fn sqrt(&self) -> (r: Option<Self>)
        ensures
            r == self.spec_sqrt(),
    {
        let scaled = self.value.checked_mul(ONE)?;
        let root = isqrt_u128(scaled);
        Some(PreciseNumber { value: root })
    }
}

/// Law: the square root is exact at the representation's granularity.
/// Whenever it yields a result, the result's square is no more than the
/// input, and the next representable value's square exceeds it; the error
/// is below one unit in the last representable digit of the root.
pub proof fn lemma_sqrt_exact(a: PreciseNumber)
    ensures
        a.spec_sqrt() matches Some(r) ==> {
            &&& r.value * r.value <= a.value * ONE
            &&& (r.value + 1) * (r.value + 1) > a.value * ONE
        },
{
    if a.spec_sqrt() is Some {
        let n = a.value * ONE;
        lemma_isqrt_bounds(n);
        let s = spec_isqrt(n);
        assert(s <= u128::MAX) by (nonlinear_arith)
            requires
                s >= 0,
                s * s <= n,
                n <= u128::MAX,
        ;
    }
}

/// Law: the square root is monotonic: a number no larger than another has a
/// root no larger than the other's.
pub proof fn lemma_sqrt_monotonic(a: PreciseNumber, b: PreciseNumber)
    requires
        a.value <= b.value,
    ensures
        a.spec_sqrt() matches Some(ra) ==> (b.spec_sqrt() matches Some(rb) ==> ra.value
            <= rb.value),
{
    if a.spec_sqrt() is Some && b.spec_sqrt() is Some {
        lemma_mul_inequality(a.value as int, b.value as int, ONE as int);
        lemma_isqrt_monotonic(a.value * ONE, b.value * ONE);
        lemma_isqrt_bounds(a.value * ONE);
        lemma_isqrt_bounds(b.value * ONE);
        let sa = spec_isqrt(a.value * ONE);
        let sb = spec_isqrt(b.value * ONE);
        assert(sb <= u128::MAX) by (nonlinear_arith)
            requires
                sb >= 0,
                sb * sb <= b.value * ONE,
                b.value * ONE <= u128::MAX,
        ;
    }
}

} // verus!
