//! Fixed-point scalar arithmetic.
//!
//! A [`Scalar`] stores a real quantity as `units / 1_000_000` (six decimal
//! places). All operations saturate at the `i64` range, and division by zero
//! yields zero, so every operation is total and has an exact specification.

use vstd::prelude::*;

verus! {

/// Number of units per whole: a `Scalar` holds millionths.
pub const SCALE: i64 = 1_000_000;

/// A fixed-point number: the represented value is `units / 1_000_000`.
#[derive(Clone, Copy, Debug, PartialEq, Eq, Structural)]
pub struct Scalar {
    pub units: i64,
}

/// Saturate an unbounded integer into the `i64` range.
pub open spec fn sat64(v: int) -> int {
    if v > i64::MAX as int {
        i64::MAX as int
    } else if v < i64::MIN as int {
        i64::MIN as int
    } else {
        v
    }
}

/// Truncating division (round toward zero), with division by zero yielding zero.
pub open spec fn tdiv(a: int, b: int) -> int {
    if b == 0 {
        0
    } else {
        let q = abs_int(a) / abs_int(b);
        if (a < 0) != (b < 0) {
            -q
        } else {
            q
        }
    }
}

pub open spec fn abs_int(a: int) -> int {
    if a < 0 {
        -a
    } else {
        a
    }
}

/// Saturating sum of two scalars, in units.
pub open spec fn s_add(a: int, b: int) -> int {
    sat64(a + b)
}

/// Saturating difference of two scalars, in units.
pub open spec fn s_sub(a: int, b: int) -> int {
    sat64(a - b)
}

/// Saturating negation, in units.
pub open spec fn s_neg(a: int) -> int {
    sat64(-a)
}

/// Fixed-point product: the true product is `a * b / SCALE`, truncated, saturated.
pub open spec fn s_mul(a: int, b: int) -> int {
    sat64(tdiv(a * b, SCALE as int))
}

/// Fixed-point quotient: the true quotient is `a * SCALE / b`, truncated,
/// saturated; zero when `b` is zero.
pub open spec fn s_div(a: int, b: int) -> int {
    sat64(tdiv(a * (SCALE as int), b))
}

impl Scalar {
    /// Build a scalar directly from raw units (millionths).
    pub fn from_units(units: i64) -> (r: Scalar)
        ensures
            r.units == units,
    {
        Scalar { units }
    }

    /// Build a scalar representing the whole number `n`.
    pub fn from_whole(n: i64) -> (r: Scalar)
        ensures
            r.units == sat64(n * (SCALE as int)),
    {
        proof {
            lemma_i64_product_in_i128(n as int, SCALE as int);
        }
        let wide: i128 = (n as i128) * (SCALE as i128);
        Scalar { units: clamp64(wide) }
    }

    /// The zero scalar.
    pub fn zero() -> (r: Scalar)
        ensures
            r.units == 0,
    {
        Scalar { units: 0 }
    }

    /// Saturating addition.
    pub fn add(self, other: Scalar) -> (r: Scalar)
        ensures
            r.units == s_add(self.units as int, other.units as int),
    {
        let wide: i128 = (self.units as i128) + (other.units as i128);
        Scalar { units: clamp64(wide) }
    }

    /// Saturating subtraction.
    pub fn sub(self, other: Scalar) -> (r: Scalar)
        ensures
            r.units == s_sub(self.units as int, other.units as int),
    {
        let wide: i128 = (self.units as i128) - (other.units as i128);
        Scalar { units: clamp64(wide) }
    }

    /// Saturating negation.
    pub fn neg(self) -> (r: Scalar)
        ensures
            r.units == s_neg(self.units as int),
    {
        let wide: i128 = -(self.units as i128);
        Scalar { units: clamp64(wide) }
    }

    /// Fixed-point multiplication (truncating, saturating).
    pub fn mul(self, other: Scalar) -> (r: Scalar)
        ensures
            r.units == s_mul(self.units as int, other.units as int),
    {
        proof {
            lemma_i64_product_in_i128(self.units as int, other.units as int);
        }
        let wide: i128 = (self.units as i128) * (other.units as i128);
        let q = tdiv128(wide, SCALE as i128);
        Scalar { units: clamp64(q) }
    }

    /// Fixed-point division (truncating, saturating, zero on zero divisor).
    pub fn div(self, other: Scalar) -> (r: Scalar)
        ensures
            r.units == s_div(self.units as int, other.units as int),
    {
        proof {
            lemma_i64_product_in_i128(self.units as int, SCALE as int);
        }
        let wide: i128 = (self.units as i128) * (SCALE as i128);
        let q = tdiv128(wide, other.units as i128);
        Scalar { units: clamp64(q) }
    }
}

/// The product of two `i64` values lies strictly inside the `i128` range.
proof fn lemma_i64_product_in_i128(x: int, y: int)
    requires
        i64::MIN as int <= x <= i64::MAX as int,
        i64::MIN as int <= y <= i64::MAX as int,
    ensures
        (i128::MIN as int) < x * y,
        x * y <= i128::MAX as int,
{
    assert((i128::MIN as int) < x * y && x * y <= i128::MAX as int) by (nonlinear_arith)
        requires
            -0x8000000000000000 <= x <= 0x7fffffffffffffff,
            -0x8000000000000000 <= y <= 0x7fffffffffffffff,
    ;
}

/// Clamp an `i128` into the `i64` range.
fn clamp64(v: i128) -> (r: i64)
    ensures
        r as int == sat64(v as int),
{
    if v > i64::MAX as i128 {
        i64::MAX
    } else if v < i64::MIN as i128 {
        i64::MIN
    } else {
        v as i64
    }
}

/// Truncating `i128` division; division by zero yields zero.
fn tdiv128(a: i128, b: i128) -> (r: i128)
    requires
        a > i128::MIN,
        b > i128::MIN,
    ensures
        r as int == tdiv(a as int, b as int),
{
    if b == 0 {
        return 0;
    }
    let ma: u128 = if a < 0 {
        (-a) as u128
    } else {
        a as u128
    };
    let mb: u128 = if b < 0 {
        (-b) as u128
    } else {
        b as u128
    };
    let q: u128 = ma / mb;
    assert(q as int == abs_int(a as int) / abs_int(b as int));
    assert(q <= ma);
    if (a < 0) != (b < 0) {
        -(q as i128)
    } else {
        q as i128
    }
}

/// Integer square root: the largest `r` with `r * r <= n`.
pub open spec fn isqrt_spec(n: int) -> int
    decreases n,
    when n >= 0
{
    if n <= 0 {
        0
    } else {
        let r = isqrt_spec(n - 1);
        if (r + 1) * (r + 1) <= n {
            r + 1
        } else {
            r
        }
    }
}

pub proof fn lemma_isqrt_bounds(n: int)
    requires
        n >= 0,
    ensures
        isqrt_spec(n) >= 0,
        isqrt_spec(n) * isqrt_spec(n) <= n,
        n < (isqrt_spec(n) + 1) * (isqrt_spec(n) + 1),
    decreases n,
{
    if n > 0 {
        lemma_isqrt_bounds(n - 1);
        let r = isqrt_spec(n - 1);
        if (r + 1) * (r + 1) <= n {
            assert(n < (r + 2) * (r + 2)) by (nonlinear_arith)
                requires
                    r >= 0,
                    n - 1 < (r + 1) * (r + 1),
                    (r + 1) * (r + 1) <= n,
            ;
        }
    }
}

pub proof fn lemma_isqrt_unique(n: int, a: int)
    requires
        n >= 0,
        a >= 0,
        a * a <= n,
        n < (a + 1) * (a + 1),
    ensures
        a == isqrt_spec(n),
{
    lemma_isqrt_bounds(n);
    let b = isqrt_spec(n);
    if a < b {
        assert((a + 1) * (a + 1) <= b * b) by (nonlinear_arith)
            requires
                0 <= a,
                a < b,
        ;
    }
    if b < a {
        assert((b + 1) * (b + 1) <= a * a) by (nonlinear_arith)
            requires
                0 <= b,
                b < a,
        ;
    }
}

/// Binary-search integer square root over `u128`.
pub(crate) fn isqrt_u128(n: u128) -> (r: u128)
    ensures
        r as int == isqrt_spec(n as int),
{
    let mut lo: u128 = 0;
    let mut hi: u128 = 0x10000000000000000;
    proof {
        assert((hi as int) * (hi as int) > u128::MAX as int) by (nonlinear_arith)
            requires
                hi as int == 0x10000000000000000,
        ;
    }
    while hi - lo > 1
        invariant
            lo < hi <= 0x10000000000000000,
            (lo as int) * (lo as int) <= n as int,
            (n as int) < (hi as int) * (hi as int),
        decreases hi - lo,
    {
        let mid: u128 = lo + (hi - lo) / 2;
        proof {
            assert((mid as int) * (mid as int) <= u128::MAX as int) by (nonlinear_arith)
                requires
                    0 <= mid as int,
                    mid as int <= 0xffffffffffffffff,
                    u128::MAX as int == 0xffffffffffffffffffffffffffffffff,
            ;
        }
        if mid * mid <= n {
            lo = mid;
        } else {
            hi = mid;
        }
    }
    proof {
        lemma_isqrt_unique(n as int, lo as int);
    }
    lo
}

} // verus!
