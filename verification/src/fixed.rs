//! The fixed-point scalar that every coordinate, color channel and
//! coefficient of the tracer is made of.
//!
//! A value is a signed 64-bit integer `raw` standing for the real number
//! `raw / SCALE`, with `SCALE = 10^9`. Addition, subtraction and negation
//! saturate at the `i64` range; multiplication and division truncate the
//! exact rational result toward zero and then saturate. The square root
//! rounds down. All of this is said exactly by the spec functions below,
//! so arithmetic on `Fx` is deterministic and fully specified.

use vstd::arithmetic::div_mod::lemma_div_nonincreasing;
use vstd::arithmetic::div_mod::lemma_div_pos_is_pos;
use vstd::prelude::*;

verus! {

/// Number of raw units in one whole unit: the scalar `raw / SCALE`.
pub const SCALE: i64 = 1_000_000_000;

/// Raw units of the geometric tolerance 1e-5 used for shadow-acne offsets
/// and the plane's parallel-ray test.
pub const EPS_RAW: i64 = 10_000;

/// A fixed-point scalar worth `raw / SCALE`.
#[derive(Clone, Copy, Debug, PartialEq, Eq, Structural)]
pub struct Fx {
    pub raw: i64,
}

/// Clamp a mathematical integer into the `i64` range.
pub open spec fn sat64(x: int) -> int {
    if x > i64::MAX as int {
        i64::MAX as int
    } else if x < i64::MIN as int {
        i64::MIN as int
    } else {
        x
    }
}

pub open spec fn abs_i(x: int) -> int {
    if x < 0 {
        -x
    } else {
        x
    }
}

/// Division truncated toward zero, the rounding of all `Fx` arithmetic.
pub open spec fn div_trunc(a: int, b: int) -> int {
    if (a >= 0) == (b >= 0) {
        abs_i(a) / abs_i(b)
    } else {
        -(abs_i(a) / abs_i(b))
    }
}

/// The scalar whose raw count is `r` clamped into range.
pub open spec fn fx(r: int) -> Fx {
    Fx { raw: sat64(r) as i64 }
}

pub open spec fn s_add(a: Fx, b: Fx) -> Fx {
    fx(a.raw + b.raw)
}

pub open spec fn s_sub(a: Fx, b: Fx) -> Fx {
    fx(a.raw - b.raw)
}

pub open spec fn s_neg(a: Fx) -> Fx {
    fx(-(a.raw as int))
}

pub open spec fn s_mul(a: Fx, b: Fx) -> Fx {
    fx(div_trunc(a.raw * b.raw, SCALE as int))
}

/// Division; defined as zero on a zero divisor so that the function is
/// total, though the executable `div` refuses that case outright.
pub open spec fn s_div(a: Fx, b: Fx) -> Fx {
    if b.raw == 0 {
        Fx { raw: 0 }
    } else {
        fx(div_trunc(a.raw * SCALE, b.raw as int))
    }
}

/// `r` is the integer square root of `n`, rounded down.
pub open spec fn is_isqrt(n: int, r: int) -> bool {
    r >= 0 && r * r <= n && n < (r + 1) * (r + 1)
}

pub open spec fn isqrt(n: int) -> int {
    if n >= 0 {
        choose|r: int| is_isqrt(n, r)
    } else {
        0
    }
}

pub open spec fn s_sqrt(a: Fx) -> Fx {
    if a.raw >= 0 {
        fx(isqrt(a.raw * SCALE))
    } else {
        Fx { raw: 0 }
    }
}

/// The whole-unit floor of `a`: the greatest integer at or below it.
pub open spec fn s_floor_units(a: Fx) -> int {
    a.raw as int / (SCALE as int)
}

/// The floor as a scalar again.
pub open spec fn s_floor(a: Fx) -> Fx {
    fx(s_floor_units(a) * SCALE)
}

/// `b` to the whole power `e`, multiplied out left to right.
pub open spec fn fx_pow(b: Fx, e: nat) -> Fx
    decreases e,
{
    if e == 0 {
        Fx { raw: SCALE as i64 }
    } else {
        s_mul(fx_pow(b, (e - 1) as nat), b)
    }
}

pub proof fn lemma_isqrt_exists(n: int)
    requires
        n >= 0,
    ensures
        exists|r: int| is_isqrt(n, r),
    decreases n,
{
    if n == 0 {
        assert(is_isqrt(0, 0));
    } else {
        lemma_isqrt_exists(n - 1);
        let r = isqrt(n - 1);
        assert(is_isqrt(n - 1, r));
        if n < (r + 1) * (r + 1) {
            assert(is_isqrt(n, r));
        } else {
            assert((r + 1) * (r + 1) <= n);
            assert(n - 1 < (r + 1) * (r + 1)) by {
                assert(is_isqrt(n - 1, r));
            }
            assert(is_isqrt(n, r + 1)) by (nonlinear_arith)
                requires
                    r >= 0,
                    (r + 1) * (r + 1) <= n,
                    n <= (r + 1) * (r + 1),
            ;
        }
    }
}

pub proof fn lemma_isqrt_unique(n: int, r1: int, r2: int)
    requires
        is_isqrt(n, r1),
        is_isqrt(n, r2),
    ensures
        r1 == r2,
{
    assert(r1 == r2) by (nonlinear_arith)
        requires
            r1 >= 0 && r1 * r1 <= n && n < (r1 + 1) * (r1 + 1),
            r2 >= 0 && r2 * r2 <= n && n < (r2 + 1) * (r2 + 1),
    ;
}

/// A witness of `is_isqrt(n, r)` pins `isqrt(n)` to `r`.
pub proof fn lemma_isqrt_is(n: int, r: int)
    requires
        n >= 0,
        is_isqrt(n, r),
    ensures
        isqrt(n) == r,
{
    let c = choose|q: int| is_isqrt(n, q);
    assert(is_isqrt(n, c));
    lemma_isqrt_unique(n, c, r);
}

fn sat_from_i128(x: i128) -> (r: i64)
    ensures
        r as int == sat64(x as int),
{
    if x > i64::MAX as i128 {
        i64::MAX
    } else if x < i64::MIN as i128 {
        i64::MIN
    } else {
        x as i64
    }
}

/// Truncating signed division, carried out on magnitudes so that its
/// relation to Euclidean division stays simple.
fn div_trunc_i128(a: i128, b: i128) -> (q: i128)
    requires
        b != 0,
        a > i128::MIN,
        b > i128::MIN,
    ensures
        q as int == div_trunc(a as int, b as int),
{
    let neg: bool = (a < 0) != (b < 0);
    let ma: u128 = if a < 0 {
        (-a) as u128
    } else {
        a as u128
    };
    let mb: u128 = if b < 0 {
        (-b) as u128
    } else {
        b as u128
    };
    let mq: u128 = ma / mb;
    proof {
        lemma_div_nonincreasing(ma as int, mb as int);
        lemma_div_pos_is_pos(ma as int, mb as int);
        assert(mq as int == abs_i(a as int) / abs_i(b as int));
    }
    if neg {
        -(mq as i128)
    } else {
        mq as i128
    }
}

fn isqrt_u128(n: u128) -> (r: u128)
    ensures
        is_isqrt(n as int, r as int),
{
    if n == 0 {
        return 0;
    }
    let mut lo: u128 = 0;
    let mut hi: u128 = 1u128 << 64;
    proof {
        assert((1u128 << 64) == 0x10000000000000000u128) by (bit_vector);
        assert((0x10000000000000000int) * (0x10000000000000000int) > n as int);
    }
    while lo + 1 < hi
        invariant
            lo < hi,
            hi <= 0x10000000000000000u128,
            (lo as int) * (lo as int) <= n as int,
            (hi as int) * (hi as int) > n as int,
        decreases hi - lo,
    {
        let mid: u128 = lo + (hi - lo) / 2;
        assert(lo < mid < hi);
        assert((mid as int) * (mid as int) < 0x100000000000000000000000000000000int)
            by (nonlinear_arith)
            requires
                0 <= (mid as int) < 0x10000000000000000int,
        ;
        if mid * mid <= n {
            lo = mid;
        } else {
            hi = mid;
        }
    }
    lo
}

impl Fx {
    /// The scalar worth the whole number `i`, clamped into range.
    pub fn from_int(i: i64) -> (r: Fx)
        ensures
            r == fx(i * SCALE),
    {
        proof {
            assert((i as int) * (SCALE as int) < 0x100000000000000000000000000000000int
                && (i as int) * (SCALE as int) > -0x100000000000000000000000000000000int)
                by (nonlinear_arith)
                requires
                    i64::MIN <= i as int <= i64::MAX,
            ;
        }
        Fx { raw: sat_from_i128(i as i128 * SCALE as i128) }
    }

    pub fn add(self, rhs: Fx) -> (r: Fx)
        ensures
            r == s_add(self, rhs),
    {
        Fx { raw: sat_from_i128(self.raw as i128 + rhs.raw as i128) }
    }

    pub fn sub(self, rhs: Fx) -> (r: Fx)
        ensures
            r == s_sub(self, rhs),
    {
        Fx { raw: sat_from_i128(self.raw as i128 - rhs.raw as i128) }
    }

    pub fn neg(self) -> (r: Fx)
        ensures
            r == s_neg(self),
    {
        Fx { raw: sat_from_i128(-(self.raw as i128)) }
    }

    pub fn mul(self, rhs: Fx) -> (r: Fx)
        ensures
            r == s_mul(self, rhs),
    {
        proof {
            assert((self.raw as int) * (rhs.raw as int) <= 0x40000000000000000000000000000000int
                && (self.raw as int) * (rhs.raw as int) >= -0x40000000000000000000000000000000int)
                by (nonlinear_arith)
                requires
                    i64::MIN <= self.raw as int <= i64::MAX,
                    i64::MIN <= rhs.raw as int <= i64::MAX,
            ;
        }
        let p: i128 = self.raw as i128 * rhs.raw as i128;
        let q: i128 = div_trunc_i128(p, SCALE as i128);
        Fx { raw: sat_from_i128(q) }
    }

    pub fn div(self, rhs: Fx) -> (r: Fx)
        requires
            rhs.raw != 0,
        ensures
            r == s_div(self, rhs),
    {
        proof {
            assert((self.raw as int) * (SCALE as int) < 0x40000000000000000000000000000000int
                && (self.raw as int) * (SCALE as int) > -0x40000000000000000000000000000000int)
                by (nonlinear_arith)
                requires
                    i64::MIN <= self.raw as int <= i64::MAX,
            ;
        }
        let p: i128 = self.raw as i128 * SCALE as i128;
        let q: i128 = div_trunc_i128(p, rhs.raw as i128);
        Fx { raw: sat_from_i128(q) }
    }

    /// Square root, rounded down to the nearest raw unit.
    pub fn sqrt(self) -> (r: Fx)
        requires
            self.raw >= 0,
        ensures
            r == s_sqrt(self),
    {
        proof {
            assert((self.raw as int) * (SCALE as int) <= 0x7FFFFFFFFFFFFFFFint * 1_000_000_000int)
                by (nonlinear_arith)
                requires
                    0 <= self.raw as int <= i64::MAX,
            ;
        }
        let n: u128 = self.raw as u128 * SCALE as u128;
        let s: u128 = isqrt_u128(n);
        proof {
            lemma_isqrt_is(n as int, s as int);
            assert((s as int) * (s as int) <= n as int);
            assert(n as int <= 0x7FFFFFFFFFFFFFFFint * 1_000_000_000int);
            assert(s as int <= 0x7FFFFFFFFFFFFFFFint) by (nonlinear_arith)
                requires
                    s as int >= 0,
                    (s as int) * (s as int) <= 0x7FFFFFFFFFFFFFFFint * 1_000_000_000int,
            ;
        }
        Fx { raw: sat_from_i128(s as i128) }
    }

    /// Whether the two scalars differ by less than the tolerance 1e-5.
    pub fn approx_eq(self, rhs: Fx) -> (r: bool)
        ensures
            r == (abs_i(self.raw - rhs.raw) < EPS_RAW as int),
    {
        let d: i128 = self.raw as i128 - rhs.raw as i128;
        let m: i128 = if d < 0 {
            -d
        } else {
            d
        };
        m < EPS_RAW as i128
    }

    /// The absolute value, saturated at the `i64` range.
    pub fn abs(self) -> (r: Fx)
        ensures
            r == fx(abs_i(self.raw as int)),
    {
        if self.raw < 0 {
            self.neg()
        } else {
            self
        }
    }

    /// The greatest whole number at or below this scalar.
    pub fn floor_units(self) -> (r: i64)
        ensures
            r as int == s_floor_units(self),
    {
        let neg: bool = self.raw < 0;
        let m: u128 = if neg {
            (-(self.raw as i128)) as u128
        } else {
            self.raw as u128
        };
        let q: u128 = m / (SCALE as u128);
        let rem: u128 = m % (SCALE as u128);
        proof {
            lemma_div_nonincreasing(m as int, SCALE as int);
            lemma_div_pos_is_pos(m as int, SCALE as int);
            if neg {
                vstd::arithmetic::div_mod::lemma_fundamental_div_mod(m as int, SCALE as int);
                if rem == 0 {
                    assert(self.raw as int == -((q as int) * (SCALE as int)));
                    vstd::arithmetic::div_mod::lemma_fundamental_div_mod_converse(
                        self.raw as int,
                        SCALE as int,
                        -(q as int),
                        0,
                    );
                } else {
                    assert(self.raw as int == (-(q as int) - 1) * (SCALE as int) + (SCALE as int
                        - rem as int)) by (nonlinear_arith)
                        requires
                            m as int == (q as int) * (SCALE as int) + rem as int,
                            self.raw as int == -(m as int),
                    ;
                    vstd::arithmetic::div_mod::lemma_fundamental_div_mod_converse(
                        self.raw as int,
                        SCALE as int,
                        -(q as int) - 1,
                        SCALE as int - rem as int,
                    );
                }
            }
        }
        if neg {
            if rem == 0 {
                -(q as i64)
            } else {
                -(q as i64) - 1
            }
        } else {
            q as i64
        }
    }

    /// The floor as a scalar again.
    pub fn floor(self) -> (r: Fx)
        ensures
            r == s_floor(self),
    {
        let u = self.floor_units();
        proof {
            assert((u as int) * (SCALE as int) <= 0x40000000000000000000000000000000int
                && (u as int) * (SCALE as int) >= -0x40000000000000000000000000000000int)
                by (nonlinear_arith)
                requires
                    i64::MIN <= u as int <= i64::MAX,
            ;
        }
        Fx { raw: sat_from_i128(u as i128 * SCALE as i128) }
    }

    /// Whether the whole-unit floor is even.
    pub fn floor_even(self) -> (r: bool)
        ensures
            r == (s_floor_units(self) % 2 == 0),
    {
        let u = self.floor_units();
        let m: u64 = if u < 0 {
            ((-(u as i128)) as u64) % 2
        } else {
            (u as u64) % 2
        };
        proof {
            if u < 0 {
                assert((-(u as int)) % 2 == (u as int) % 2);
            }
        }
        m == 0
    }

    /// `self` to the whole power `e`, multiplied out left to right.
    pub fn powi(self, e: u64) -> (r: Fx)
        ensures
            r == fx_pow(self, e as nat),
    {
        let mut acc = Fx { raw: SCALE };
        let mut k: u64 = 0;
        while k < e
            invariant
                k <= e,
                acc == fx_pow(self, k as nat),
            decreases e - k,
        {
            acc = acc.mul(self);
            k += 1;
        }
        acc
    }
}

} // verus!
