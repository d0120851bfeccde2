//! Fixed-point arithmetic in thousandths: the value 1.0 is represented by
//! the integer `FX_ONE` = 1000. Products of two fixed-point values are
//! scaled back down by `FX_ONE`, truncating toward zero.

use vstd::prelude::*;
use vstd::arithmetic::div_mod::lemma_div_is_ordered;
use vstd::arithmetic::div_mod::lemma_div_multiples_vanish;
use vstd::arithmetic::div_mod::lemma_div_pos_is_pos;

verus! {

/// The fixed-point representation of 1.0.
pub const FX_ONE: i64 = 1000;

/// Mathematical fixed-point product: `a * b / FX_ONE`, truncated toward zero.
pub open spec fn fx_mul_spec(a: int, b: int) -> int {
    if a * b >= 0 {
        (a * b) / (FX_ONE as int)
    } else {
        -((-(a * b)) / (FX_ONE as int))
    }
}

/// Linear interpolation from `a` toward `b` by the fixed-point weight `t`:
/// `t == 0` gives `a`, `t == FX_ONE` gives `b`.
pub open spec fn lerp_spec(a: int, b: int, t: int) -> int {
    a + fx_mul_spec(b - a, t)
}

/// Clamp a fixed-point value into the unit interval `[0, FX_ONE]`.
pub open spec fn clamp_unit_spec(v: int) -> int {
    if v < 0 {
        0
    } else if v > FX_ONE {
        FX_ONE as int
    } else {
        v
    }
}

/// The integer square root: the largest `r` with `r * r <= n`.
pub open spec fn isqrt_spec(n: nat) -> nat
    decreases n,
{
    if n == 0 {
        0
    } else {
        let r = isqrt_spec((n - 1) as nat);
        if (r + 1) * (r + 1) <= n {
            r + 1
        } else {
            r
        }
    }
}

/// `isqrt_spec(n)` is indeed the floor of the square root of `n`.
pub proof fn lemma_isqrt_bounds(n: nat)
    ensures
        isqrt_spec(n) * isqrt_spec(n) <= n,
        n < (isqrt_spec(n) + 1) * (isqrt_spec(n) + 1),
    decreases n,
{
    if n == 0 {
        assert(isqrt_spec(0) == 0);
        assert((isqrt_spec(n) + 1) * (isqrt_spec(n) + 1) == 1) by (nonlinear_arith)
            requires
                isqrt_spec(n) == 0,
        ;
    } else {
        lemma_isqrt_bounds((n - 1) as nat);
        let r = isqrt_spec((n - 1) as nat);
        if (r + 1) * (r + 1) <= n {
            assert(isqrt_spec(n) == r + 1);
            assert(n < (r + 1 + 1) * (r + 1 + 1)) by (nonlinear_arith)
                requires
                    n - 1 < (r + 1) * (r + 1),
                    r >= 0,
            ;
        } else {
            assert(isqrt_spec(n) == r);
        }
    }
}

/// Any `r` whose square brackets `n` is the integer square root of `n`.
pub proof fn lemma_isqrt_unique(n: nat, r: nat)
    requires
        r * r <= n,
        n < (r + 1) * (r + 1),
    ensures
        r == isqrt_spec(n),
{
    lemma_isqrt_bounds(n);
    let s = isqrt_spec(n);
    if r < s {
        assert((r + 1) * (r + 1) <= s * s) by (nonlinear_arith)
            requires
                r + 1 <= s,
        ;
    }
    if s < r {
        assert((s + 1) * (s + 1) <= r * r) by (nonlinear_arith)
            requires
                s + 1 <= r,
        ;
    }
}

/// The magnitude of a fixed-point product is bounded by the product of the
/// operands' bounds, scaled down.
pub proof fn lemma_fx_mul_bound(a: int, b: int, m: int, n: int)
    requires
        -m <= a <= m,
        -n <= b <= n,
    ensures
        -((m * n) / (FX_ONE as int)) <= fx_mul_spec(a, b) <= (m * n) / (FX_ONE as int),
{
    let p = a * b;
    assert(-(m * n) <= a * b <= m * n) by (nonlinear_arith)
        requires
            -m <= a <= m,
            -n <= b <= n,
    ;
    if p >= 0 {
        lemma_div_pos_is_pos(p, FX_ONE as int);
        lemma_div_is_ordered(p, m * n, FX_ONE as int);
    } else {
        lemma_div_pos_is_pos(-p, FX_ONE as int);
        lemma_div_is_ordered(-p, m * n, FX_ONE as int);
    }
}

/// Interpolation never leaves the interval spanned by its endpoints.
pub proof fn lemma_lerp_bounds(a: int, b: int, t: int, m: int)
    requires
        -m <= a <= m,
        -m <= b <= m,
        0 <= t <= FX_ONE,
    ensures
        a <= b ==> a <= lerp_spec(a, b, t) <= b,
        b <= a ==> b <= lerp_spec(a, b, t) <= a,
        -m <= lerp_spec(a, b, t) <= m,
{
    let d = b - a;
    if d >= 0 {
        assert(0 <= d * t <= d * (FX_ONE as int)) by (nonlinear_arith)
            requires
                d >= 0,
                0 <= t <= FX_ONE,
        ;
        lemma_div_pos_is_pos(d * t, FX_ONE as int);
        lemma_div_is_ordered(d * t, d * (FX_ONE as int), FX_ONE as int);
        lemma_div_multiples_vanish(d, FX_ONE as int);
        assert(0 <= fx_mul_spec(d, t) <= d);
    } else {
        let e = -d;
        assert(0 <= (b - a) * t * -1 <= (a - b) * (FX_ONE as int)) by (nonlinear_arith)
            requires
                a - b >= 0,
                0 <= t <= FX_ONE,
        ;
        assert(e * t == (b - a) * t * -1) by (nonlinear_arith)
            requires
                e == -(b - a),
        ;
        lemma_div_pos_is_pos(e * t, FX_ONE as int);
        lemma_div_is_ordered(e * t, e * (FX_ONE as int), FX_ONE as int);
        lemma_div_multiples_vanish(e, FX_ONE as int);
        assert(d <= fx_mul_spec(d, t) <= 0);
    }
}

/// Fixed-point product of two values, truncating toward zero.
pub fn fx_mul(a: i64, b: i64) -> (r: i64)
    requires
        -2_000_000_000 <= a <= 2_000_000_000,
        -2_000_000_000 <= b <= 2_000_000_000,
    ensures
        r == fx_mul_spec(a as int, b as int),
{
    proof {
        assert(-4_000_000_000_000_000_000 <= a * b <= 4_000_000_000_000_000_000)
            by (nonlinear_arith)
            requires
                -2_000_000_000 <= a <= 2_000_000_000,
                -2_000_000_000 <= b <= 2_000_000_000,
        ;
    }
    let p: i64 = a * b;
    if p >= 0 {
        ((p as u64) / (FX_ONE as u64)) as i64
    } else {
        let q: u64 = ((-p) as u64) / (FX_ONE as u64);
        -(q as i64)
    }
}

/// Linear interpolation from `a` toward `b` by the fixed-point weight `t`.
pub fn fx_lerp(a: i64, b: i64, t: i64) -> (r: i64)
    requires
        -1_000_000_000 <= a <= 1_000_000_000,
        -1_000_000_000 <= b <= 1_000_000_000,
        0 <= t <= FX_ONE,
    ensures
        r == lerp_spec(a as int, b as int, t as int),
{
    proof {
        lemma_lerp_bounds(a as int, b as int, t as int, 1_000_000_000);
    }
    let d: i64 = b - a;
    a + fx_mul(d, t)
}

/// The integer square root of `n`: the largest `r` with `r * r <= n`.
pub fn isqrt(n: u64) -> (r: u64)
    requires
        n <= 4_000_000_000_000,
    ensures
        r == isqrt_spec(n as nat),
        r * r <= n < (r + 1) * (r + 1),
{
    let mut r: u64 = 0;
    loop
        invariant
            n <= 4_000_000_000_000,
            r * r <= n,
            r <= 2_000_000,
        decreases n - r * r,
    {
        proof {
            assert((r + 1) * (r + 1) <= 4_000_008_000_004) by (nonlinear_arith)
                requires
                    r <= 2_000_000,
            ;
        }
        if (r + 1) * (r + 1) <= n {
            proof {
                assert(r + 1 <= 2_000_000) by (nonlinear_arith)
                    requires
                        (r + 1) * (r + 1) <= 4_000_000_000_000int,
                ;
                assert(r * r < (r + 1) * (r + 1)) by (nonlinear_arith);
            }
            r = r + 1;
        } else {
            proof {
                lemma_isqrt_unique(n as nat, r as nat);
            }
            return r;
        }
    }
}

} // verus!
