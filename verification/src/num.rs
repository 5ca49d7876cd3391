//! Integer helpers shared by the geometry and transform code: flooring
//! division and Euclidean remainder for signed values, ceiling division, and
//! clamping. Verus's mathematical `/` and `%` round toward negative infinity
//! for a positive divisor, while Rust's signed operators truncate, so the
//! signed helpers here are built on unsigned division and proved against the
//! mathematical operators.

use vstd::arithmetic::div_mod::{
    lemma_fundamental_div_mod, lemma_fundamental_div_mod_converse_div,
    lemma_fundamental_div_mod_converse_mod,
};
use vstd::prelude::*;

verus! {

/// Mathematical clamp of `x` into the closed interval `[lo, hi]`.
pub open spec fn clamp_int(x: int, lo: int, hi: int) -> int {
    if x < lo {
        lo
    } else if x > hi {
        hi
    } else {
        x
    }
}

/// Clamps `x` into `[lo, hi]`.
pub fn clamp_i64(x: i64, lo: i64, hi: i64) -> (r: i64)
    requires
        lo <= hi,
    ensures
        r == clamp_int(x as int, lo as int, hi as int),
{
    if x < lo {
        lo
    } else if x > hi {
        hi
    } else {
        x
    }
}

/// Clamping is idempotent: a value already inside the interval is unchanged.
pub proof fn lemma_clamp_idempotent(x: int, lo: int, hi: int)
    requires
        lo <= hi,
    ensures
        clamp_int(clamp_int(x, lo, hi), lo, hi) == clamp_int(x, lo, hi),
{
}

/// Flooring division of a signed value by a positive divisor, matching the
/// mathematical `/` of the specification language.
pub fn div_floor_i64(a: i64, d: i64) -> (q: i64)
    requires
        d > 0,
        a > i64::MIN,
    ensures
        q == a as int / d as int,
{
    if a >= 0 {
        let q0: u64 = (a as u64) / (d as u64);
        proof {
            assert(q0 <= a as u64);
        }
        q0 as i64
    } else {
        let n: u64 = (-a) as u64;
        let du: u64 = d as u64;
        let q1: u64 = (n + du - 1) / du;
        proof {
            assert(q1 <= n) by {
                assert((n as int + du as int - 1) / du as int <= n as int) by (nonlinear_arith)
                    requires
                        du >= 1,
                        n >= 1,
                ;
            }
            let ni = n as int + du as int - 1;
            let di = d as int;
            lemma_fundamental_div_mod(ni, di);
            let m = ni % di;
            assert(a as int == (-(q1 as int)) * di + (di - 1 - m)) by (nonlinear_arith)
                requires
                    ni == q1 as int * di + m,
                    ni == n as int + di - 1,
                    a as int == -(n as int),
            ;
            lemma_fundamental_div_mod_converse_div(a as int, di, -(q1 as int), di - 1 - m);
        }
        -(q1 as i64)
    }
}

/// Euclidean remainder of a signed value by a positive divisor: the result
/// always lies in `[0, d)`, matching the mathematical `%`.
pub fn euclid_mod_i64(a: i64, d: i64) -> (r: i64)
    requires
        d > 0,
        a > i64::MIN,
    ensures
        r == a as int % d as int,
        0 <= r < d,
{
    if a >= 0 {
        ((a as u64) % (d as u64)) as i64
    } else {
        let n: u64 = (-a - 1) as u64;
        let du: u64 = d as u64;
        let m: u64 = n % du;
        proof {
            let ni = n as int;
            let di = d as int;
            lemma_fundamental_div_mod(ni, di);
            let k = ni / di;
            assert(a as int == (-k - 1) * di + (di - 1 - m as int)) by (nonlinear_arith)
                requires
                    ni == di * k + m as int,
                    a as int == -(ni + 1),
            ;
            lemma_fundamental_div_mod_converse_mod(a as int, di, -k - 1, di - 1 - m as int);
        }
        d - 1 - (m as i64)
    }
}

/// Ceiling division of a non-negative value by a positive divisor.
pub fn div_ceil_i64(a: i64, d: i64) -> (q: i64)
    requires
        0 <= a,
        d > 0,
        a + d <= i64::MAX,
    ensures
        q == (a as int + d as int - 1) / d as int,
        q * d >= a,
{
    let q0: u64 = ((a as u64) + (d as u64) - 1) / (d as u64);
    proof {
        let ni = a as int + d as int - 1;
        let di = d as int;
        assert(q0 <= ni);
        lemma_fundamental_div_mod(ni, di);
        assert(q0 as int * di >= a as int) by (nonlinear_arith)
            requires
                ni == di * (q0 as int) + ni % di,
                0 <= ni % di < di,
                ni == a as int + di - 1,
        ;
    }
    q0 as i64
}

} // verus!
