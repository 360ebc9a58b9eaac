//! Fixed-point scalar arithmetic.
//!
//! A world-space scalar is an `i64` counting millionths of a world unit, so
//! `FX_ONE` stands for `1.0`. All rounding is directed: `fx_mul` and
//! `fx_div_floor` round toward negative infinity, `fx_div_up` toward positive
//! infinity, which lets geometric queries round conservatively outward.

use vstd::prelude::*;

verus! {

use vstd::arithmetic::div_mod::{
    lemma_fundamental_div_mod, lemma_fundamental_div_mod_converse,
};

/// One world unit.
pub const FX_ONE: i64 = 1_000_000;

/// Largest coordinate magnitude the geometric queries accept (one million
/// world units): keeps every intermediate product inside `i64` range.
pub const COORD_LIMIT: i64 = 1_000_000_000_000;

/// A quarter turn, rounded toward zero.
pub const HALF_PI_FX: i64 = 1_570_796;

/// Four quarter-turn pairs of steradians: the `4 * pi` normalisation of the
/// Henyey-Greenstein lobe, rounded to the nearest millionth.
pub const FOUR_PI_FX: i64 = 12_566_371;

/// Division rounding toward negative infinity, defined for any nonzero
/// divisor.
pub open spec fn div_floor(n: int, d: int) -> int
    recommends
        d != 0,
{
    if d > 0 {
        n / d
    } else {
        (-n) / (-d)
    }
}

/// Division rounding toward positive infinity, defined for any nonzero
/// divisor.
pub open spec fn div_up(n: int, d: int) -> int
    recommends
        d != 0,
{
    -div_floor(-n, d)
}

/// Magnitude of an integer.
pub open spec fn mag(n: int) -> int {
    if n >= 0 {
        n
    } else {
        -n
    }
}

/// The product of two scalars, floor-rounded to the fixed-point grid.
pub open spec fn fx_mul_spec(a: int, b: int) -> int {
    div_floor(a * b, FX_ONE as int)
}

proof fn lemma_euclid_div_is_floor(num: nat, den: nat, q: nat, r: nat)
    requires
        den >= 1,
        num == q * den + r,
        r < den,
    ensures
        num as int / den as int == q,
        num as int % den as int == r,
        r > 0 ==> (-(num as int)) / den as int == -(q as int) - 1,
        r == 0 ==> (-(num as int)) / den as int == -(q as int),
{
    lemma_fundamental_div_mod_converse(num as int, den as int, q as int, r as int);
    if r > 0 {
        assert((-(num as int)) == (-(q as int) - 1) * den + (den - r)) by (nonlinear_arith)
            requires
                num == q * den + r,
        ;
        lemma_fundamental_div_mod_converse(
            -(num as int),
            den as int,
            -(q as int) - 1,
            den as int - r,
        );
    } else {
        assert((-(num as int)) == (-(q as int)) * den + 0) by (nonlinear_arith)
            requires
                num == q * den + r,
                r == 0,
        ;
        lemma_fundamental_div_mod_converse(-(num as int), den as int, -(q as int), 0);
    }
}

/// Floor division of a sign-and-magnitude numerator by a positive divisor.
fn mag_div_floor(neg: bool, num: u128, den: u128) -> (r: i128)
    requires
        1 <= den,
        num <= 0x7fff_ffff_ffff_ffff_ffff_ffff_ffff_fffe,
    ensures
        r as int == div_floor(if neg { -(num as int) } else { num as int }, den as int),
{
    let q: u128 = num / den;
    let rem: u128 = num % den;
    proof {
        lemma_fundamental_div_mod(num as int, den as int);
        lemma_euclid_div_is_floor(num as nat, den as nat, q as nat, rem as nat);
        assert(q * den <= num) by (nonlinear_arith)
            requires
                num == q * den + rem,
                0 <= rem,
        ;
        assert(q <= num) by (nonlinear_arith)
            requires
                q * den <= num,
                den >= 1,
                q >= 0,
        ;
    }
    if neg {
        if rem > 0 {
            -((q as i128) + 1)
        } else {
            -(q as i128)
        }
    } else {
        q as i128
    }
}

/// Magnitude of an `i64`, widened so that the minimum value needs no special
/// case.
fn mag_of(a: i64) -> (r: u128)
    ensures
        r == mag(a as int),
{
    let wide: i128 = a as i128;
    if wide >= 0 {
        wide as u128
    } else {
        (-wide) as u128
    }
}

proof fn lemma_signed_product(a: int, b: int)
    ensures
        a * b == if (a < 0) != (b < 0) {
            -(mag(a) * mag(b))
        } else {
            mag(a) * mag(b)
        },
{
    assert(a * b == if (a < 0) != (b < 0) {
        -(mag(a) * mag(b))
    } else {
        mag(a) * mag(b)
    }) by (nonlinear_arith);
}

/// Fixed-point product, rounded toward negative infinity.
pub fn fx_mul(a: i64, b: i64) -> (r: i64)
    requires
        i64::MIN <= fx_mul_spec(a as int, b as int) <= i64::MAX,
    ensures
        r as int == fx_mul_spec(a as int, b as int),
{
    let neg: bool = (a < 0) != (b < 0);
    let ma: u128 = mag_of(a);
    let mb: u128 = mag_of(b);
    proof {
        lemma_signed_product(a as int, b as int);
        assert(ma * mb <= 0x8000_0000_0000_0000 * 0x8000_0000_0000_0000) by (nonlinear_arith)
            requires
                ma <= 0x8000_0000_0000_0000,
                mb <= 0x8000_0000_0000_0000,
        ;
    }
    let q: i128 = mag_div_floor(neg, ma * mb, 1_000_000);
    q as i64
}

/// The fixed-point product, or nothing when it leaves the scalar range.
pub fn fx_mul_checked(a: i64, b: i64) -> (r: Option<i64>)
    ensures
        match r {
            Some(v) => i64::MIN <= fx_mul_spec(a as int, b as int) <= i64::MAX && v as int
                == fx_mul_spec(a as int, b as int),
            None => !(i64::MIN <= fx_mul_spec(a as int, b as int) <= i64::MAX),
        },
{
    let neg: bool = (a < 0) != (b < 0);
    let ma: u128 = mag_of(a);
    let mb: u128 = mag_of(b);
    proof {
        lemma_signed_product(a as int, b as int);
        assert(ma * mb <= 0x8000_0000_0000_0000 * 0x8000_0000_0000_0000) by (nonlinear_arith)
            requires
                ma <= 0x8000_0000_0000_0000,
                mb <= 0x8000_0000_0000_0000,
        ;
    }
    let q: i128 = mag_div_floor(neg, ma * mb, 1_000_000);
    if -0x8000_0000_0000_0000i128 <= q && q <= 0x7fff_ffff_ffff_ffffi128 {
        Some(q as i64)
    } else {
        None
    }
}

/// A sum saturated at the scalar range bounds.
pub open spec fn sat_add_spec(a: int, b: int) -> int {
    if a + b > i64::MAX {
        i64::MAX as int
    } else if a + b < i64::MIN {
        i64::MIN as int
    } else {
        a + b
    }
}

/// Saturating fixed-point sum.
pub fn fx_add_sat(a: i64, b: i64) -> (r: i64)
    ensures
        r as int == sat_add_spec(a as int, b as int),
{
    let wide: i128 = (a as i128) + (b as i128);
    if wide > 0x7fff_ffff_ffff_ffff {
        i64::MAX
    } else if wide < -0x8000_0000_0000_0000 {
        i64::MIN
    } else {
        wide as i64
    }
}

/// A fixed-point product saturated at the scalar range bounds.
pub open spec fn fx_mul_sat_spec(a: int, b: int) -> int {
    clamp_spec(fx_mul_spec(a, b), i64::MIN as int, i64::MAX as int)
}

/// Saturating fixed-point product; total, and exact whenever the true
/// product fits the scalar range.
pub fn fx_mul_sat(a: i64, b: i64) -> (r: i64)
    ensures
        r as int == fx_mul_sat_spec(a as int, b as int),
        a >= 0 && b >= 0 ==> r >= 0,
{
    let neg: bool = (a < 0) != (b < 0);
    let ma: u128 = mag_of(a);
    let mb: u128 = mag_of(b);
    proof {
        lemma_signed_product(a as int, b as int);
        assert(ma * mb <= 0x8000_0000_0000_0000 * 0x8000_0000_0000_0000) by (nonlinear_arith)
            requires
                ma <= 0x8000_0000_0000_0000,
                mb <= 0x8000_0000_0000_0000,
        ;
        if a >= 0 && b >= 0 {
            assert((a as int) * (b as int) >= 0) by (nonlinear_arith)
                requires
                    a >= 0,
                    b >= 0,
            ;
            lemma_div_floor_sign((a as int) * (b as int), 1_000_000);
        }
    }
    let q: i128 = mag_div_floor(neg, ma * mb, 1_000_000);
    if q > 0x7fff_ffff_ffff_ffff {
        i64::MAX
    } else if q < -0x8000_0000_0000_0000 {
        i64::MIN
    } else {
        q as i64
    }
}

/// The quotient `a / b` of two scalars, floor-rounded to the fixed-point
/// grid.
pub open spec fn fx_div_floor_spec(a: int, b: int) -> int
    recommends
        b != 0,
{
    div_floor(a * FX_ONE as int, b)
}

/// The quotient `a / b` of two scalars, rounded up to the fixed-point grid.
pub open spec fn fx_div_up_spec(a: int, b: int) -> int
    recommends
        b != 0,
{
    div_up(a * FX_ONE as int, b)
}

proof fn lemma_div_floor_flip_sign(n: int, d: int)
    requires
        d != 0,
    ensures
        div_floor(n, d) == div_floor(-n, -d),
{
}

/// Fixed-point division, rounded toward negative infinity.
pub fn fx_div_floor(a: i64, b: i64) -> (r: i64)
    requires
        b != 0,
        i64::MIN <= fx_div_floor_spec(a as int, b as int) <= i64::MAX,
    ensures
        r as int == fx_div_floor_spec(a as int, b as int),
{
    let neg: bool = (a < 0) != (b < 0);
    let ma: u128 = mag_of(a);
    let mb: u128 = mag_of(b);
    proof {
        lemma_signed_product(a as int * 1_000_000, b as int);
        lemma_signed_product(a as int, 1_000_000);
        assert(mag(a as int * 1_000_000) == mag(a as int) * 1_000_000);
        assert(ma * 1_000_000 <= 0x8000_0000_0000_0000 * 0x1000_0000_0000_0000)
            by (nonlinear_arith)
            requires
                ma <= 0x8000_0000_0000_0000,
        ;
        if b > 0 {
            assert(div_floor(a as int * 1_000_000, b as int) == div_floor(
                if neg { -((ma * 1_000_000) as int) } else { (ma * 1_000_000) as int },
                mb as int,
            ));
        } else {
            lemma_div_floor_flip_sign(a as int * 1_000_000, b as int);
            assert(div_floor(a as int * 1_000_000, b as int) == div_floor(
                if neg { -((ma * 1_000_000) as int) } else { (ma * 1_000_000) as int },
                mb as int,
            ));
        }
    }
    let q: i128 = mag_div_floor(neg, ma * 1_000_000, mb);
    q as i64
}

/// Fixed-point division, rounded toward positive infinity.
pub fn fx_div_up(a: i64, b: i64) -> (r: i64)
    requires
        b != 0,
        i64::MIN <= fx_div_up_spec(a as int, b as int) <= i64::MAX,
        i64::MIN <= fx_div_floor_spec(-(a as int), b as int) <= i64::MAX,
    ensures
        r as int == fx_div_up_spec(a as int, b as int),
{
    proof {
        assert(fx_div_up_spec(a as int, b as int) == -fx_div_floor_spec(-(a as int), b as int))
            by {
            assert((-(a as int)) * FX_ONE as int == -(a as int * FX_ONE as int))
                by (nonlinear_arith);
        }
    }
    let neg: bool = (a > 0) != (b < 0);
    let ma: u128 = mag_of(a);
    let mb: u128 = mag_of(b);
    proof {
        lemma_signed_product(-(a as int) * 1_000_000, b as int);
        lemma_signed_product(-(a as int), 1_000_000);
        assert(mag(-(a as int)) == mag(a as int));
        assert(mag(-(a as int) * 1_000_000) == mag(-(a as int)) * 1_000_000);
        assert(ma * 1_000_000 <= 0x8000_0000_0000_0000 * 0x1000_0000_0000_0000)
            by (nonlinear_arith)
            requires
                ma <= 0x8000_0000_0000_0000,
        ;
        if b > 0 {
            assert(div_floor(-(a as int) * 1_000_000, b as int) == div_floor(
                if neg { -((ma * 1_000_000) as int) } else { (ma * 1_000_000) as int },
                mb as int,
            ));
        } else {
            lemma_div_floor_flip_sign(-(a as int) * 1_000_000, b as int);
            assert(div_floor(-(a as int) * 1_000_000, b as int) == div_floor(
                if neg { -((ma * 1_000_000) as int) } else { (ma * 1_000_000) as int },
                mb as int,
            ));
        }
    }
    let q: i128 = mag_div_floor(neg, ma * 1_000_000, mb);
    (-q) as i64
}

/// Quotients never grow past the numerator in magnitude when the divisor is a
/// whole number of grid cells or more.
pub proof fn lemma_div_floor_in_range(n: int, d: int)
    requires
        d != 0,
    ensures
        -mag(n) - 1 <= div_floor(n, d) <= mag(n),
        -mag(n) <= div_up(n, d) <= mag(n) + 1,
{
    let dd = if d > 0 { d } else { -d };
    let nn = if d > 0 { n } else { -n };
    assert(div_floor(n, d) == nn / dd);
    lemma_fundamental_div_mod(nn, dd);
    assert(nn == dd * (nn / dd) + nn % dd);
    assert(0 <= nn % dd < dd);
    assert(-mag(n) - 1 <= nn / dd <= mag(n)) by (nonlinear_arith)
        requires
            dd >= 1,
            nn == dd * (nn / dd) + nn % dd,
            0 <= nn % dd < dd,
            mag(n) == if nn >= 0 { nn } else { -nn },
    ;
    let m = -n;
    let mm = if d > 0 { m } else { -m };
    assert(div_up(n, d) == -(mm / dd));
    lemma_fundamental_div_mod(mm, dd);
    assert(-mag(m) - 1 <= mm / dd <= mag(m)) by (nonlinear_arith)
        requires
            dd >= 1,
            mm == dd * (mm / dd) + mm % dd,
            0 <= mm % dd < dd,
            mag(m) == if mm >= 0 { mm } else { -mm },
    ;
}

/// A fixed-point product of bounded factors is bounded: the product of the
/// bounds, brought back to the grid, plus one for the rounding.
pub proof fn lemma_fx_mul_cap(a: int, b: int, la: int, lb: int)
    requires
        mag(a) <= la,
        mag(b) <= lb,
        0 <= la,
        0 <= lb,
    ensures
        mag(fx_mul_spec(a, b)) <= (la * lb) / 1_000_000 + 1,
        -((la * lb) / 1_000_000 + 1) <= fx_mul_spec(a, b) <= (la * lb) / 1_000_000 + 1,
        a >= 0 && b >= 0 ==> fx_mul_spec(a, b) >= 0,
{
    let p = a * b;
    assert(mag(p) <= la * lb) by (nonlinear_arith)
        requires
            mag(a) <= la,
            mag(b) <= lb,
            0 <= la,
            0 <= lb,
            mag(a) == if a >= 0 { a } else { -a },
            mag(b) == if b >= 0 { b } else { -b },
            mag(p) == if p >= 0 { p } else { -p },
            p == a * b,
    ;
    let q = div_floor(p, 1_000_000);
    lemma_fundamental_div_mod(p, 1_000_000);
    lemma_fundamental_div_mod(la * lb, 1_000_000);
    assert(mag(q) <= (la * lb) / 1_000_000 + 1) by (nonlinear_arith)
        requires
            q == p / 1_000_000,
            p == 1_000_000 * q + p % 1_000_000,
            0 <= p % 1_000_000 < 1_000_000,
            la * lb == 1_000_000 * ((la * lb) / 1_000_000) + (la * lb) % 1_000_000,
            0 <= (la * lb) % 1_000_000 < 1_000_000,
            mag(p) <= la * lb,
            mag(p) == if p >= 0 { p } else { -p },
            mag(q) == if q >= 0 { q } else { -q },
    ;
    if a >= 0 && b >= 0 {
        assert(p >= 0) by (nonlinear_arith)
            requires
                a >= 0,
                b >= 0,
                p == a * b,
        ;
        lemma_div_floor_sign(p, 1_000_000);
    }
}

/// Sign of a floor-rounded quotient: a strictly negative exact ratio floors
/// below zero, a nonnegative one stays at or above it.
pub proof fn lemma_div_floor_sign(n: int, d: int)
    requires
        d != 0,
    ensures
        (n < 0 && d > 0) || (n > 0 && d < 0) ==> div_floor(n, d) <= -1,
        (n >= 0 && d > 0) || (n <= 0 && d < 0) ==> div_floor(n, d) >= 0,
{
    let dd = if d > 0 { d } else { -d };
    let nn = if d > 0 { n } else { -n };
    assert(div_floor(n, d) == nn / dd);
    lemma_fundamental_div_mod(nn, dd);
    assert(nn < 0 ==> nn / dd <= -1) by (nonlinear_arith)
        requires
            dd >= 1,
            nn == dd * (nn / dd) + nn % dd,
            0 <= nn % dd < dd,
    ;
    assert(nn >= 0 ==> nn / dd >= 0) by (nonlinear_arith)
        requires
            dd >= 1,
            nn == dd * (nn / dd) + nn % dd,
            0 <= nn % dd < dd,
    ;
}

/// Sign of an up-rounded quotient: a strictly positive exact ratio rounds up
/// to one or more, a nonpositive one stays at or below zero.
pub proof fn lemma_div_up_sign(n: int, d: int)
    requires
        d != 0,
    ensures
        (n > 0 && d > 0) || (n < 0 && d < 0) ==> div_up(n, d) >= 1,
        (n <= 0 && d > 0) || (n >= 0 && d < 0) ==> div_up(n, d) <= 0,
{
    lemma_div_floor_sign(-n, d);
}

/// The smaller of two scalars.
pub fn fx_min(a: i64, b: i64) -> (r: i64)
    ensures
        r == if a <= b { a } else { b },
{
    if a <= b {
        a
    } else {
        b
    }
}

/// The larger of two scalars.
pub fn fx_max(a: i64, b: i64) -> (r: i64)
    ensures
        r == if a >= b { a } else { b },
{
    if a >= b {
        a
    } else {
        b
    }
}

/// `v` clamped to the inclusive range `[lo, hi]`.
pub open spec fn clamp_spec(v: int, lo: int, hi: int) -> int {
    if v < lo {
        lo
    } else if v > hi {
        hi
    } else {
        v
    }
}

/// `v` clamped to the inclusive range `[lo, hi]`.
pub fn fx_clamp(v: i64, lo: i64, hi: i64) -> (r: i64)
    requires
        lo <= hi,
    ensures
        lo <= r <= hi,
        r as int == clamp_spec(v as int, lo as int, hi as int),
{
    if v < lo {
        lo
    } else if v > hi {
        hi
    } else {
        v
    }
}

/// Linear interpolation between two grid fractions: `a` at `t == 0`, `b` at
/// `t == FX_ONE`, floor-rounded.
pub open spec fn fx_lerp_spec(a: int, b: int, t: int) -> int {
    div_floor(a * (FX_ONE as int - t) + b * t, FX_ONE as int)
}

/// Interpolate between two unit-interval scalars; the result stays in the
/// unit interval.
pub fn fx_lerp(a: i64, b: i64, t: i64) -> (r: i64)
    requires
        0 <= a <= FX_ONE,
        0 <= b <= FX_ONE,
        0 <= t <= FX_ONE,
    ensures
        r as int == fx_lerp_spec(a as int, b as int, t as int),
        0 <= r <= FX_ONE,
{
    proof {
        assert((a as int) * (1_000_000 - t as int) + (b as int) * (t as int)
            <= 1_000_000_000_000) by (nonlinear_arith)
            requires
                0 <= a <= 1_000_000,
                0 <= b <= 1_000_000,
                0 <= t <= 1_000_000,
        ;
        assert((a as int) * (1_000_000 - t as int) >= 0 && (b as int) * (t as int) >= 0
            && (a as int) * (1_000_000 - t as int) <= 1_000_000_000_000 && (b as int) * (
        t as int) <= 1_000_000_000_000) by (nonlinear_arith)
            requires
                0 <= a <= 1_000_000,
                0 <= b <= 1_000_000,
                0 <= t <= 1_000_000,
        ;
    }
    let num: u64 = (a as u64) * ((1_000_000 - t) as u64) + (b as u64) * (t as u64);
    let q: u64 = num / 1_000_000;
    proof {
        assert(q <= 1_000_000) by (nonlinear_arith)
            requires
                q == num / 1_000_000,
                num <= 1_000_000_000_000,
        ;
        assert(div_floor(num as int, 1_000_000) == num as int / 1_000_000);
    }
    q as i64
}

/// Euclidean remainder of a scalar by a positive modulus: always in
/// `[0, m)`.
pub fn euclid_mod(n: i64, m: u64) -> (r: u64)
    requires
        1 <= m,
        m <= 0x7fff_ffff_ffff_ffff,
    ensures
        r as int == (n as int) % (m as int),
        r < m,
{
    if n >= 0 {
        let r: u64 = (n as u64) % m;
        r
    } else {
        let k: u64 = (-(n as i128)) as u64;
        let rem: u64 = k % m;
        proof {
            lemma_fundamental_div_mod(k as int, m as int);
            let q = k as int / m as int;
            if rem > 0 {
                assert(n as int == (-q - 1) * m + (m - rem)) by (nonlinear_arith)
                    requires
                        k as int == m as int * q + rem,
                        n as int == -(k as int),
                ;
                lemma_fundamental_div_mod_converse(n as int, m as int, -q - 1, m as int - rem);
            } else {
                assert(n as int == (-q) * m + 0) by (nonlinear_arith)
                    requires
                        k as int == m as int * q + rem,
                        rem == 0,
                        n as int == -(k as int),
                ;
                lemma_fundamental_div_mod_converse(n as int, m as int, -q, 0);
            }
        }
        if rem > 0 {
            m - rem
        } else {
            0
        }
    }
}

/// Floor division of a scalar by a positive divisor that fits in `u64`.
pub fn floor_div_small(n: i64, m: u64) -> (r: i64)
    requires
        1 <= m,
        m <= 0x7fff_ffff_ffff_ffff,
    ensures
        r as int == div_floor(n as int, m as int),
{
    if n >= 0 {
        let q: u64 = (n as u64) / m;
        proof {
            lemma_fundamental_div_mod(n as int, m as int);
            assert(q <= n) by (nonlinear_arith)
                requires
                    q == (n as int) / (m as int),
                    m >= 1,
                    n >= 0,
                    q >= 0,
                    (n as int) == (m as int) * ((n as int) / (m as int)) + (n as int) % (
                    m as int),
                    0 <= (n as int) % (m as int),
            ;
        }
        q as i64
    } else {
        let k: u64 = (-(n as i128)) as u64;
        let q: u64 = k / m;
        let rem: u64 = k % m;
        proof {
            lemma_fundamental_div_mod(k as int, m as int);
            lemma_euclid_div_is_floor(k as nat, m as nat, q as nat, rem as nat);
            assert(q * m <= k) by (nonlinear_arith)
                requires
                    k == q * m + rem,
                    0 <= rem,
            ;
            assert(q <= k) by (nonlinear_arith)
                requires
                    q * m <= k,
                    m >= 1,
                    q >= 0,
            ;
            if rem > 0 {
                assert(q <= k - 1) by (nonlinear_arith)
                    requires
                        k == q * m + rem,
                        rem >= 1,
                        m >= 1,
                        q >= 0,
                ;
            }
        }
        if rem > 0 {
            (-(q as i128) - 1) as i64
        } else {
            (-(q as i128)) as i64
        }
    }
}

/// The integer square root, as a mathematical function: the unique `r >= 0`
/// with `r * r <= n < (r + 1) * (r + 1)`.
pub closed spec fn sqrt_floor(n: int) -> int {
    choose|r: int| 0 <= r && #[trigger] (r * r) <= n && n < (r + 1) * (r + 1)
}

/// Any witness of the square-root property is the square root.
pub proof fn lemma_sqrt_floor_is(n: int, r: int)
    requires
        0 <= r,
        r * r <= n,
        n < (r + 1) * (r + 1),
    ensures
        sqrt_floor(n) == r,
{
    assert(0 <= r && r * r <= n && n < (r + 1) * (r + 1));
    let c = choose|q: int| 0 <= q && #[trigger] (q * q) <= n && n < (q + 1) * (q + 1);
    assert(0 <= c && c * c <= n && n < (c + 1) * (c + 1));
    assert(c == r) by (nonlinear_arith)
        requires
            0 <= r,
            r * r <= n,
            n < (r + 1) * (r + 1),
            0 <= c,
            c * c <= n,
            n < (c + 1) * (c + 1),
    ;
}

/// Integer square root: the largest whole number whose square does not exceed
/// the argument.
pub fn int_sqrt(n: u128) -> (r: u64)
    ensures
        (r as int) * (r as int) <= n as int,
        (n as int) < (r as int + 1) * (r as int + 1),
        r as int == sqrt_floor(n as int),
{
    let mut lo: u64 = 0;
    let mut hi: u128 = 0x1_0000_0000_0000_0000;
    proof {
        assert((n as int) < 0x1_0000_0000_0000_0000 * 0x1_0000_0000_0000_0000)
            by (nonlinear_arith)
            requires
                n <= 0xffff_ffff_ffff_ffff_ffff_ffff_ffff_ffff,
        ;
    }
    while (lo as u128) + 1 < hi
        invariant
            (lo as int) * (lo as int) <= n as int,
            (n as int) < (hi as int) * (hi as int),
            (lo as u128) < hi,
            hi <= 0x1_0000_0000_0000_0000,
        decreases hi - (lo as u128),
    {
        let gap: u128 = hi - (lo as u128);
        let mid: u128 = (lo as u128) + gap / 2;
        proof {
            assert((lo as u128) < mid < hi) by (nonlinear_arith)
                requires
                    gap == hi - (lo as u128),
                    gap >= 2,
                    mid == (lo as u128) + gap / 2,
                    gap / 2 == (gap as int) / 2,
            ;
            assert((mid as int) * (mid as int) < 0xffff_ffff_ffff_ffff_ffff_ffff_ffff_ffff)
                by (nonlinear_arith)
                requires
                    mid < 0x1_0000_0000_0000_0000,
            ;
        }
        if mid * mid <= n {
            lo = mid as u64;
        } else {
            hi = mid;
        }
    }
    proof {
        lemma_sqrt_floor_is(n as int, lo as int);
    }
    lo
}

/// A rational stand-in for the decaying exponential `exp(-x)`: the
/// reciprocal of the first three terms of the series for `exp(x)`,
/// floor-rounded. It agrees with the exponential at zero, decays with `x`,
/// and always stays in the unit interval, which is what the transmittance
/// accounting relies on.
pub open spec fn exp_neg_spec(x: int) -> int {
    (1_000_000 * 1_000_000) as int / (1_000_000 + x + (x * x) / (2_000_000 as int))
}

/// Evaluate the decaying exponential approximation.
pub fn fx_exp_neg(x: i64) -> (r: i64)
    requires
        0 <= x,
    ensures
        r as int == exp_neg_spec(x as int),
        0 <= r <= FX_ONE,
{
    let xw: u128 = x as u128;
    proof {
        assert((xw as int) * (xw as int) <= 0x8000_0000_0000_0000 * 0x8000_0000_0000_0000)
            by (nonlinear_arith)
            requires
                0 <= xw <= 0x8000_0000_0000_0000,
        ;
    }
    let quad: u128 = (xw * xw) / 2_000_000;
    proof {
        vstd::arithmetic::div_mod::lemma_div_pos_is_pos((xw as int) * (xw as int), 2_000_000);
        assert(quad <= (xw as int) * (xw as int)) by (nonlinear_arith)
            requires
                quad == ((xw as int) * (xw as int)) / 2_000_000,
                0 <= (xw as int) * (xw as int),
        ;
    }
    let denom: u128 = 1_000_000 + xw + quad;
    let q: u128 = 1_000_000_000_000 / denom;
    proof {
        vstd::arithmetic::div_mod::lemma_div_is_ordered_by_denominator(
            1_000_000_000_000,
            1_000_000,
            denom as int,
        );
    }
    q as i64
}

} // verus!
