//! Fixed-point three- and four-component vectors.

use vstd::prelude::*;

verus! {

use crate::fixed::{fx_mul, fx_mul_spec, COORD_LIMIT};

/// A point or direction in world space, in fixed-point millionths.
#[derive(Clone, Copy, Debug, PartialEq, Eq, Structural)]
pub struct Vec3 {
    pub x: i64,
    pub y: i64,
    pub z: i64,
}

/// A four-component vector: noise channel weights and phase parameters.
#[derive(Clone, Copy, Debug, PartialEq, Eq, Structural)]
pub struct Vec4 {
    pub x: i64,
    pub y: i64,
    pub z: i64,
    pub w: i64,
}

impl Vec3 {
    /// Every component within `limit` in magnitude.
    pub open spec fn in_range(self, limit: int) -> bool {
        &&& -limit <= self.x <= limit
        &&& -limit <= self.y <= limit
        &&& -limit <= self.z <= limit
    }

    pub fn new(x: i64, y: i64, z: i64) -> (r: Vec3)
        ensures
            r == (Vec3 { x, y, z }),
    {
        Vec3 { x, y, z }
    }

    pub fn zero() -> (r: Vec3)
        ensures
            r == (Vec3 { x: 0i64, y: 0i64, z: 0i64 }),
    {
        Vec3 { x: 0, y: 0, z: 0 }
    }

    /// Componentwise sum.
    pub fn add(self, o: Vec3) -> (r: Vec3)
        requires
            i64::MIN <= self.x + o.x <= i64::MAX,
            i64::MIN <= self.y + o.y <= i64::MAX,
            i64::MIN <= self.z + o.z <= i64::MAX,
        ensures
            r.x == self.x + o.x,
            r.y == self.y + o.y,
            r.z == self.z + o.z,
    {
        Vec3 { x: self.x + o.x, y: self.y + o.y, z: self.z + o.z }
    }

    /// Componentwise difference.
    pub fn sub(self, o: Vec3) -> (r: Vec3)
        requires
            i64::MIN <= self.x - o.x <= i64::MAX,
            i64::MIN <= self.y - o.y <= i64::MAX,
            i64::MIN <= self.z - o.z <= i64::MAX,
        ensures
            r.x == self.x - o.x,
            r.y == self.y - o.y,
            r.z == self.z - o.z,
    {
        Vec3 { x: self.x - o.x, y: self.y - o.y, z: self.z - o.z }
    }

    /// Componentwise minimum.
    pub fn cw_min(self, o: Vec3) -> (r: Vec3)
        ensures
            r.x == if self.x <= o.x { self.x } else { o.x },
            r.y == if self.y <= o.y { self.y } else { o.y },
            r.z == if self.z <= o.z { self.z } else { o.z },
    {
        Vec3 {
            x: if self.x <= o.x { self.x } else { o.x },
            y: if self.y <= o.y { self.y } else { o.y },
            z: if self.z <= o.z { self.z } else { o.z },
        }
    }

    /// Componentwise maximum.
    pub fn cw_max(self, o: Vec3) -> (r: Vec3)
        ensures
            r.x == if self.x >= o.x { self.x } else { o.x },
            r.y == if self.y >= o.y { self.y } else { o.y },
            r.z == if self.z >= o.z { self.z } else { o.z },
    {
        Vec3 {
            x: if self.x >= o.x { self.x } else { o.x },
            y: if self.y >= o.y { self.y } else { o.y },
            z: if self.z >= o.z { self.z } else { o.z },
        }
    }

    /// Each component scaled by the fixed-point factor `k`.
    pub fn scale(self, k: i64) -> (r: Vec3)
        requires
            i64::MIN <= fx_mul_spec(self.x as int, k as int) <= i64::MAX,
            i64::MIN <= fx_mul_spec(self.y as int, k as int) <= i64::MAX,
            i64::MIN <= fx_mul_spec(self.z as int, k as int) <= i64::MAX,
        ensures
            r.x == fx_mul_spec(self.x as int, k as int),
            r.y == fx_mul_spec(self.y as int, k as int),
            r.z == fx_mul_spec(self.z as int, k as int),
    {
        Vec3 { x: fx_mul(self.x, k), y: fx_mul(self.y, k), z: fx_mul(self.z, k) }
    }

    /// Fixed-point dot product.
    pub fn dot(self, o: Vec3) -> (r: i64)
        requires
            self.in_range(COORD_LIMIT as int),
            o.in_range(COORD_LIMIT as int),
        ensures
            r == fx_mul_spec(self.x as int, o.x as int) + fx_mul_spec(self.y as int, o.y as int)
                + fx_mul_spec(self.z as int, o.z as int),
    {
        proof {
            crate::fixed::lemma_div_floor_in_range(self.x as int * o.x as int, (1_000_000 as int));
            crate::fixed::lemma_div_floor_in_range(self.y as int * o.y as int, (1_000_000 as int));
            crate::fixed::lemma_div_floor_in_range(self.z as int * o.z as int, (1_000_000 as int));
            lemma_coord_product_bound(self.x as int, o.x as int);
            lemma_coord_product_bound(self.y as int, o.y as int);
            lemma_coord_product_bound(self.z as int, o.z as int);
        }
        fx_mul(self.x, o.x) + fx_mul(self.y, o.y) + fx_mul(self.z, o.z)
    }

    /// The point halfway between two points, floor-rounded to the grid.
    pub fn midpoint(self, o: Vec3) -> (r: Vec3)
        requires
            i64::MIN <= self.x + o.x <= i64::MAX,
            i64::MIN <= self.y + o.y <= i64::MAX,
            i64::MIN <= self.z + o.z <= i64::MAX,
        ensures
            r.x == crate::fixed::div_floor(self.x + o.x, 2),
            r.y == crate::fixed::div_floor(self.y + o.y, 2),
            r.z == crate::fixed::div_floor(self.z + o.z, 2),
    {
        Vec3 {
            x: half_down(self.x, o.x),
            y: half_down(self.y, o.y),
            z: half_down(self.z, o.z),
        }
    }
}


/// Scaled products of two bounded coordinates stay far inside `i64`.
proof fn lemma_coord_product_bound(a: int, b: int)
    requires
        -(COORD_LIMIT as int) <= a <= COORD_LIMIT as int,
        -(COORD_LIMIT as int) <= b <= COORD_LIMIT as int,
    ensures
        crate::fixed::mag(a * b) <= 1_000_000_000_000_000_000_000_000,
        crate::fixed::mag(fx_mul_spec(a, b)) <= 1_000_000_000_000_000_000,
        i64::MIN <= fx_mul_spec(a, b) <= i64::MAX,
{
    assert(crate::fixed::mag(a * b) <= 1_000_000_000_000_000_000_000_000) by (nonlinear_arith)
        requires
            -1_000_000_000_000 <= a <= 1_000_000_000_000,
            -1_000_000_000_000 <= b <= 1_000_000_000_000,
    ;
    crate::fixed::lemma_div_floor_in_range(a * b, (1_000_000 as int));
    assert(crate::fixed::mag(fx_mul_spec(a, b)) <= 1_000_000_000_000_000_000) by {
        lemma_div_mag_shrinks(a * b);
    }
}

/// Dividing by the grid size shrinks a bounded product to `i64` range.
proof fn lemma_div_mag_shrinks(p: int)
    requires
        crate::fixed::mag(p) <= 1_000_000_000_000_000_000_000_000,
    ensures
        crate::fixed::mag(crate::fixed::div_floor(p, (1_000_000 as int))) <= 1_000_000_000_000_000_000,
{
    let q = crate::fixed::div_floor(p, (1_000_000 as int));
    vstd::arithmetic::div_mod::lemma_fundamental_div_mod(p, (1_000_000 as int));
    assert(crate::fixed::mag(q) <= 1_000_000_000_000_000_000) by (nonlinear_arith)
        requires
            q == p / (1_000_000 as int),
            p == (1_000_000 as int) * q + p % (1_000_000 as int),
            0 <= p % (1_000_000 as int) < (1_000_000 as int),
            crate::fixed::mag(p) <= 1_000_000_000_000_000_000_000_000,
            crate::fixed::mag(q) == if q >= 0 { q } else { -q },
            crate::fixed::mag(p) == if p >= 0 { p } else { -p },
    ;
}

/// Floor of `(a + b) / 2` on raw scalars.
fn half_down(a: i64, b: i64) -> (r: i64)
    requires
        i64::MIN <= a + b <= i64::MAX,
    ensures
        r == crate::fixed::div_floor(a + b, 2),
{
    let s: i128 = a as i128 + b as i128;
    if s >= 0 {
        let su: u128 = s as u128;
        let q: u128 = su / 2;
        proof {
            assert(crate::fixed::div_floor(a + b, 2) == su as int / 2);
            assert(q <= su) by (nonlinear_arith)
                requires
                    q == su / 2,
            ;
        }
        q as i64
    } else {
        let m: u128 = (-s) as u128;
        let mq: u128 = m / 2;
        let mrem: u128 = m % 2;
        proof {
            vstd::arithmetic::div_mod::lemma_fundamental_div_mod(m as int, 2);
            assert(mq <= m) by (nonlinear_arith)
                requires
                    mq == m / 2,
            ;
            if mrem > 0 {
                assert(s as int == (-(mq as int) - 1) * 2 + (2 - mrem)) by (nonlinear_arith)
                    requires
                        m as int == 2 * (mq as int) + mrem as int,
                        s as int == -(m as int),
                ;
                vstd::arithmetic::div_mod::lemma_fundamental_div_mod_converse(
                    s as int,
                    2,
                    -(mq as int) - 1,
                    2 - mrem as int,
                );
            } else {
                assert(s as int == (-(mq as int)) * 2 + 0) by (nonlinear_arith)
                    requires
                        m as int == 2 * (mq as int) + mrem as int,
                        mrem == 0,
                        s as int == -(m as int),
                ;
                vstd::arithmetic::div_mod::lemma_fundamental_div_mod_converse(
                    s as int,
                    2,
                    -(mq as int),
                    0,
                );
            }
        }
        if mrem > 0 {
            (-(mq as i128) - 1) as i64
        } else {
            (-(mq as i128)) as i64
        }
    }
}

impl Vec4 {
    /// Every component within `limit` in magnitude.
    pub open spec fn in_range(self, limit: int) -> bool {
        &&& -limit <= self.x <= limit
        &&& -limit <= self.y <= limit
        &&& -limit <= self.z <= limit
        &&& -limit <= self.w <= limit
    }

    pub fn new(x: i64, y: i64, z: i64, w: i64) -> (r: Vec4)
        ensures
            r == (Vec4 { x, y, z, w }),
    {
        Vec4 { x, y, z, w }
    }

    /// The first three components.
    pub fn xyz(self) -> (r: Vec3)
        ensures
            r == (Vec3 { x: self.x, y: self.y, z: self.z }),
    {
        Vec3 { x: self.x, y: self.y, z: self.z }
    }

    /// Fixed-point dot product of all four components.
    pub fn dot(self, o: Vec4) -> (r: i64)
        requires
            self.in_range(COORD_LIMIT as int),
            o.in_range(COORD_LIMIT as int),
        ensures
            r == fx_mul_spec(self.x as int, o.x as int) + fx_mul_spec(self.y as int, o.y as int)
                + fx_mul_spec(self.z as int, o.z as int) + fx_mul_spec(
                self.w as int,
                o.w as int,
            ),
    {
        proof {
            lemma_coord_product_bound(self.x as int, o.x as int);
            lemma_coord_product_bound(self.y as int, o.y as int);
            lemma_coord_product_bound(self.z as int, o.z as int);
            lemma_coord_product_bound(self.w as int, o.w as int);
        }
        fx_mul(self.x, o.x) + fx_mul(self.y, o.y) + fx_mul(self.z, o.z) + fx_mul(self.w, o.w)
    }
}

} // verus!
