//! Axis-aligned bounding boxes: containment, ray entry and exit distances,
//! and the fixed corner and edge enumeration the wireframe renderer draws.

use vstd::prelude::*;

verus! {

use crate::fixed::{
    div_floor, div_up, fx_div_floor, fx_div_floor_spec, fx_div_up, fx_div_up_spec,
    lemma_div_floor_in_range, mag, COORD_LIMIT, FX_ONE,
};
use crate::vec3::Vec3;

/// An axis-aligned box, stored as its two extreme corners.
#[derive(Clone, Copy, Debug, PartialEq, Eq, Structural)]
pub struct BoundingBox {
    /// Componentwise smallest corner.
    pub min: Vec3,
    /// Componentwise largest corner, opposing `min`.
    pub max: Vec3,
}

/// The box spanned by two arbitrary corner points.
pub open spec fn from_two_pos_spec(a: Vec3, b: Vec3) -> BoundingBox {
    BoundingBox {
        min: Vec3 {
            x: if a.x <= b.x { a.x } else { b.x },
            y: if a.y <= b.y { a.y } else { b.y },
            z: if a.z <= b.z { a.z } else { b.z },
        },
        max: Vec3 {
            x: if a.x >= b.x { a.x } else { b.x },
            y: if a.y >= b.y { a.y } else { b.y },
            z: if a.z >= b.z { a.z } else { b.z },
        },
    }
}

/// Entry parameter of the ray against one slab, rounded toward negative
/// infinity; the extreme sentinel values stand for the two infinities that an
/// axis-parallel ray produces.
pub open spec fn slab_lo(o: int, d: int, mn: int, mx: int) -> int {
    if d == 0 {
        if mn <= o <= mx {
            i64::MIN as int
        } else {
            i64::MAX as int
        }
    } else if d > 0 {
        fx_div_floor_spec(mn - o, d)
    } else {
        fx_div_floor_spec(mx - o, d)
    }
}

/// Exit parameter of the ray against one slab, rounded toward positive
/// infinity.
pub open spec fn slab_hi(o: int, d: int, mn: int, mx: int) -> int {
    if d == 0 {
        if mn <= o <= mx {
            i64::MAX as int
        } else {
            i64::MIN as int
        }
    } else if d > 0 {
        fx_div_up_spec(mx - o, d)
    } else {
        fx_div_up_spec(mn - o, d)
    }
}

pub open spec fn max3(a: int, b: int, c: int) -> int {
    if a >= b && a >= c {
        a
    } else if b >= c {
        b
    } else {
        c
    }
}

pub open spec fn min3(a: int, b: int, c: int) -> int {
    if a <= b && a <= c {
        a
    } else if b <= c {
        b
    } else {
        c
    }
}

/// Largest slab entry over the three axes.
pub open spec fn entry_param(bb: BoundingBox, o: Vec3, d: Vec3) -> int {
    max3(
        slab_lo(o.x as int, d.x as int, bb.min.x as int, bb.max.x as int),
        slab_lo(o.y as int, d.y as int, bb.min.y as int, bb.max.y as int),
        slab_lo(o.z as int, d.z as int, bb.min.z as int, bb.max.z as int),
    )
}

/// Smallest slab exit over the three axes.
pub open spec fn exit_param(bb: BoundingBox, o: Vec3, d: Vec3) -> int {
    min3(
        slab_hi(o.x as int, d.x as int, bb.min.x as int, bb.max.x as int),
        slab_hi(o.y as int, d.y as int, bb.min.y as int, bb.max.y as int),
        slab_hi(o.z as int, d.z as int, bb.min.z as int, bb.max.z as int),
    )
}

/// Distance along the ray to the box, clipped at the origin.
pub open spec fn dst_to_box_spec(bb: BoundingBox, o: Vec3, d: Vec3) -> int {
    if d.x == 0 && d.y == 0 && d.z == 0 {
        0
    } else {
        let a = entry_param(bb, o, d);
        if a >= 0 {
            a
        } else {
            0
        }
    }
}

/// Length of the ray segment inside the box, never negative.
pub open spec fn dst_inside_box_spec(bb: BoundingBox, o: Vec3, d: Vec3) -> int {
    if d.x == 0 && d.y == 0 && d.z == 0 {
        0
    } else {
        let b = exit_param(bb, o, d);
        let tb = dst_to_box_spec(bb, o, d);
        if b <= tb {
            0
        } else {
            b - tb
        }
    }
}

/// A ray misses the box when its slab interval, clipped at the origin, is
/// empty; a direction of zero counts as a miss.
pub open spec fn ray_misses(bb: BoundingBox, o: Vec3, d: Vec3) -> bool {
    if d.x == 0 && d.y == 0 && d.z == 0 {
        true
    } else {
        exit_param(bb, o, d) <= dst_to_box_spec(bb, o, d)
    }
}

impl BoundingBox {
    /// Each `min` component at most its `max` counterpart.
    pub open spec fn wf(self) -> bool {
        &&& self.min.x <= self.max.x
        &&& self.min.y <= self.max.y
        &&& self.min.z <= self.max.z
    }

    /// Both corners within the coordinate limit.
    pub open spec fn bounded(self) -> bool {
        &&& self.min.in_range(COORD_LIMIT as int)
        &&& self.max.in_range(COORD_LIMIT as int)
    }

    /// The box spanned by two arbitrary opposite corners, in either order.
    pub fn from_two_pos(a: Vec3, b: Vec3) -> (r: BoundingBox)
        ensures
            r == from_two_pos_spec(a, b),
            r.wf(),
    {
        BoundingBox { min: a.cw_min(b), max: a.cw_max(b) }
    }

    /// Componentwise extent of the box.
    pub fn size(&self) -> (r: Vec3)
        requires
            self.bounded(),
        ensures
            r.x == self.max.x - self.min.x,
            r.y == self.max.y - self.min.y,
            r.z == self.max.z - self.min.z,
    {
        self.max.sub(self.min)
    }

    /// The midpoint of the two corners, floor-rounded to the grid.
    pub fn center(&self) -> (r: Vec3)
        requires
            self.bounded(),
        ensures
            r.x == div_floor(self.min.x + self.max.x, 2),
            r.y == div_floor(self.min.y + self.max.y, 2),
            r.z == div_floor(self.min.z + self.max.z, 2),
    {
        self.min.midpoint(self.max)
    }

    /// Translate the box so that its center lands on `new_center`.
    pub fn move_center(&mut self, new_center: Vec3)
        requires
            old(self).bounded(),
            new_center.in_range(COORD_LIMIT as int),
        ensures
            final(self).min.x == old(self).min.x + new_center.x - div_floor(
                old(self).min.x + old(self).max.x,
                2,
            ),
            final(self).min.y == old(self).min.y + new_center.y - div_floor(
                old(self).min.y + old(self).max.y,
                2,
            ),
            final(self).min.z == old(self).min.z + new_center.z - div_floor(
                old(self).min.z + old(self).max.z,
                2,
            ),
            final(self).max.x == old(self).max.x + new_center.x - div_floor(
                old(self).min.x + old(self).max.x,
                2,
            ),
            final(self).max.y == old(self).max.y + new_center.y - div_floor(
                old(self).min.y + old(self).max.y,
                2,
            ),
            final(self).max.z == old(self).max.z + new_center.z - div_floor(
                old(self).min.z + old(self).max.z,
                2,
            ),
            old(self).wf() ==> final(self).wf(),
    {
        proof {
            lemma_div_floor_in_range(self.min.x + self.max.x, 2);
            lemma_div_floor_in_range(self.min.y + self.max.y, 2);
            lemma_div_floor_in_range(self.min.z + self.max.z, 2);
        }
        let c = self.center();
        let offset = new_center.sub(c);
        self.min = self.min.add(offset);
        self.max = self.max.add(offset);
    }

    /// Whether `position` lies inside or on the boundary of the box.
    pub fn contains(&self, position: Vec3) -> (r: bool)
        ensures
            r == {
                &&& self.min.x <= position.x <= self.max.x
                &&& self.min.y <= position.y <= self.max.y
                &&& self.min.z <= position.z <= self.max.z
            },
    {
        self.min.x <= position.x && position.x <= self.max.x && self.min.y <= position.y
            && position.y <= self.max.y && self.min.z <= position.z && position.z <= self.max.z
    }

    /// Slab test of a ray against the box: the distance to the box along the
    /// ray and the length of the segment inside it, both clipped to zero.
    pub fn dst(&self, ray_origin: Vec3, ray_dir: Vec3) -> (r: (i64, i64))
        requires
            self.bounded(),
            ray_origin.in_range(COORD_LIMIT as int),
        ensures
            r.0 as int == dst_to_box_spec(*self, ray_origin, ray_dir),
            r.1 as int == dst_inside_box_spec(*self, ray_origin, ray_dir),
            r.0 >= 0,
            0 <= r.1 <= 2_000_000_000_000_000_001,
            r.1 > 0 ==> r.0 <= 2_000_000_000_000_000_001,
            (r.1 == 0) == ray_misses(*self, ray_origin, ray_dir),
    {
        if ray_dir.x == 0 && ray_dir.y == 0 && ray_dir.z == 0 {
            return (0, 0);
        }
        let (lo_x, hi_x) = slab_axis(ray_origin.x, ray_dir.x, self.min.x, self.max.x);
        let (lo_y, hi_y) = slab_axis(ray_origin.y, ray_dir.y, self.min.y, self.max.y);
        let (lo_z, hi_z) = slab_axis(ray_origin.z, ray_dir.z, self.min.z, self.max.z);
        let dst_a = crate::fixed::fx_max(crate::fixed::fx_max(lo_x, lo_y), lo_z);
        let dst_b = crate::fixed::fx_min(crate::fixed::fx_min(hi_x, hi_y), hi_z);
        let dst_to_box = if dst_a >= 0 {
            dst_a
        } else {
            0
        };
        let dst_inside_box = if dst_b <= dst_to_box {
            0
        } else {
            dst_b - dst_to_box
        };
        proof {
            if ray_dir.x != 0 {
                assert(dst_b <= hi_x);
            } else if ray_dir.y != 0 {
                assert(dst_b <= hi_y);
            } else {
                assert(dst_b <= hi_z);
            }
        }
        (dst_to_box, dst_inside_box)
    }

    /// The eight corners in the fixed order the wireframe and the projection
    /// rely on.
    pub fn corners(&self) -> (r: [Vec3; 8])
        ensures
            r@ == seq![
                Vec3 { x: self.min.x, y: self.min.y, z: self.min.z },
                Vec3 { x: self.max.x, y: self.min.y, z: self.min.z },
                Vec3 { x: self.min.x, y: self.min.y, z: self.max.z },
                Vec3 { x: self.max.x, y: self.max.y, z: self.min.z },
                Vec3 { x: self.min.x, y: self.max.y, z: self.min.z },
                Vec3 { x: self.max.x, y: self.min.y, z: self.max.z },
                Vec3 { x: self.min.x, y: self.max.y, z: self.max.z },
                Vec3 { x: self.max.x, y: self.max.y, z: self.max.z },
            ],
    {
        let x1 = self.min.x;
        let y1 = self.min.y;
        let z1 = self.min.z;
        let x2 = self.max.x;
        let y2 = self.max.y;
        let z2 = self.max.z;
        [
            Vec3 { x: x1, y: y1, z: z1 },
            Vec3 { x: x2, y: y1, z: z1 },
            Vec3 { x: x1, y: y1, z: z2 },
            Vec3 { x: x2, y: y2, z: z1 },
            Vec3 { x: x1, y: y2, z: z1 },
            Vec3 { x: x2, y: y1, z: z2 },
            Vec3 { x: x1, y: y2, z: z2 },
            Vec3 { x: x2, y: y2, z: z2 },
        ]
    }

    /// The twelve edges of the box as index pairs into `corners`.
    pub fn edges(&self) -> (r: [(usize, usize); 12])
        ensures
            r@ == seq![
                (0usize, 1usize),
                (1usize, 5usize),
                (5usize, 4usize),
                (4usize, 0usize),
                (2usize, 3usize),
                (3usize, 7usize),
                (7usize, 6usize),
                (6usize, 2usize),
                (0usize, 2usize),
                (1usize, 3usize),
                (4usize, 6usize),
                (5usize, 7usize),
            ],
    {
        [
            (0, 1),
            (1, 5),
            (5, 4),
            (4, 0),
            (2, 3),
            (3, 7),
            (7, 6),
            (6, 2),
            (0, 2),
            (1, 3),
            (4, 6),
            (5, 7),
        ]
    }
}

impl From<(Vec3, Vec3)> for BoundingBox {
    /// The box spanned by a pair of corner points.
    fn from(value: (Vec3, Vec3)) -> (r: BoundingBox) {
        BoundingBox::from_two_pos(value.0, value.1)
    }
}

impl vstd::std_specs::convert::FromSpecImpl<(Vec3, Vec3)> for BoundingBox {
    open spec fn obeys_from_spec() -> bool {
        true
    }

    open spec fn from_spec(value: (Vec3, Vec3)) -> BoundingBox {
        from_two_pos_spec(value.0, value.1)
    }
}

/// The box spanned by two points does not depend on the order the points are
/// given in.
pub proof fn lemma_from_two_pos_symmetric(a: Vec3, b: Vec3)
    ensures
        from_two_pos_spec(a, b) == from_two_pos_spec(b, a),
{
}

/// A box that is not inverted contains its own center point.
pub proof fn lemma_center_contained(bb: BoundingBox)
    requires
        bb.wf(),
    ensures
        bb.min.x <= div_floor(bb.min.x + bb.max.x, 2) <= bb.max.x,
        bb.min.y <= div_floor(bb.min.y + bb.max.y, 2) <= bb.max.y,
        bb.min.z <= div_floor(bb.min.z + bb.max.z, 2) <= bb.max.z,
{
    lemma_center_axis(bb.min.x as int, bb.max.x as int);
    lemma_center_axis(bb.min.y as int, bb.max.y as int);
    lemma_center_axis(bb.min.z as int, bb.max.z as int);
}

proof fn lemma_center_axis(mn: int, mx: int)
    requires
        mn <= mx,
    ensures
        mn <= div_floor(mn + mx, 2) <= mx,
{
    let s = mn + mx;
    vstd::arithmetic::div_mod::lemma_fundamental_div_mod(s, 2);
    assert(mn <= s / 2 <= mx) by (nonlinear_arith)
        requires
            s == 2 * (s / 2) + s % 2,
            0 <= s % 2 < 2,
            s == mn + mx,
            mn <= mx,
    ;
}

/// A ray that starts strictly inside the box is already in it and travels a
/// positive distance through it.
pub proof fn lemma_ray_from_inside(bb: BoundingBox, o: Vec3, d: Vec3)
    requires
        bb.bounded(),
        o.in_range(COORD_LIMIT as int),
        bb.min.x < o.x < bb.max.x,
        bb.min.y < o.y < bb.max.y,
        bb.min.z < o.z < bb.max.z,
    ensures
        dst_to_box_spec(bb, o, d) == 0,
        !(d.x == 0 && d.y == 0 && d.z == 0) ==> dst_inside_box_spec(bb, o, d) > 0,
{
    lemma_slab_inside_axis(o.x as int, d.x as int, bb.min.x as int, bb.max.x as int);
    lemma_slab_inside_axis(o.y as int, d.y as int, bb.min.y as int, bb.max.y as int);
    lemma_slab_inside_axis(o.z as int, d.z as int, bb.min.z as int, bb.max.z as int);
}

/// On an axis whose slab contains the origin strictly, the entry parameter is
/// nonpositive and the exit parameter strictly positive.
proof fn lemma_slab_inside_axis(o: int, d: int, mn: int, mx: int)
    requires
        mn < o < mx,
        -(COORD_LIMIT as int) <= o <= COORD_LIMIT as int,
        -(COORD_LIMIT as int) <= mn <= COORD_LIMIT as int,
        -(COORD_LIMIT as int) <= mx <= COORD_LIMIT as int,
    ensures
        slab_lo(o, d, mn, mx) <= 0,
        slab_hi(o, d, mn, mx) >= 1,
{
    if d != 0 {
        assert((mn - o) * (FX_ONE as int) < 0) by (nonlinear_arith)
            requires
                mn - o < 0,
        ;
        assert((mx - o) * (FX_ONE as int) > 0) by (nonlinear_arith)
            requires
                mx - o > 0,
        ;
        crate::fixed::lemma_div_floor_sign((mn - o) * (FX_ONE as int), d);
        crate::fixed::lemma_div_floor_sign((mx - o) * (FX_ONE as int), d);
        crate::fixed::lemma_div_up_sign((mn - o) * (FX_ONE as int), d);
        crate::fixed::lemma_div_up_sign((mx - o) * (FX_ONE as int), d);
    }
}

/// The inside distance is never negative, and it vanishes exactly on the
/// rays that miss the box.
pub proof fn lemma_inside_distance_iff_hit(bb: BoundingBox, o: Vec3, d: Vec3)
    ensures
        dst_inside_box_spec(bb, o, d) >= 0,
        (dst_inside_box_spec(bb, o, d) == 0) <==> ray_misses(bb, o, d),
{
}

/// Entry and exit parameters of the ray against one slab, with sentinel
/// infinities for an axis-parallel ray.
fn slab_axis(o: i64, d: i64, mn: i64, mx: i64) -> (r: (i64, i64))
    requires
        -(COORD_LIMIT as int) <= o <= COORD_LIMIT as int,
        -(COORD_LIMIT as int) <= mn <= COORD_LIMIT as int,
        -(COORD_LIMIT as int) <= mx <= COORD_LIMIT as int,
    ensures
        r.0 as int == slab_lo(o as int, d as int, mn as int, mx as int),
        r.1 as int == slab_hi(o as int, d as int, mn as int, mx as int),
        d != 0 ==> mag(r.0 as int) <= 2_000_000_000_000_000_001 && mag(r.1 as int)
            <= 2_000_000_000_000_000_001,
{
    if d == 0 {
        if mn <= o && o <= mx {
            (i64::MIN, i64::MAX)
        } else {
            (i64::MAX, i64::MIN)
        }
    } else {
        proof {
            lemma_slab_quotients_fit(o as int, d as int, mn as int, mx as int);
        }
        if d > 0 {
            (fx_div_floor(mn - o, d), fx_div_up(mx - o, d))
        } else {
            (fx_div_floor(mx - o, d), fx_div_up(mn - o, d))
        }
    }
}

/// The scaled slab quotients of bounded coordinates fit comfortably in
/// `i64`.
proof fn lemma_slab_quotients_fit(o: int, d: int, mn: int, mx: int)
    requires
        d != 0,
        -(COORD_LIMIT as int) <= o <= COORD_LIMIT as int,
        -(COORD_LIMIT as int) <= mn <= COORD_LIMIT as int,
        -(COORD_LIMIT as int) <= mx <= COORD_LIMIT as int,
    ensures
        mag(fx_div_floor_spec(mn - o, d)) <= 2_000_000_000_000_000_001,
        mag(fx_div_floor_spec(mx - o, d)) <= 2_000_000_000_000_000_001,
        mag(fx_div_up_spec(mn - o, d)) <= 2_000_000_000_000_000_001,
        mag(fx_div_up_spec(mx - o, d)) <= 2_000_000_000_000_000_001,
        i64::MIN < fx_div_floor_spec(-(mn - o), d) < i64::MAX,
        i64::MIN < fx_div_floor_spec(-(mx - o), d) < i64::MAX,
{
    assert(mag((mn - o) * (FX_ONE as int)) <= 2_000_000_000_000_000_000) by (nonlinear_arith)
        requires
            -2_000_000_000_000 <= mn - o <= 2_000_000_000_000,
    ;
    assert(mag((mx - o) * (FX_ONE as int)) <= 2_000_000_000_000_000_000) by (nonlinear_arith)
        requires
            -2_000_000_000_000 <= mx - o <= 2_000_000_000_000,
    ;
    assert(mag((-(mn - o)) * (FX_ONE as int)) <= 2_000_000_000_000_000_000) by (nonlinear_arith)
        requires
            -2_000_000_000_000 <= mn - o <= 2_000_000_000_000,
    ;
    assert(mag((-(mx - o)) * (FX_ONE as int)) <= 2_000_000_000_000_000_000) by (nonlinear_arith)
        requires
            -2_000_000_000_000 <= mx - o <= 2_000_000_000_000,
    ;
    lemma_div_floor_in_range((mn - o) * (FX_ONE as int), d);
    lemma_div_floor_in_range((mx - o) * (FX_ONE as int), d);
    lemma_div_floor_in_range((-(mn - o)) * (FX_ONE as int), d);
    lemma_div_floor_in_range((-(mx - o)) * (FX_ONE as int), d);
    assert((-(mn - o)) * (FX_ONE as int) == -((mn - o) * (FX_ONE as int))) by (nonlinear_arith);
    assert((-(mx - o)) * (FX_ONE as int) == -((mx - o) * (FX_ONE as int))) by (nonlinear_arith);
}

} // verus!
