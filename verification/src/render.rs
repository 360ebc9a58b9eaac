//! The per-pixel ray march and the line geometry of the grid and the box
//! wireframe. The painting itself — canvas, texture upload, parallel pixel
//! scheduling — lives outside the library; everything here is a pure
//! function from scene data and a ray to a color or to line segments.

use vstd::prelude::*;

verus! {

use crate::bounding_box::{dst_inside_box_spec, dst_to_box_spec, ray_misses, BoundingBox};
use crate::cloud::{
    density_spec, hg, hg_spec, lemma_unit_product_stays_unit, light_march_spec, march_pos_spec,
    Cloud,
};
use crate::color::{lerp_channel_spec, lerp_color, Rgba8};
use crate::fixed::{
    clamp_spec, div_floor, exp_neg_spec, fx_add_sat, fx_clamp, fx_div_floor, fx_exp_neg, fx_mul,
    fx_div_floor_spec, fx_mul_sat, fx_mul_sat_spec, fx_mul_spec, int_sqrt, lemma_div_floor_in_range,
    lemma_div_floor_sign, lemma_fx_mul_cap, mag, sat_add_spec, sqrt_floor, COORD_LIMIT, FX_ONE,
};
use crate::scene::Grid;
use crate::vec3::Vec3;

/// The transmittance floor under which the march stops refining a pixel.
pub const BREAK_THRESHOLD: i64 = 10_000;

/// One transmittance update of the march: the incoming transmittance decayed
/// by the density crossed in this step. The result never grows — along a
/// march the transmittance is monotonically non-increasing, and it stays in
/// the unit interval.
pub fn march_step(transmittance: i64, density: i64, step_size: i64, absorption: i64) -> (r: i64)
    requires
        0 <= transmittance <= FX_ONE,
        0 <= density,
        0 <= step_size,
        0 <= absorption,
    ensures
        r as int == fx_mul_spec(
            transmittance as int,
            exp_neg_spec(fx_mul_sat_spec(fx_mul_sat_spec(density as int, step_size as int), absorption as int)),
        ),
        0 <= r <= transmittance,
{
    let tau = fx_mul_sat(fx_mul_sat(density, step_size), absorption);
    let decay = fx_exp_neg(tau);
    proof {
        lemma_unit_product_stays_unit(transmittance as int, decay as int);
    }
    fx_mul(transmittance, decay)
}

/// The in-scattered energy gathered in one step.
pub open spec fn energy_term_spec(
    density: int,
    step_size: int,
    transmittance: int,
    light_transmittance: int,
    phase_val: int,
) -> int {
    fx_mul_sat_spec(
        fx_mul_sat_spec(
            fx_mul_sat_spec(fx_mul_sat_spec(density, step_size), transmittance),
            light_transmittance,
        ),
        phase_val,
    )
}

/// The march state after `n` steps from the entry point: transmittance and
/// gathered light energy. Once the transmittance falls under the break
/// threshold the state freezes, mirroring the early exit of the loop.
pub open spec fn march_state_spec(
    c: Cloud,
    entry: Vec3,
    dir: Vec3,
    step: int,
    sun_pos: Vec3,
    phase_val: int,
    n: nat,
) -> (int, int)
    decreases n,
{
    if n == 0 {
        (FX_ONE as int, 0)
    } else {
        let prev = march_state_spec(c, entry, dir, step, sun_pos, phase_val, (n - 1) as nat);
        if prev.0 < BREAK_THRESHOLD {
            prev
        } else {
            let pos = march_pos_spec(entry, dir, step * (n - 1));
            let d = density_spec(c, pos);
            if d > 0 {
                let lt = light_march_spec(c, pos, sun_pos);
                (
                    fx_mul_spec(
                        prev.0,
                        exp_neg_spec(
                            fx_mul_sat_spec(
                                fx_mul_sat_spec(d, step),
                                c.light_absorption_through_cloud as int,
                            ),
                        ),
                    ),
                    sat_add_spec(prev.1, energy_term_spec(d, step, prev.0, lt, phase_val)),
                )
            } else {
                prev
            }
        }
    }
}

/// March `n` equidistant steps through the cloud from `entry` along `dir`,
/// gathering transmittance and light energy.
fn march(c: &Cloud, entry: Vec3, dir: Vec3, step: i64, sun_pos: Vec3, phase_val: i64, n: usize, inside: i64) -> (r: (
    i64,
    i64,
))
    requires
        c.wf(),
        entry.in_range(COORD_LIMIT as int),
        sun_pos.in_range(COORD_LIMIT as int),
        dir.in_range(FX_ONE as int + 1),
        0 <= step,
        0 <= inside <= 2_000_000_000_000_000_001,
        (step as int) * (n as int) <= inside as int,
        n <= 10_000,
    ensures
        (r.0 as int, r.1 as int) == march_state_spec(
            *c,
            entry,
            dir,
            step as int,
            sun_pos,
            phase_val as int,
            n as nat,
        ),
        0 <= r.0 <= FX_ONE,
{
    let mut t: i64 = 1_000_000;
    let mut e: i64 = 0;
    let mut i: usize = 0;
    while i < n
        invariant
            c.wf(),
            entry.in_range(COORD_LIMIT as int),
            sun_pos.in_range(COORD_LIMIT as int),
            dir.in_range(FX_ONE as int + 1),
            0 <= step,
            0 <= inside <= 2_000_000_000_000_000_001,
            (step as int) * (n as int) <= inside as int,
            n <= 10_000,
            i <= n,
            (t as int, e as int) == march_state_spec(
                *c,
                entry,
                dir,
                step as int,
                sun_pos,
                phase_val as int,
                i as nat,
            ),
            0 <= t <= FX_ONE,
        decreases n - i,
    {
        if t >= BREAK_THRESHOLD {
            proof {
                assert(0 <= (step as int) * (i as int) <= inside as int) by (nonlinear_arith)
                    requires
                        0 <= step,
                        0 <= i <= n,
                        (step as int) * (n as int) <= inside as int,
                ;
                lemma_fx_mul_cap(
                    dir.x as int,
                    (step as int) * (i as int),
                    FX_ONE as int + 1,
                    2_000_000_000_000_000_001,
                );
                lemma_fx_mul_cap(
                    dir.y as int,
                    (step as int) * (i as int),
                    FX_ONE as int + 1,
                    2_000_000_000_000_000_001,
                );
                lemma_fx_mul_cap(
                    dir.z as int,
                    (step as int) * (i as int),
                    FX_ONE as int + 1,
                    2_000_000_000_000_000_001,
                );
            }
            let tt: i64 = step * (i as i64);
            let pos = Vec3 {
                x: fx_clamp(entry.x + fx_mul(dir.x, tt), -1_000_000_000_000, 1_000_000_000_000),
                y: fx_clamp(entry.y + fx_mul(dir.y, tt), -1_000_000_000_000, 1_000_000_000_000),
                z: fx_clamp(entry.z + fx_mul(dir.z, tt), -1_000_000_000_000, 1_000_000_000_000),
            };
            proof {
                assert(pos == march_pos_spec(entry, dir, (step as int) * (i as int)));
            }
            let d = c.sample_density(pos);
            if d > 0 {
                let lt = c.light_march(pos, sun_pos);
                let term = fx_mul_sat(
                    fx_mul_sat(fx_mul_sat(fx_mul_sat(d, step), t), lt),
                    phase_val,
                );
                e = fx_add_sat(e, term);
                t = march_step(t, d, step, c.light_absorption_through_cloud);
            }
        }
        i = i + 1;
    }
    (t, e)
}

/// An eight-bit channel as a unit fraction.
pub open spec fn channel_frac_spec(c: int) -> int {
    div_floor(c * (FX_ONE as int), 255)
}

fn channel_frac(c: u8) -> (r: i64)
    ensures
        r as int == channel_frac_spec(c as int),
        0 <= r <= FX_ONE,
{
    let w: u64 = (c as u64) * 1_000_000;
    let q: u64 = w / 255;
    proof {
        assert(q <= 1_000_000) by (nonlinear_arith)
            requires
                q == w / 255,
                w <= 255_000_000,
        ;
        assert(div_floor((c as int) * 1_000_000, 255) == w as int / 255);
    }
    q as i64
}

/// A unit fraction as an eight-bit channel.
pub open spec fn frac_channel_spec(v: int) -> int {
    div_floor(clamp_spec(v, 0, FX_ONE as int) * 255, FX_ONE as int)
}

fn frac_channel(v: i64) -> (r: u8)
    ensures
        r as int == frac_channel_spec(v as int),
{
    let c = fx_clamp(v, 0, 1_000_000);
    let w: u64 = (c as u64) * 255;
    let q: u64 = w / 1_000_000;
    proof {
        assert(q <= 255) by (nonlinear_arith)
            requires
                q == w / 1_000_000,
                w <= 255_000_000,
        ;
        assert(div_floor((c as int) * 255, 1_000_000) == w as int / 1_000_000);
    }
    q as u8
}

/// A unit fraction raised to a small whole power.
pub open spec fn unit_pow_spec(x: int, k: nat) -> int
    decreases k,
{
    if k == 0 {
        FX_ONE as int
    } else {
        fx_mul_spec(x, unit_pow_spec(x, (k - 1) as nat))
    }
}

fn unit_pow(x: i64, k: u64) -> (r: i64)
    requires
        0 <= x <= FX_ONE,
        k <= 8,
    ensures
        r as int == unit_pow_spec(x as int, k as nat),
        0 <= r <= FX_ONE,
{
    let mut r: i64 = 1_000_000;
    let mut j: u64 = 0;
    while j < k
        invariant
            0 <= x <= FX_ONE,
            j <= k,
            r as int == unit_pow_spec(x as int, j as nat),
            0 <= r <= FX_ONE,
        decreases k - j,
    {
        proof {
            lemma_unit_product_stays_unit(x as int, r as int);
        }
        r = fx_mul(x, r);
        j = j + 1;
    }
    r
}

/// The whole-power focusing exponent nearest to the first phase parameter,
/// kept between zero and eight.
pub open spec fn focus_exponent_spec(p: int) -> int {
    clamp_spec(div_floor(p + FX_ONE as int / 2, FX_ONE as int), 0, 8)
}

/// The composed color of a pixel the ray march ran for: the sky gradient
/// seen through the remaining transmittance, the gathered light tinted by
/// the light color, and the sun disc blended on top.
pub open spec fn compose_spec(c: Cloud, dir: Vec3, t: int, e: int) -> Rgba8 {
    let tsky = sqrt_floor(clamp_spec(dir.y as int, 0, FX_ONE as int) * (FX_ONE as int));
    let skyr = lerp_channel_spec(c.col_a.r as int, c.col_b.r as int, tsky);
    let skyg = lerp_channel_spec(c.col_a.g as int, c.col_b.g as int, tsky);
    let skyb = lerp_channel_spec(c.col_a.b as int, c.col_b.b as int, tsky);
    let cos2 = fx_mul_spec(dir.x as int, 10_000_000) + fx_mul_spec(dir.y as int, 10_000_000)
        + fx_mul_spec(dir.z as int, 10_000_000);
    let focused = unit_pow_spec(
        clamp_spec(cos2, 0, FX_ONE as int),
        focus_exponent_spec(c.phase_params.x as int) as nat,
    );
    let sun_t = fx_mul_spec(clamp_spec(hg_spec(focused, 999_500), 0, FX_ONE as int), t);
    Rgba8 {
        r: compose_channel_spec(skyr, c.light_color.r as int, t, e, sun_t) as u8,
        g: compose_channel_spec(skyg, c.light_color.g as int, t, e, sun_t) as u8,
        b: compose_channel_spec(skyb, c.light_color.b as int, t, e, sun_t) as u8,
        a: 255u8,
    }
}

/// One channel of the composition, as an eight-bit value.
pub open spec fn compose_channel_spec(sky: int, light: int, t: int, e: int, sun_t: int) -> int {
    let lf = channel_frac_spec(light);
    let base = sat_add_spec(
        fx_mul_sat_spec(channel_frac_spec(sky), t),
        fx_mul_sat_spec(e, lf),
    );
    let col = clamp_spec(base, 0, FX_ONE as int);
    frac_channel_spec(
        fx_mul_spec(col, FX_ONE as int - sun_t) + fx_mul_spec(lf, sun_t),
    )
}

fn compose_channel(sky: u8, light: u8, t: i64, e: i64, sun_t: i64) -> (r: u8)
    requires
        0 <= t <= FX_ONE,
        0 <= sun_t <= FX_ONE,
    ensures
        r as int == compose_channel_spec(sky as int, light as int, t as int, e as int, sun_t as int),
{
    let lf = channel_frac(light);
    let base = fx_add_sat(fx_mul_sat(channel_frac(sky), t), fx_mul_sat(e, lf));
    let col = fx_clamp(base, 0, 1_000_000);
    proof {
        lemma_unit_product_stays_unit(col as int, (FX_ONE as int - sun_t as int) as int);
        lemma_unit_product_stays_unit(lf as int, sun_t as int);
    }
    frac_channel(fx_mul(col, 1_000_000 - sun_t) + fx_mul(lf, sun_t))
}

/// Compose the final pixel color from the march outcome.
fn compose(c: &Cloud, dir: Vec3, t: i64, e: i64) -> (r: Rgba8)
    requires
        c.wf(),
        dir.in_range(FX_ONE as int + 1),
        0 <= t <= FX_ONE,
    ensures
        r == compose_spec(*c, dir, t as int, e as int),
{
    let cy = fx_clamp(dir.y, 0, 1_000_000);
    let root: u64 = int_sqrt((cy as u128) * 1_000_000);
    proof {
        assert((cy as int) * 1_000_000 <= 1_000_000_000_000) by (nonlinear_arith)
            requires
                0 <= cy <= 1_000_000,
        ;
        assert(root <= 1_000_000) by (nonlinear_arith)
            requires
                (root as int) * (root as int) <= 1_000_000_000_000,
        ;
    }
    let tsky: i64 = root as i64;
    let sky = lerp_color(c.col_a, c.col_b, tsky);
    proof {
        lemma_fx_mul_cap(dir.x as int, 10_000_000, FX_ONE as int + 1, 10_000_000);
        lemma_fx_mul_cap(dir.y as int, 10_000_000, FX_ONE as int + 1, 10_000_000);
        lemma_fx_mul_cap(dir.z as int, 10_000_000, FX_ONE as int + 1, 10_000_000);
    }
    let cos2 = fx_mul(dir.x, 10_000_000) + fx_mul(dir.y, 10_000_000) + fx_mul(dir.z, 10_000_000);
    proof {
        lemma_div_floor_in_range(c.phase_params.x as int + 500_000, 1_000_000);
    }
    let ka: i64 = crate::fixed::floor_div_small(c.phase_params.x + 500_000, 1_000_000);
    let k = fx_clamp(ka, 0, 8);
    let focused = unit_pow(fx_clamp(cos2, 0, 1_000_000), k as u64);
    let h = hg(focused, 999_500);
    let hc = fx_clamp(h, 0, 1_000_000);
    proof {
        lemma_unit_product_stays_unit(hc as int, t as int);
    }
    let sun_t = fx_mul(hc, t);
    Rgba8 {
        r: compose_channel(sky.r, c.light_color.r, t, e, sun_t),
        g: compose_channel(sky.g, c.light_color.g, t, e, sun_t),
        b: compose_channel(sky.b, c.light_color.b, t, e, sun_t),
        a: 255,
    }
}

/// The color of one pixel: transparent where the ray misses the cloud's
/// box, otherwise the ray march composed over the sky, with full coverage.
pub open spec fn render_pixel_spec(c: Cloud, origin: Vec3, dir: Vec3) -> Rgba8 {
    if dst_inside_box_spec(c.bounding_box, origin, dir) <= 0 {
        Rgba8 { r: 0u8, g: 0u8, b: 0u8, a: 0u8 }
    } else {
        let tb = dst_to_box_spec(c.bounding_box, origin, dir);
        let inside = dst_inside_box_spec(c.bounding_box, origin, dir);
        let entry = march_pos_spec(origin, dir, tb);
        let step = div_floor(inside, c.num_steps as int);
        let cos1 = fx_mul_spec(dir.x as int, 10_000_000) + fx_mul_spec(dir.y as int, 10_000_000);
        let phase_val = crate::cloud::phase_spec(c, cos1);
        let st = march_state_spec(
            c,
            entry,
            dir,
            step,
            Vec3 { x: 10_000_000i64, y: 10_000_000i64, z: 0i64 },
            phase_val,
            c.num_steps as nat,
        );
        compose_spec(c, dir, st.0, st.1)
    }
}

/// Render the pixel a ray looks at. The result is fully transparent exactly
/// on the rays that miss the cloud's bounding box, and fully opaque on the
/// rays that strike it.
pub fn render_pixel(c: &Cloud, origin: Vec3, dir: Vec3) -> (r: Rgba8)
    requires
        c.wf(),
        origin.in_range(COORD_LIMIT as int),
        dir.in_range(FX_ONE as int + 1),
    ensures
        r == render_pixel_spec(*c, origin, dir),
        (r.a == 0) == ray_misses(c.bounding_box, origin, dir),
        ray_misses(c.bounding_box, origin, dir) ==> r == (Rgba8 { r: 0u8, g: 0u8, b: 0u8, a: 0u8 }),
{
    let bb = c.bounding_box;
    let (tb, inside) = bb.dst(origin, dir);
    if inside <= 0 {
        return Rgba8 { r: 0, g: 0, b: 0, a: 0 };
    }
    proof {
        lemma_fx_mul_cap(dir.x as int, tb as int, FX_ONE as int + 1, 2_000_000_000_000_000_001);
        lemma_fx_mul_cap(dir.y as int, tb as int, FX_ONE as int + 1, 2_000_000_000_000_000_001);
        lemma_fx_mul_cap(dir.z as int, tb as int, FX_ONE as int + 1, 2_000_000_000_000_000_001);
    }
    let entry = Vec3 {
        x: fx_clamp(
            crate::cloud::clamped_add(origin.x, fx_mul(dir.x, tb)),
            -1_000_000_000_000,
            1_000_000_000_000,
        ),
        y: fx_clamp(
            crate::cloud::clamped_add(origin.y, fx_mul(dir.y, tb)),
            -1_000_000_000_000,
            1_000_000_000_000,
        ),
        z: fx_clamp(
            crate::cloud::clamped_add(origin.z, fx_mul(dir.z, tb)),
            -1_000_000_000_000,
            1_000_000_000_000,
        ),
    };
    proof {
        assert(entry == march_pos_spec(origin, dir, tb as int));
    }
    let n: usize = c.num_steps;
    let step: i64 = crate::fixed::floor_div_small(inside, n as u64);
    proof {
        lemma_div_floor_sign(inside as int, n as int);
        lemma_div_floor_in_range(inside as int, n as int);
        vstd::arithmetic::div_mod::lemma_fundamental_div_mod(inside as int, n as int);
        assert((step as int) * (n as int) <= inside as int) by (nonlinear_arith)
            requires
                step as int == (inside as int) / (n as int),
                inside as int == (n as int) * ((inside as int) / (n as int)) + (inside as int) % (
                n as int),
                0 <= (inside as int) % (n as int),
        ;
    }
    proof {
        lemma_fx_mul_cap(dir.x as int, 10_000_000, FX_ONE as int + 1, 10_000_000);
        lemma_fx_mul_cap(dir.y as int, 10_000_000, FX_ONE as int + 1, 10_000_000);
    }
    let cos1 = fx_mul(dir.x, 10_000_000) + fx_mul(dir.y, 10_000_000);
    let phase_val = c.phase(cos1);
    let sun_pos = Vec3 { x: 10_000_000, y: 10_000_000, z: 0 };
    let (t, e) = march(c, entry, dir, step, sun_pos, phase_val, n, inside);
    compose(c, dir, t, e)
}

/// One line segment of the reference geometry, in world space.
#[derive(Clone, Copy, Debug, PartialEq, Eq, Structural)]
pub struct Segment {
    pub a: Vec3,
    pub b: Vec3,
}

/// The dashed wireframe of a box: its twelve edges as world-space segments,
/// in the fixed edge order.
pub fn wireframe_segments(bb: &BoundingBox) -> (r: Vec<Segment>)
    ensures
        r@.len() == 12,
        forall|i: int|
            0 <= i < 12 ==> {
                let cs = seq![
                    Vec3 { x: bb.min.x, y: bb.min.y, z: bb.min.z },
                    Vec3 { x: bb.max.x, y: bb.min.y, z: bb.min.z },
                    Vec3 { x: bb.min.x, y: bb.min.y, z: bb.max.z },
                    Vec3 { x: bb.max.x, y: bb.max.y, z: bb.min.z },
                    Vec3 { x: bb.min.x, y: bb.max.y, z: bb.min.z },
                    Vec3 { x: bb.max.x, y: bb.min.y, z: bb.max.z },
                    Vec3 { x: bb.min.x, y: bb.max.y, z: bb.max.z },
                    Vec3 { x: bb.max.x, y: bb.max.y, z: bb.max.z },
                ];
                let es = seq![
                    (0int, 1int),
                    (1int, 5int),
                    (5int, 4int),
                    (4int, 0int),
                    (2int, 3int),
                    (3int, 7int),
                    (7int, 6int),
                    (6int, 2int),
                    (0int, 2int),
                    (1int, 3int),
                    (4int, 6int),
                    (5int, 7int),
                ];
                #[trigger] r@[i] == (Segment { a: cs[es[i].0], b: cs[es[i].1] })
            },
{
    let corners = bb.corners();
    let edges = bb.edges();
    let mut out: Vec<Segment> = Vec::new();
    let mut i: usize = 0;
    while i < 12
        invariant
            out@.len() == i,
            i <= 12,
            corners@ == seq![
                Vec3 { x: bb.min.x, y: bb.min.y, z: bb.min.z },
                Vec3 { x: bb.max.x, y: bb.min.y, z: bb.min.z },
                Vec3 { x: bb.min.x, y: bb.min.y, z: bb.max.z },
                Vec3 { x: bb.max.x, y: bb.max.y, z: bb.min.z },
                Vec3 { x: bb.min.x, y: bb.max.y, z: bb.min.z },
                Vec3 { x: bb.max.x, y: bb.min.y, z: bb.max.z },
                Vec3 { x: bb.min.x, y: bb.max.y, z: bb.max.z },
                Vec3 { x: bb.max.x, y: bb.max.y, z: bb.max.z },
            ],
            edges@ == seq![
                (0usize, 1usize),
                (1usize, 5usize),
                (5usize, 4usize),
                (4usize, 0usize),
                (2usize, 3usize),
                (3usize, 7usize),
                (7usize, 6usize),
                (6usize, 2usize),
                (0usize, 2usize),
                (1usize, 3usize),
                (4usize, 6usize),
                (5usize, 7usize),
            ],
            forall|k: int|
                0 <= k < i ==> #[trigger] out@[k] == (Segment {
                    a: corners@[edges@[k].0 as int],
                    b: corners@[edges@[k].1 as int],
                }),
        decreases 12 - i,
    {
        let (e0, e1) = edges[i];
        out.push(Segment { a: corners[e0], b: corners[e1] });
        i = i + 1;
    }
    out
}

} // verus!

verus! {

impl Grid {
    /// A drawable grid: a positive subdivision count and a bounded scale.
    pub open spec fn wf(self) -> bool {
        &&& 1 <= self.k <= 1_000
        &&& mag(self.scale as int) <= COORD_LIMIT as int
    }
}

/// The endpoints of one line of the ground grid: first the lines running
/// along the first axis, then the lines running along the third, then the
/// three colored axes.
pub open spec fn grid_line_spec(g: Grid, t: int) -> Segment {
    let m = 2 * g.k as int + 1;
    if t < m {
        let off = fx_mul_spec(fx_div_floor_spec(t - g.k as int, g.k as int), g.scale as int);
        Segment {
            a: Vec3 { x: (-(g.scale as int)) as i64, y: 0i64, z: off as i64 },
            b: Vec3 { x: g.scale, y: 0i64, z: off as i64 },
        }
    } else if t < 2 * m {
        let off = fx_mul_spec(fx_div_floor_spec(t - m - g.k as int, g.k as int), g.scale as int);
        Segment {
            a: Vec3 { x: off as i64, y: 0i64, z: (-(g.scale as int)) as i64 },
            b: Vec3 { x: off as i64, y: 0i64, z: g.scale },
        }
    } else if t == 2 * m {
        Segment { a: Vec3 { x: 0i64, y: 0i64, z: 0i64 }, b: Vec3 { x: 0i64, y: g.scale, z: 0i64 } }
    } else if t == 2 * m + 1 {
        Segment { a: Vec3 { x: 0i64, y: 0i64, z: 0i64 }, b: Vec3 { x: 0i64, y: 0i64, z: g.scale } }
    } else {
        Segment { a: Vec3 { x: 0i64, y: 0i64, z: 0i64 }, b: Vec3 { x: g.scale, y: 0i64, z: 0i64 } }
    }
}

/// One line of the grid.
fn grid_line(g: &Grid, t: i64) -> (r: Segment)
    requires
        g.wf(),
        0 <= t < 2 * (2 * g.k + 1) + 3,
    ensures
        r == grid_line_spec(*g, t as int),
{
    let m: i64 = 2 * g.k + 1;
    proof {
        lemma_div_floor_in_range((t - g.k) * (FX_ONE as int), g.k as int);
        lemma_div_floor_in_range((t - m - g.k) * (FX_ONE as int), g.k as int);
        assert(mag((t - g.k) * (FX_ONE as int)) <= 4_003_000_000) by (nonlinear_arith)
            requires
                -2_001 <= t - g.k <= 4_003,
        ;
        assert(mag((t - m - g.k) * (FX_ONE as int)) <= 4_003_000_000) by (nonlinear_arith)
            requires
                -4_003 <= t - m - g.k <= 4_003,
        ;
    }
    if t < m {
        proof {
            lemma_fx_mul_cap(
                fx_div_floor_spec(t as int - g.k as int, g.k as int),
                g.scale as int,
                4_003_000_001,
                COORD_LIMIT as int,
            );
        }
        let off = fx_mul(fx_div_floor(t - g.k, g.k), g.scale);
        Segment {
            a: Vec3 { x: -g.scale, y: 0, z: off },
            b: Vec3 { x: g.scale, y: 0, z: off },
        }
    } else if t < 2 * m {
        proof {
            lemma_fx_mul_cap(
                fx_div_floor_spec(t as int - m as int - g.k as int, g.k as int),
                g.scale as int,
                4_003_000_001,
                COORD_LIMIT as int,
            );
        }
        let off = fx_mul(fx_div_floor(t - m - g.k, g.k), g.scale);
        Segment {
            a: Vec3 { x: off, y: 0, z: -g.scale },
            b: Vec3 { x: off, y: 0, z: g.scale },
        }
    } else if t == 2 * m {
        Segment { a: Vec3 { x: 0, y: 0, z: 0 }, b: Vec3 { x: 0, y: g.scale, z: 0 } }
    } else if t == 2 * m + 1 {
        Segment { a: Vec3 { x: 0, y: 0, z: 0 }, b: Vec3 { x: 0, y: 0, z: g.scale } }
    } else {
        Segment { a: Vec3 { x: 0, y: 0, z: 0 }, b: Vec3 { x: g.scale, y: 0, z: 0 } }
    }
}

/// All lines of the ground grid and its three axes, in drawing order.
pub fn grid_lines(g: &Grid) -> (r: Vec<Segment>)
    requires
        g.wf(),
    ensures
        r@.len() == 2 * (2 * g.k + 1) + 3,
        forall|t: int| 0 <= t < r@.len() ==> #[trigger] r@[t] == grid_line_spec(*g, t),
{
    let total: i64 = 2 * (2 * g.k + 1) + 3;
    let mut out: Vec<Segment> = Vec::new();
    let mut t: i64 = 0;
    while t < total
        invariant
            g.wf(),
            total == 2 * (2 * g.k + 1) + 3,
            0 <= t <= total,
            out@.len() == t,
            forall|u: int| 0 <= u < t ==> #[trigger] out@[u] == grid_line_spec(*g, u),
        decreases total - t,
    {
        let seg = grid_line(g, t);
        out.push(seg);
        t = t + 1;
    }
    out
}

} // verus!
