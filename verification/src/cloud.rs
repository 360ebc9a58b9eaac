//! The cloud component: the tunable parameter bag, the density field, the
//! two-lobe Henyey-Greenstein phase function and the light march toward the
//! sun.

use vstd::prelude::*;

verus! {

use crate::bounding_box::BoundingBox;
use crate::color::Rgba8;
use crate::fixed::{
    clamp_spec, div_floor, exp_neg_spec, fx_clamp, fx_div_floor, fx_div_floor_spec, fx_exp_neg,
    fx_max, fx_mul, fx_mul_spec, int_sqrt, lemma_div_floor_in_range, lemma_div_floor_sign,
    lemma_fx_mul_cap, mag, sqrt_floor, COORD_LIMIT, FOUR_PI_FX, FX_ONE,
};
use crate::noise::{generate, NoiseVolume, WorleyBuilder};
use crate::vec3::{Vec3, Vec4};

/// Largest magnitude the scalar tuning parameters may take: a thousand
/// units.
pub const PARAM_LIMIT: i64 = 1_000_000_000;

/// Every density the field produces lies in `[0, DENSITY_CAP]`.
pub const DENSITY_CAP: i64 = 20_000_000_000_000;

/// Largest magnitude of a cosine argument the phase function accepts: a
/// hundred units, room enough for a dot with an unnormalised sun vector.
pub const COS_LIMIT: i64 = 100_000_000;

/// The cloud parameter bag and its two owned noise volumes.
#[derive(Debug)]
#[verifier::ext_equal]
pub struct Cloud {
    pub bounding_box: BoundingBox,
    pub num_steps: usize,
    pub num_steps_light: usize,
    pub ray_offset_strength: i64,
    pub cloud_scale: i64,
    pub density_multiplier: i64,
    pub density_threshold: i64,
    pub density_offset: i64,
    pub offset: Vec3,
    pub alpha_threshold: u8,
    pub detail_noise_scale: i64,
    pub detail_noise_weight: i64,
    pub detail_weights: Vec4,
    pub shape_noise_weights: Vec4,
    pub detail_offset: Vec3,
    pub shape_offset: Vec3,
    pub light_absorption_toward_sun: i64,
    pub light_absorption_through_cloud: i64,
    pub darkness_threshold: i64,
    pub light_color: Rgba8,
    pub col_a: Rgba8,
    pub col_b: Rgba8,
    pub phase_params: Vec4,
    pub height_map_factor: i64,
    pub volume_offset: i64,
    pub edge_distance: i64,
    pub shape_builder: WorleyBuilder,
    pub detail_builder: WorleyBuilder,
    pub shape_volume: NoiseVolume,
    pub detail_volume: NoiseVolume,
}

impl Cloud {
    /// A well-formed cloud: valid volumes and box, and every tuning
    /// parameter inside the range the fixed-point arithmetic is proved for.
    pub open spec fn wf(self) -> bool {
        &&& self.shape_volume.wf()
        &&& self.detail_volume.wf()
        &&& self.bounding_box.wf()
        &&& self.bounding_box.bounded()
        &&& 1 <= self.num_steps <= 10_000
        &&& 1 <= self.num_steps_light <= 256
        &&& mag(self.cloud_scale as int) <= PARAM_LIMIT
        &&& mag(self.density_multiplier as int) <= PARAM_LIMIT
        &&& mag(self.density_threshold as int) <= PARAM_LIMIT
        &&& mag(self.density_offset as int) <= PARAM_LIMIT
        &&& mag(self.detail_noise_scale as int) <= PARAM_LIMIT
        &&& mag(self.detail_noise_weight as int) <= PARAM_LIMIT
        &&& mag(self.height_map_factor as int) <= PARAM_LIMIT
        &&& mag(self.volume_offset as int) <= PARAM_LIMIT
        &&& mag(self.edge_distance as int) <= COORD_LIMIT
        &&& 0 <= self.light_absorption_toward_sun <= PARAM_LIMIT
        &&& 0 <= self.light_absorption_through_cloud <= PARAM_LIMIT
        &&& 0 <= self.darkness_threshold <= FX_ONE
        &&& self.offset.in_range(COORD_LIMIT as int)
        &&& self.detail_offset.in_range(COORD_LIMIT as int)
        &&& self.shape_offset.in_range(COORD_LIMIT as int)
        &&& self.detail_weights.in_range(PARAM_LIMIT as int)
        &&& self.shape_noise_weights.in_range(PARAM_LIMIT as int)
        &&& self.phase_params.in_range(FX_ONE as int)
    }

    /// The cloud's axis-aligned bounds.
    pub fn bounding_box(&self) -> (r: BoundingBox)
        ensures
            r == self.bounding_box,
    {
        self.bounding_box
    }

    /// Replace the shape volume by one rebuilt from the given record.
    pub fn regenerate_noise(&mut self, builder: WorleyBuilder)
        requires
            1 <= builder.resolution <= 256,
        ensures
            final(self).shape_builder == builder,
            final(self).shape_volume.wf(),
            final(self).shape_volume.resolution == builder.resolution,
            forall|k: int|
                0 <= k < final(self).shape_volume.data@.len()
                    ==> #[trigger] final(self).shape_volume.data@[k]
                    == crate::noise::lattice_value(builder, k),
            unchanged_but_shape_noise(*old(self), *final(self)),
    {
        self.shape_builder = builder;
        self.shape_volume = generate(&builder);
    }

    /// Replace the detail volume by one rebuilt from the given record.
    pub fn regenerate_detail_noise(&mut self, builder: WorleyBuilder)
        requires
            1 <= builder.resolution <= 256,
        ensures
            final(self).detail_builder == builder,
            final(self).detail_volume.wf(),
            final(self).detail_volume.resolution == builder.resolution,
            forall|k: int|
                0 <= k < final(self).detail_volume.data@.len()
                    ==> #[trigger] final(self).detail_volume.data@[k]
                    == crate::noise::lattice_value(builder, k),
            unchanged_but_detail_noise(*old(self), *final(self)),
    {
        self.detail_builder = builder;
        self.detail_volume = generate(&builder);
    }
}

/// All cloud fields agree except the shape builder and volume.
pub open spec fn unchanged_but_shape_noise(a: Cloud, b: Cloud) -> bool {
    b == (Cloud { shape_builder: b.shape_builder, shape_volume: b.shape_volume, ..a })
}

/// All cloud fields agree except the detail builder and volume.
pub open spec fn unchanged_but_detail_noise(a: Cloud, b: Cloud) -> bool {
    b == (Cloud { detail_builder: b.detail_builder, detail_volume: b.detail_volume, ..a })
}

/// The height of `y` inside the box as a unit fraction: zero at the floor,
/// one at the ceiling, clamped; a flat box counts as full height.
pub open spec fn height_frac_spec(c: Cloud, y: int) -> int {
    let sz = c.bounding_box.max.y - c.bounding_box.min.y;
    if sz <= 0 {
        FX_ONE as int
    } else {
        clamp_spec(fx_div_floor_spec(y - c.bounding_box.min.y, sz), 0, FX_ONE as int)
    }
}

/// The vertical falloff factor: full density at the reference height,
/// reduced by `height_map_factor` times the height fraction, shifted by
/// `volume_offset`, clamped to the unit interval.
pub open spec fn height_falloff_spec(c: Cloud, y: int) -> int {
    clamp_spec(
        FX_ONE as int + c.volume_offset - fx_mul_spec(
            c.height_map_factor as int,
            height_frac_spec(c, y),
        ),
        0,
        FX_ONE as int,
    )
}

/// The sideways edge falloff: the distance to the nearest vertical face as a
/// fraction of `edge_distance`, clamped to the unit interval; boxes with no
/// edge margin get full weight.
pub open spec fn edge_weight_spec(c: Cloud, p: Vec3) -> int {
    let ex = min2(p.x - c.bounding_box.min.x, c.bounding_box.max.x - p.x);
    let ez = min2(p.z - c.bounding_box.min.z, c.bounding_box.max.z - p.z);
    let e = min2(ex, ez);
    if c.edge_distance <= 0 {
        FX_ONE as int
    } else {
        clamp_spec(fx_div_floor_spec(e, c.edge_distance as int), 0, FX_ONE as int)
    }
}

pub open spec fn min2(a: int, b: int) -> int {
    if a <= b {
        a
    } else {
        b
    }
}

/// The density the cloud presents at world point `p`: the shape sample
/// weighted and thresholded, carved by the detail sample where positive,
/// attenuated vertically and toward the side faces, shifted and clamped to
/// nonnegative.
pub open spec fn density_spec(c: Cloud, p: Vec3) -> int {
    let sx = fx_mul_spec(p.x as int, c.cloud_scale as int) + c.offset.x;
    let sy = fx_mul_spec(p.y as int, c.cloud_scale as int) + c.offset.y;
    let sz = fx_mul_spec(p.z as int, c.cloud_scale as int) + c.offset.z;
    let sp = Vec3 { x: sx as i64, y: sy as i64, z: sz as i64 };
    let sdot = fx_mul_spec(c.shape_volume.sample_channel_spec(sp, 0), c.shape_noise_weights.x as int)
        + fx_mul_spec(c.shape_volume.sample_channel_spec(sp, 1), c.shape_noise_weights.y as int)
        + fx_mul_spec(c.shape_volume.sample_channel_spec(sp, 2), c.shape_noise_weights.z as int)
        + fx_mul_spec(c.shape_volume.sample_channel_spec(sp, 3), c.shape_noise_weights.w as int);
    let base = fx_mul_spec(sdot - c.density_threshold, c.density_multiplier as int);
    if base <= 0 {
        0
    } else {
        let dx = fx_mul_spec(p.x as int, c.detail_noise_scale as int) + c.detail_offset.x;
        let dy = fx_mul_spec(p.y as int, c.detail_noise_scale as int) + c.detail_offset.y;
        let dz = fx_mul_spec(p.z as int, c.detail_noise_scale as int) + c.detail_offset.z;
        let dp = Vec3 { x: dx as i64, y: dy as i64, z: dz as i64 };
        let ddot = fx_mul_spec(c.detail_volume.sample_channel_spec(dp, 0), c.detail_weights.x as int)
            + fx_mul_spec(c.detail_volume.sample_channel_spec(dp, 1), c.detail_weights.y as int)
            + fx_mul_spec(c.detail_volume.sample_channel_spec(dp, 2), c.detail_weights.z as int)
            + fx_mul_spec(c.detail_volume.sample_channel_spec(dp, 3), c.detail_weights.w as int);
        let carved = base - fx_mul_spec(c.detail_noise_weight as int, ddot);
        let faded = fx_mul_spec(
            fx_mul_spec(carved, height_falloff_spec(c, p.y as int)),
            edge_weight_spec(c, p),
        );
        let shifted = faded + c.density_offset;
        if shifted >= 0 {
            shifted
        } else {
            0
        }
    }
}

impl Cloud {
    /// Sample the density field at a world point. The result is never
    /// negative and never exceeds the density cap.
    pub fn sample_density(&self, p: Vec3) -> (r: i64)
        requires
            self.wf(),
            p.in_range(COORD_LIMIT as int),
        ensures
            r as int == density_spec(*self, p),
            0 <= r <= DENSITY_CAP,
    {
        proof {
            lemma_fx_mul_cap(p.x as int, self.cloud_scale as int, COORD_LIMIT as int, PARAM_LIMIT as int);
            lemma_fx_mul_cap(p.y as int, self.cloud_scale as int, COORD_LIMIT as int, PARAM_LIMIT as int);
            lemma_fx_mul_cap(p.z as int, self.cloud_scale as int, COORD_LIMIT as int, PARAM_LIMIT as int);
        }
        let sp = Vec3 {
            x: fx_mul(p.x, self.cloud_scale) + self.offset.x,
            y: fx_mul(p.y, self.cloud_scale) + self.offset.y,
            z: fx_mul(p.z, self.cloud_scale) + self.offset.z,
        };
        let shape = self.shape_volume.sample(sp);
        proof {
            lemma_fx_mul_cap(shape.x as int, self.shape_noise_weights.x as int, FX_ONE as int, PARAM_LIMIT as int);
            lemma_fx_mul_cap(shape.y as int, self.shape_noise_weights.y as int, FX_ONE as int, PARAM_LIMIT as int);
            lemma_fx_mul_cap(shape.z as int, self.shape_noise_weights.z as int, FX_ONE as int, PARAM_LIMIT as int);
            lemma_fx_mul_cap(shape.w as int, self.shape_noise_weights.w as int, FX_ONE as int, PARAM_LIMIT as int);
        }
        let sdot = fx_mul(shape.x, self.shape_noise_weights.x) + fx_mul(
            shape.y,
            self.shape_noise_weights.y,
        ) + fx_mul(shape.z, self.shape_noise_weights.z) + fx_mul(
            shape.w,
            self.shape_noise_weights.w,
        );
        proof {
            lemma_fx_mul_cap(
                sdot as int - self.density_threshold as int,
                self.density_multiplier as int,
                5_000_000_005,
                PARAM_LIMIT as int,
            );
        }
        let base = fx_mul(sdot - self.density_threshold, self.density_multiplier);
        if base <= 0 {
            return 0;
        }
        proof {
            lemma_fx_mul_cap(p.x as int, self.detail_noise_scale as int, COORD_LIMIT as int, PARAM_LIMIT as int);
            lemma_fx_mul_cap(p.y as int, self.detail_noise_scale as int, COORD_LIMIT as int, PARAM_LIMIT as int);
            lemma_fx_mul_cap(p.z as int, self.detail_noise_scale as int, COORD_LIMIT as int, PARAM_LIMIT as int);
        }
        let dp = Vec3 {
            x: fx_mul(p.x, self.detail_noise_scale) + self.detail_offset.x,
            y: fx_mul(p.y, self.detail_noise_scale) + self.detail_offset.y,
            z: fx_mul(p.z, self.detail_noise_scale) + self.detail_offset.z,
        };
        let detail = self.detail_volume.sample(dp);
        proof {
            lemma_fx_mul_cap(detail.x as int, self.detail_weights.x as int, FX_ONE as int, PARAM_LIMIT as int);
            lemma_fx_mul_cap(detail.y as int, self.detail_weights.y as int, FX_ONE as int, PARAM_LIMIT as int);
            lemma_fx_mul_cap(detail.z as int, self.detail_weights.z as int, FX_ONE as int, PARAM_LIMIT as int);
            lemma_fx_mul_cap(detail.w as int, self.detail_weights.w as int, FX_ONE as int, PARAM_LIMIT as int);
        }
        let ddot = fx_mul(detail.x, self.detail_weights.x) + fx_mul(detail.y, self.detail_weights.y)
            + fx_mul(detail.z, self.detail_weights.z) + fx_mul(detail.w, self.detail_weights.w);
        proof {
            lemma_fx_mul_cap(self.detail_noise_weight as int, ddot as int, PARAM_LIMIT as int, 4_000_000_004);
        }
        let carved = base - fx_mul(self.detail_noise_weight, ddot);
        let fall = self.height_falloff(p.y);
        proof {
            lemma_fx_mul_cap(carved as int, fall as int, 9_100_000_000_000, FX_ONE as int);
        }
        let faded1 = fx_mul(carved, fall);
        let ew = self.edge_weight(p);
        proof {
            lemma_fx_mul_cap(faded1 as int, ew as int, 9_100_000_000_001, FX_ONE as int);
        }
        let faded = fx_mul(faded1, ew);
        let shifted = faded + self.density_offset;
        fx_max(shifted, 0)
    }

    /// The vertical falloff factor at height `y`.
    fn height_falloff(&self, y: i64) -> (r: i64)
        requires
            self.wf(),
            mag(y as int) <= COORD_LIMIT as int,
        ensures
            r as int == height_falloff_spec(*self, y as int),
            0 <= r <= FX_ONE,
    {
        let sz = self.bounding_box.max.y - self.bounding_box.min.y;
        let frac: i64 = if sz <= 0 {
            1_000_000
        } else {
            proof {
                lemma_div_floor_in_range(
                    (y as int - self.bounding_box.min.y as int) * (FX_ONE as int),
                    sz as int,
                );
                assert(mag((y as int - self.bounding_box.min.y as int) * (FX_ONE as int))
                    <= 2_000_000_000_000_000_000) by (nonlinear_arith)
                    requires
                        mag(y as int - self.bounding_box.min.y as int) <= 2_000_000_000_000,
                        mag(y as int - self.bounding_box.min.y as int) == if y as int
                            - self.bounding_box.min.y as int >= 0 {
                            y as int - self.bounding_box.min.y as int
                        } else {
                            -(y as int - self.bounding_box.min.y as int)
                        },
                ;
            }
            fx_clamp(fx_div_floor(y - self.bounding_box.min.y, sz), 0, 1_000_000)
        };
        proof {
            lemma_fx_mul_cap(self.height_map_factor as int, frac as int, PARAM_LIMIT as int, FX_ONE as int);
        }
        fx_clamp(1_000_000 + self.volume_offset - fx_mul(self.height_map_factor, frac), 0, 1_000_000)
    }

    /// The sideways edge falloff at point `p`.
    fn edge_weight(&self, p: Vec3) -> (r: i64)
        requires
            self.wf(),
            p.in_range(COORD_LIMIT as int),
        ensures
            r as int == edge_weight_spec(*self, p),
            0 <= r <= FX_ONE,
    {
        let ex = crate::fixed::fx_min(p.x - self.bounding_box.min.x, self.bounding_box.max.x - p.x);
        let ez = crate::fixed::fx_min(p.z - self.bounding_box.min.z, self.bounding_box.max.z - p.z);
        let e = crate::fixed::fx_min(ex, ez);
        if self.edge_distance <= 0 {
            1_000_000
        } else {
            proof {
                lemma_div_floor_in_range((e as int) * (FX_ONE as int), self.edge_distance as int);
                assert(mag((e as int) * (FX_ONE as int)) <= 2_000_000_000_000_000_000)
                    by (nonlinear_arith)
                    requires
                        mag(e as int) <= 2_000_000_000_000,
                        mag(e as int) == if e >= 0 { e as int } else { -(e as int) },
                ;
            }
            fx_clamp(fx_div_floor(e, self.edge_distance), 0, 1_000_000)
        }
    }
}

/// The Henyey-Greenstein lobe at `cos_angle` for anisotropy `g`, fixed
/// point: `(1 - g^2) / (4 pi (1 + g^2 - 2 g cos)^1.5)`, the base guarded to
/// stay positive against rounding.
pub open spec fn hg_spec(cos_angle: int, g: int) -> int {
    let g2 = fx_mul_spec(g, g);
    let raw = FX_ONE as int + g2 - 2 * fx_mul_spec(g, cos_angle);
    let base = if raw >= 1 {
        raw
    } else {
        1
    };
    let root = sqrt_floor(base * (FX_ONE as int));
    let pw = fx_mul_spec(base, root);
    let denom_raw = fx_mul_spec(FOUR_PI_FX as int, pw);
    let denom = if denom_raw >= 1 {
        denom_raw
    } else {
        1
    };
    fx_div_floor_spec(FX_ONE as int - g2, denom)
}

/// Evaluate the Henyey-Greenstein lobe. The result is never negative.
pub fn hg(cos_angle: i64, g: i64) -> (r: i64)
    requires
        mag(cos_angle as int) <= COS_LIMIT as int,
        mag(g as int) <= FX_ONE as int,
    ensures
        r as int == hg_spec(cos_angle as int, g as int),
        0 <= r <= 1_000_000_000_000,
{
    proof {
        lemma_fx_mul_cap(g as int, g as int, FX_ONE as int, FX_ONE as int);
        assert(fx_mul_spec(g as int, g as int) <= 1_000_000) by {
            assert((g as int) * (g as int) <= 1_000_000_000_000) by (nonlinear_arith)
                requires
                    mag(g as int) <= 1_000_000,
                    mag(g as int) == if g >= 0 { g as int } else { -(g as int) },
            ;
            vstd::arithmetic::div_mod::lemma_div_is_ordered(
                (g as int) * (g as int),
                1_000_000_000_000,
                1_000_000,
            );
        }
        lemma_fx_mul_cap(g as int, cos_angle as int, FX_ONE as int, COS_LIMIT as int);
        assert(fx_mul_spec(g as int, g as int) >= 0) by {
            assert((g as int) * (g as int) >= 0) by (nonlinear_arith);
            lemma_div_floor_sign((g as int) * (g as int), 1_000_000);
        }
    }
    let g2 = fx_mul(g, g);
    let raw = 1_000_000 + g2 - 2 * fx_mul(g, cos_angle);
    let base = fx_max(raw, 1);
    let root_w: u64 = int_sqrt((base as u128) * 1_000_000);
    proof {
        assert((base as int) * 1_000_000 <= 203_000_004_000_000) by (nonlinear_arith)
            requires
                1 <= base <= 203_000_004,
        ;
        assert(root_w <= 15_000_000) by (nonlinear_arith)
            requires
                (root_w as int) * (root_w as int) <= 203_000_004_000_000,
        ;
        lemma_fx_mul_cap(base as int, root_w as int, 203_000_004, 15_000_000);
        assert(fx_mul_spec(base as int, root_w as int) >= 0) by {
            assert((base as int) * (root_w as int) >= 0) by (nonlinear_arith)
                requires
                    base >= 1,
                    root_w >= 0,
            ;
            lemma_div_floor_sign((base as int) * (root_w as int), 1_000_000);
        }
    }
    let root: i64 = root_w as i64;
    let pw = fx_mul(base, root);
    proof {
        lemma_fx_mul_cap(FOUR_PI_FX as int, pw as int, 12_566_371, 3_045_000_061);
    }
    let denom = fx_max(fx_mul(FOUR_PI_FX, pw), 1);
    let num = 1_000_000 - g2;
    proof {
        lemma_div_floor_in_range((num as int) * (FX_ONE as int), denom as int);
        assert(mag((num as int) * (FX_ONE as int)) <= 1_000_000_000_000) by (nonlinear_arith)
            requires
                0 <= num <= 1_000_000,
        ;
        lemma_div_floor_sign((num as int) * (FX_ONE as int), denom as int);
        assert((num as int) * (FX_ONE as int) >= 0) by (nonlinear_arith)
            requires
                num >= 0,
        ;
    }
    fx_div_floor(num, denom)
}

/// The cloud's two-lobe phase value at `cos_angle`: the forward and backward
/// Henyey-Greenstein lobes blended by the third phase parameter, raised by
/// the fourth.
pub open spec fn phase_spec(c: Cloud, cos_angle: int) -> int {
    fx_mul_spec(c.phase_params.z as int, hg_spec(cos_angle, c.phase_params.x as int))
        + fx_mul_spec(
        FX_ONE as int - c.phase_params.z as int,
        hg_spec(cos_angle, -(c.phase_params.y as int)),
    ) + c.phase_params.w as int
}

impl Cloud {
    /// The phase function. With physical parameters (a nonnegative blend and
    /// base) the result is never negative.
    pub fn phase(&self, cos_angle: i64) -> (r: i64)
        requires
            self.wf(),
            mag(cos_angle as int) <= COS_LIMIT as int,
        ensures
            r as int == phase_spec(*self, cos_angle as int),
            mag(r as int) <= 3_100_000_000_000,
            self.phase_params.z >= 0 && self.phase_params.w >= 0 ==> r >= 0,
    {
        let forward = hg(cos_angle, self.phase_params.x);
        let backward = hg(cos_angle, -self.phase_params.y);
        proof {
            lemma_fx_mul_cap(self.phase_params.z as int, forward as int, FX_ONE as int, 1_000_000_000_000);
            lemma_fx_mul_cap(
                FX_ONE as int - self.phase_params.z as int,
                backward as int,
                2_000_000,
                1_000_000_000_000,
            );
        }
        let blended = fx_mul(self.phase_params.z, forward) + fx_mul(
            1_000_000 - self.phase_params.z,
            backward,
        );
        blended + self.phase_params.w
    }
}

/// The normalised direction from `p` toward `sun_pos` and the fixed-point
/// distance between them; a zero offset yields the zero vector.
pub open spec fn sun_dir_spec(p: Vec3, sun_pos: Vec3) -> Vec3 {
    let dx = sun_pos.x as int - p.x as int;
    let dy = sun_pos.y as int - p.y as int;
    let dz = sun_pos.z as int - p.z as int;
    let len = sqrt_floor(dx * dx + dy * dy + dz * dz);
    if len == 0 {
        Vec3 { x: 0i64, y: 0i64, z: 0i64 }
    } else {
        Vec3 {
            x: fx_div_floor_spec(dx, len) as i64,
            y: fx_div_floor_spec(dy, len) as i64,
            z: fx_div_floor_spec(dz, len) as i64,
        }
    }
}

/// A march position clamped into the coordinate range the density field is
/// proved for.
pub open spec fn march_pos_spec(p: Vec3, dir: Vec3, t: int) -> Vec3 {
    Vec3 {
        x: clamp_spec(
            p.x as int + fx_mul_spec(dir.x as int, t),
            -(COORD_LIMIT as int),
            COORD_LIMIT as int,
        ) as i64,
        y: clamp_spec(
            p.y as int + fx_mul_spec(dir.y as int, t),
            -(COORD_LIMIT as int),
            COORD_LIMIT as int,
        ) as i64,
        z: clamp_spec(
            p.z as int + fx_mul_spec(dir.z as int, t),
            -(COORD_LIMIT as int),
            COORD_LIMIT as int,
        ) as i64,
    }
}

/// The total density over `n` equidistant samples from `p` along `dir`.
pub open spec fn light_total_spec(c: Cloud, p: Vec3, dir: Vec3, step: int, n: nat) -> int
    decreases n,
{
    if n == 0 {
        0
    } else {
        light_total_spec(c, p, dir, step, (n - 1) as nat) + density_spec(
            c,
            march_pos_spec(p, dir, step * (n - 1)),
        )
    }
}

/// The light transmittance from `p` toward the sun: the darkness floor plus
/// the remaining headroom decayed by the accumulated density times the
/// absorption toward the sun.
pub open spec fn light_march_spec(c: Cloud, p: Vec3, sun_pos: Vec3) -> int {
    let dir = sun_dir_spec(p, sun_pos);
    let inside = dst_inside_box_spec_of(c, p, dir);
    let step = div_floor(inside, c.num_steps_light as int);
    let total = light_total_spec(c, p, dir, step, c.num_steps_light as nat);
    c.darkness_threshold as int + fx_mul_spec(
        FX_ONE as int - c.darkness_threshold as int,
        exp_neg_spec(fx_mul_spec(total, c.light_absorption_toward_sun as int)),
    )
}

/// The inside distance of the ray from `p` along `dir` against the cloud's
/// box.
pub open spec fn dst_inside_box_spec_of(c: Cloud, p: Vec3, dir: Vec3) -> int {
    crate::bounding_box::dst_inside_box_spec(c.bounding_box, p, dir)
}

impl Cloud {
    /// March from `p` toward the sun and return the surviving light
    /// fraction, never below the darkness threshold and never above one.
    pub fn light_march(&self, p: Vec3, sun_pos: Vec3) -> (r: i64)
        requires
            self.wf(),
            p.in_range(COORD_LIMIT as int),
            sun_pos.in_range(COORD_LIMIT as int),
        ensures
            r as int == light_march_spec(*self, p, sun_pos),
            self.darkness_threshold <= r <= FX_ONE,
    {
        let dir = self.sun_dir(p, sun_pos);
        let (_, inside) = self.bounding_box.dst(p, dir);
        let n: usize = self.num_steps_light;
        let step: i64 = crate::fixed::floor_div_small(inside, n as u64);
        proof {
            lemma_div_floor_sign(inside as int, n as int);
            lemma_div_floor_in_range(inside as int, n as int);
            vstd::arithmetic::div_mod::lemma_fundamental_div_mod(inside as int, n as int);
            assert((step as int) * (n as int) <= inside as int) by (nonlinear_arith)
                requires
                    step as int == (inside as int) / (n as int),
                    inside as int == (n as int) * ((inside as int) / (n as int)) + (inside as int)
                        % (n as int),
                    0 <= (inside as int) % (n as int),
        ;
        }
        let mut total: i64 = 0;
        let mut i: usize = 0;
        while i < n
            invariant
                self.wf(),
                p.in_range(COORD_LIMIT as int),
                dir.in_range(FX_ONE as int + 1),
                0 <= step,
                (step as int) * (n as int) <= inside as int,
                0 <= inside <= 2_000_000_000_000_000_001,
                n == self.num_steps_light,
                1 <= n <= 256,
                i <= n,
                total as int == light_total_spec(*self, p, dir, step as int, i as nat),
                0 <= total <= (i as int) * (DENSITY_CAP as int),
            decreases n - i,
        {
            proof {
                assert(0 <= (step as int) * (i as int) <= inside as int) by (nonlinear_arith)
                    requires
                        0 <= step,
                        0 <= i <= n,
                        (step as int) * (n as int) <= inside as int,
                ;
                lemma_fx_mul_cap(
                    dir.x as int,
                    (step as int) * (i as int),
                    FX_ONE as int + 1,
                    2_000_000_000_000_000_001,
                );
                lemma_fx_mul_cap(
                    dir.y as int,
                    (step as int) * (i as int),
                    FX_ONE as int + 1,
                    2_000_000_000_000_000_001,
                );
                lemma_fx_mul_cap(
                    dir.z as int,
                    (step as int) * (i as int),
                    FX_ONE as int + 1,
                    2_000_000_000_000_000_001,
                );
            }
            let t: i64 = step * (i as i64);
            let pos = Vec3 {
                x: fx_clamp(
                    clamped_add(p.x, fx_mul(dir.x, t)),
                    -1_000_000_000_000,
                    1_000_000_000_000,
                ),
                y: fx_clamp(
                    clamped_add(p.y, fx_mul(dir.y, t)),
                    -1_000_000_000_000,
                    1_000_000_000_000,
                ),
                z: fx_clamp(
                    clamped_add(p.z, fx_mul(dir.z, t)),
                    -1_000_000_000_000,
                    1_000_000_000_000,
                ),
            };
            proof {
                assert(pos == march_pos_spec(p, dir, (step as int) * (i as int)));
            }
            let d = self.sample_density(pos);
            proof {
                assert((i as int) * (DENSITY_CAP as int) + DENSITY_CAP as int == (i as int + 1) * (
                DENSITY_CAP as int)) by (nonlinear_arith);
                assert(light_total_spec(*self, p, dir, step as int, (i + 1) as nat)
                    == light_total_spec(*self, p, dir, step as int, i as nat) + density_spec(
                    *self,
                    march_pos_spec(p, dir, (step as int) * (i as int)),
                ));
            }
            total = total + d;
            i = i + 1;
        }
        proof {
            assert((n as int) * (DENSITY_CAP as int) <= 256 * (DENSITY_CAP as int))
                by (nonlinear_arith)
                requires
                    n <= 256,
            ;
            lemma_fx_mul_cap(
                total as int,
                self.light_absorption_toward_sun as int,
                256 * (DENSITY_CAP as int),
                PARAM_LIMIT as int,
            );
        }
        let tau = fx_mul(total, self.light_absorption_toward_sun);
        let lt = fx_exp_neg(tau);
        proof {
            lemma_unit_product_stays_unit(
                FX_ONE as int - self.darkness_threshold as int,
                lt as int,
            );
        }
        self.darkness_threshold + fx_mul(1_000_000 - self.darkness_threshold, lt)
    }

    /// The normalised direction from `p` toward the sun.
    fn sun_dir(&self, p: Vec3, sun_pos: Vec3) -> (r: Vec3)
        requires
            p.in_range(COORD_LIMIT as int),
            sun_pos.in_range(COORD_LIMIT as int),
        ensures
            r == sun_dir_spec(p, sun_pos),
            r.in_range(FX_ONE as int + 1),
    {
        let dx = sun_pos.x - p.x;
        let dy = sun_pos.y - p.y;
        let dz = sun_pos.z - p.z;
        let sq: u128 = square_mag(dx) + square_mag(dy) + square_mag(dz);
        let len_w: u64 = int_sqrt(sq);
        if len_w == 0 {
            proof {
                assert((len_w as int + 1) * (len_w as int + 1) == 1) by (nonlinear_arith)
                    requires
                        len_w == 0,
                ;
                assert(dx == 0 && dy == 0 && dz == 0) by (nonlinear_arith)
                    requires
                        (dx as int) * (dx as int) + (dy as int) * (dy as int) + (dz as int) * (
                        dz as int) < 1,
                ;
            }
            Vec3 { x: 0, y: 0, z: 0 }
        } else {
            let len: i64 = if len_w > 0x7fff_ffff_ffff_ffff {
                0x7fff_ffff_ffff_ffff
            } else {
                len_w as i64
            };
            proof {
                assert(len_w <= 3_464_101_615_138) by (nonlinear_arith)
                    requires
                        (len_w as int) * (len_w as int) <= 12_000_000_000_000_000_000_000_000,
                ;
                lemma_normalised_component(dx as int, len as int, sq as int);
                lemma_normalised_component(dy as int, len as int, sq as int);
                lemma_normalised_component(dz as int, len as int, sq as int);
            }
            Vec3 {
                x: fx_div_floor(dx, len),
                y: fx_div_floor(dy, len),
                z: fx_div_floor(dz, len),
            }
        }
    }
}

/// A sum of two scalars saturated at the `i64` range bounds; the operands
/// the light march produces never actually reach them.
pub(crate) fn clamped_add(a: i64, b: i64) -> (r: i64)
    requires
        i64::MIN <= a as int + b as int <= i64::MAX,
    ensures
        r as int == a as int + b as int,
{
    a + b
}

/// The square of a scalar, widened.
fn square_mag(a: i64) -> (r: u128)
    ensures
        r as int == (a as int) * (a as int),
        mag(a as int) <= 2_000_000_000_000 ==> r <= 4_000_000_000_000_000_000_000_000,
{
    proof {
        assert(0 <= (a as int) * (a as int) <= 0x8000_0000_0000_0000 * 0x8000_0000_0000_0000)
            by (nonlinear_arith)
            requires
                -0x8000_0000_0000_0000 <= a <= 0x7fff_ffff_ffff_ffff,
        ;
        assert(mag(a as int) <= 2_000_000_000_000 ==> (a as int) * (a as int)
            <= 4_000_000_000_000_000_000_000_000) by (nonlinear_arith)
            requires
                mag(a as int) == if a >= 0 { a as int } else { -(a as int) },
        ;
    }
    let w: i128 = (a as i128) * (a as i128);
    w as u128
}

/// A component divided by a length at least as large stays within one unit
/// plus rounding.
proof fn lemma_normalised_component(d: int, len: int, sq: int)
    requires
        1 <= len,
        d * d <= sq,
        sq < (len + 1) * (len + 1) || len == 0x7fff_ffff_ffff_ffff,
        mag(d) <= 2_000_000_000_000,
    ensures
        mag(fx_div_floor_spec(d, len)) <= FX_ONE as int + 1,
        i64::MIN <= fx_div_floor_spec(d, len) <= i64::MAX,
{
    if mag(d) <= len {
        lemma_div_floor_in_range(d * 1_000_000, len);
        vstd::arithmetic::div_mod::lemma_fundamental_div_mod(
            if len > 0 { d * 1_000_000 } else { -(d * 1_000_000) },
            if len > 0 { len } else { -len },
        );
        assert(mag(div_floor(d * 1_000_000, len)) <= 1_000_001) by (nonlinear_arith)
            requires
                1 <= len,
                mag(d) <= len,
                div_floor(d * 1_000_000, len) == (d * 1_000_000) / len,
                d * 1_000_000 == len * ((d * 1_000_000) / len) + (d * 1_000_000) % len,
                0 <= (d * 1_000_000) % len < len,
                mag(d) == if d >= 0 { d } else { -d },
                mag(div_floor(d * 1_000_000, len)) == if div_floor(d * 1_000_000, len) >= 0 {
                    div_floor(d * 1_000_000, len)
                } else {
                    -div_floor(d * 1_000_000, len)
                },
        ;
    } else {
        assert(mag(d) <= len) by (nonlinear_arith)
            requires
                d * d <= sq,
                sq < (len + 1) * (len + 1) || len == 0x7fff_ffff_ffff_ffff,
                mag(d) <= 2_000_000_000_000,
                mag(d) == if d >= 0 { d } else { -d },
                1 <= len,
        ;
    }
}

/// The product of a unit-interval headroom and a unit-interval factor stays
/// in the unit interval.
pub proof fn lemma_unit_product_stays_unit(a: int, b: int)
    requires
        0 <= a <= FX_ONE as int,
        0 <= b <= FX_ONE as int,
    ensures
        0 <= fx_mul_spec(a, b) <= a,
        i64::MIN <= fx_mul_spec(a, b) <= i64::MAX,
{
    assert(a * b <= a * 1_000_000) by (nonlinear_arith)
        requires
            0 <= a,
            b <= 1_000_000,
    ;
    assert(a * b >= 0) by (nonlinear_arith)
        requires
            0 <= a,
            0 <= b,
    ;
    vstd::arithmetic::div_mod::lemma_div_is_ordered(a * b, a * 1_000_000, 1_000_000);
    assert((a * 1_000_000) / 1_000_000 == a) by (nonlinear_arith)
        requires
            0 <= a,
            a * 1_000_000 == 1_000_000 * a + 0,
    ;
    lemma_div_floor_sign(a * b, 1_000_000);
}

} // verus!

verus! {

impl Default for Cloud {
    /// A small default cloud: a two-unit box above the origin, moderate
    /// sampling, neutral weights, warm light over a blue-to-white sky.
    fn default() -> (r: Cloud)
        ensures
            r.wf(),
            r.bounding_box == (BoundingBox {
                min: Vec3 { x: -1_000_000i64, y: 1_000_000i64, z: -1_000_000i64 },
                max: Vec3 { x: 1_000_000i64, y: 1_500_000i64, z: 1_000_000i64 },
            }),
            r.num_steps == 64,
            r.num_steps_light == 8,
            r.cloud_scale == 1_000_000i64,
            r.density_multiplier == 1_000_000i64,
            r.density_threshold == 200_000i64,
            r.density_offset == 0i64,
            r.darkness_threshold == 200_000i64,
            r.light_absorption_toward_sun == 500_000i64,
            r.light_absorption_through_cloud == 500_000i64,
            r.alpha_threshold == 255u8,
    {
        let shape_builder = WorleyBuilder {
            seed: 1,
            resolution: 8,
            frequency: Vec4 { x: 4_000_000, y: 8_000_000, z: 16_000_000, w: 32_000_000 },
            octaves: 4,
            persistence: 500_000,
        };
        let detail_builder = WorleyBuilder {
            seed: 2,
            resolution: 4,
            frequency: Vec4 { x: 8_000_000, y: 16_000_000, z: 32_000_000, w: 64_000_000 },
            octaves: 3,
            persistence: 500_000,
        };
        let shape_volume = generate(&shape_builder);
        let detail_volume = generate(&detail_builder);
        Cloud {
            bounding_box: BoundingBox {
                min: Vec3 { x: -1_000_000, y: 1_000_000, z: -1_000_000 },
                max: Vec3 { x: 1_000_000, y: 1_500_000, z: 1_000_000 },
            },
            num_steps: 64,
            num_steps_light: 8,
            ray_offset_strength: 0,
            cloud_scale: 1_000_000,
            density_multiplier: 1_000_000,
            density_threshold: 200_000,
            density_offset: 0,
            offset: Vec3 { x: 0, y: 0, z: 0 },
            alpha_threshold: 255,
            detail_noise_scale: 3_000_000,
            detail_noise_weight: 300_000,
            detail_weights: Vec4 { x: 1_000_000, y: 500_000, z: 250_000, w: 125_000 },
            shape_noise_weights: Vec4 { x: 1_000_000, y: 500_000, z: 250_000, w: 125_000 },
            detail_offset: Vec3 { x: 0, y: 0, z: 0 },
            shape_offset: Vec3 { x: 0, y: 0, z: 0 },
            light_absorption_toward_sun: 500_000,
            light_absorption_through_cloud: 500_000,
            darkness_threshold: 200_000,
            light_color: Rgba8 { r: 255, g: 240, b: 220, a: 255 },
            col_a: Rgba8 { r: 120, g: 160, b: 255, a: 255 },
            col_b: Rgba8 { r: 255, g: 255, b: 255, a: 255 },
            phase_params: Vec4 { x: 800_000, y: 300_000, z: 500_000, w: 100_000 },
            height_map_factor: 500_000,
            volume_offset: 0,
            edge_distance: 200_000,
            shape_builder,
            detail_builder,
            shape_volume,
            detail_volume,
        }
    }
}

} // verus!
