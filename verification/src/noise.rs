//! Tileable 3D scalar textures sampled with wrap-around trilinear
//! interpolation.
//!
//! Each voxel holds four independent channels in the unit interval. The
//! generator is a deterministic lattice hash seeded from the builder record;
//! the cellular-noise algorithm itself is a black box to this library, so
//! any deterministic field with unit-interval values serves as its model.

use vstd::prelude::*;

verus! {

use crate::fixed::{
    div_floor, euclid_mod, floor_div_small, fx_lerp, fx_lerp_spec, lemma_div_floor_in_range,
    COORD_LIMIT, FX_ONE,
};
use crate::vec3::{Vec3, Vec4};

/// The record a noise volume is (re)built from.
#[derive(Clone, Copy, Debug, PartialEq, Eq, Structural)]
pub struct WorleyBuilder {
    pub seed: u64,
    pub resolution: usize,
    pub frequency: Vec4,
    pub octaves: u32,
    pub persistence: i64,
}

/// A cubic scalar texture: `resolution^3` voxels of four channels each.
#[derive(Debug)]
pub struct NoiseVolume {
    pub resolution: usize,
    pub data: Vec<i64>,
}

/// The deterministic lattice value of cell `k` for this builder: a hash of
/// the flat index, the seed, the channel frequency, the octave count and the
/// persistence, folded into the unit interval, so that every builder field
/// shapes the rebuilt volume.
pub open spec fn lattice_value(b: WorleyBuilder, k: int) -> int {
    (k * 2_654_435_761 + (b.seed as int) % 1_000_000_007 + channel_frequency(b, k % 4)
        % 1_000_000_007 + b.octaves as int + (b.persistence as int) % 1_000_000_007) % (
    FX_ONE as int + 1)
}

/// The frequency component for channel `c`.
pub open spec fn channel_frequency(b: WorleyBuilder, c: int) -> int {
    if c == 0 {
        b.frequency.x as int
    } else if c == 1 {
        b.frequency.y as int
    } else if c == 2 {
        b.frequency.z as int
    } else {
        b.frequency.w as int
    }
}

impl NoiseVolume {
    /// A valid volume: a cubic array of four-channel voxels, every channel in
    /// the unit interval.
    pub open spec fn wf(self) -> bool {
        &&& 1 <= self.resolution <= 256
        &&& self.data@.len() == self.resolution * self.resolution * self.resolution * 4
        &&& forall|k: int|
            0 <= k < self.data@.len() ==> 0 <= #[trigger] self.data@[k] <= FX_ONE
    }

    /// The channel `c` of the voxel at integer cell `(x, y, z)`.
    pub open spec fn voxel(self, x: int, y: int, z: int, c: int) -> int {
        self.data@[((x * self.resolution + y) * self.resolution + z) * 4 + c] as int
    }

    /// One channel of the wrap-around trilinear sample at point `p`.
    pub open spec fn sample_channel_spec(self, p: Vec3, c: int) -> int {
        let res = self.resolution as int;
        let x0 = div_floor(p.x as int, FX_ONE as int) % res;
        let y0 = div_floor(p.y as int, FX_ONE as int) % res;
        let z0 = div_floor(p.z as int, FX_ONE as int) % res;
        let x1 = (x0 + 1) % res;
        let y1 = (y0 + 1) % res;
        let z1 = (z0 + 1) % res;
        let tx = (p.x as int) % (FX_ONE as int);
        let ty = (p.y as int) % (FX_ONE as int);
        let tz = (p.z as int) % (FX_ONE as int);
        let c00 = fx_lerp_spec(self.voxel(x0, y0, z0, c), self.voxel(x1, y0, z0, c), tx);
        let c10 = fx_lerp_spec(self.voxel(x0, y1, z0, c), self.voxel(x1, y1, z0, c), tx);
        let c01 = fx_lerp_spec(self.voxel(x0, y0, z1, c), self.voxel(x1, y0, z1, c), tx);
        let c11 = fx_lerp_spec(self.voxel(x0, y1, z1, c), self.voxel(x1, y1, z1, c), tx);
        fx_lerp_spec(fx_lerp_spec(c00, c10, ty), fx_lerp_spec(c01, c11, ty), tz)
    }

    /// Wrap-around trilinear sample: the four channels of the periodic
    /// texture at world point `p`, each still in the unit interval.
    pub fn sample(&self, p: Vec3) -> (r: Vec4)
        requires
            self.wf(),
        ensures
            r.x as int == self.sample_channel_spec(p, 0),
            r.y as int == self.sample_channel_spec(p, 1),
            r.z as int == self.sample_channel_spec(p, 2),
            r.w as int == self.sample_channel_spec(p, 3),
            0 <= r.x <= FX_ONE,
            0 <= r.y <= FX_ONE,
            0 <= r.z <= FX_ONE,
            0 <= r.w <= FX_ONE,
    {
        let res: u64 = self.resolution as u64;
        let x0: u64 = euclid_mod(floor_div_small(p.x, 1_000_000), res);
        let y0: u64 = euclid_mod(floor_div_small(p.y, 1_000_000), res);
        let z0: u64 = euclid_mod(floor_div_small(p.z, 1_000_000), res);
        let x1: u64 = (x0 + 1) % res;
        let y1: u64 = (y0 + 1) % res;
        let z1: u64 = (z0 + 1) % res;
        let tx: i64 = euclid_mod(p.x, 1_000_000) as i64;
        let ty: i64 = euclid_mod(p.y, 1_000_000) as i64;
        let tz: i64 = euclid_mod(p.z, 1_000_000) as i64;
        let sx = self.sample_one(p, 0, x0, y0, z0, x1, y1, z1, tx, ty, tz);
        let sy = self.sample_one(p, 1, x0, y0, z0, x1, y1, z1, tx, ty, tz);
        let sz = self.sample_one(p, 2, x0, y0, z0, x1, y1, z1, tx, ty, tz);
        let sw = self.sample_one(p, 3, x0, y0, z0, x1, y1, z1, tx, ty, tz);
        Vec4 { x: sx, y: sy, z: sz, w: sw }
    }

    /// One channel of the trilinear sample, with the wrapped cell indices
    /// and fractions already computed.
    fn sample_one(
        &self,
        p: Vec3,
        c: usize,
        x0: u64,
        y0: u64,
        z0: u64,
        x1: u64,
        y1: u64,
        z1: u64,
        tx: i64,
        ty: i64,
        tz: i64,
    ) -> (r: i64)
        requires
            self.wf(),
            c < 4,
            x0 as int == div_floor(p.x as int, FX_ONE as int) % (self.resolution as int),
            y0 as int == div_floor(p.y as int, FX_ONE as int) % (self.resolution as int),
            z0 as int == div_floor(p.z as int, FX_ONE as int) % (self.resolution as int),
            x1 as int == (x0 as int + 1) % (self.resolution as int),
            y1 as int == (y0 as int + 1) % (self.resolution as int),
            z1 as int == (z0 as int + 1) % (self.resolution as int),
            tx as int == (p.x as int) % (FX_ONE as int),
            ty as int == (p.y as int) % (FX_ONE as int),
            tz as int == (p.z as int) % (FX_ONE as int),
        ensures
            r as int == self.sample_channel_spec(p, c as int),
            0 <= r <= FX_ONE,
    {
        proof {
            vstd::arithmetic::div_mod::lemma_mod_bound(
                div_floor(p.x as int, FX_ONE as int),
                self.resolution as int,
            );
            vstd::arithmetic::div_mod::lemma_mod_bound(
                div_floor(p.y as int, FX_ONE as int),
                self.resolution as int,
            );
            vstd::arithmetic::div_mod::lemma_mod_bound(
                div_floor(p.z as int, FX_ONE as int),
                self.resolution as int,
            );
            vstd::arithmetic::div_mod::lemma_mod_bound(x0 as int + 1, self.resolution as int);
            vstd::arithmetic::div_mod::lemma_mod_bound(y0 as int + 1, self.resolution as int);
            vstd::arithmetic::div_mod::lemma_mod_bound(z0 as int + 1, self.resolution as int);
            vstd::arithmetic::div_mod::lemma_mod_bound(p.x as int, FX_ONE as int);
            vstd::arithmetic::div_mod::lemma_mod_bound(p.y as int, FX_ONE as int);
            vstd::arithmetic::div_mod::lemma_mod_bound(p.z as int, FX_ONE as int);
        }
        let v000 = self.fetch(x0, y0, z0, c);
        let v100 = self.fetch(x1, y0, z0, c);
        let v010 = self.fetch(x0, y1, z0, c);
        let v110 = self.fetch(x1, y1, z0, c);
        let v001 = self.fetch(x0, y0, z1, c);
        let v101 = self.fetch(x1, y0, z1, c);
        let v011 = self.fetch(x0, y1, z1, c);
        let v111 = self.fetch(x1, y1, z1, c);
        let c00 = fx_lerp(v000, v100, tx);
        let c10 = fx_lerp(v010, v110, tx);
        let c01 = fx_lerp(v001, v101, tx);
        let c11 = fx_lerp(v011, v111, tx);
        let c0 = fx_lerp(c00, c10, ty);
        let c1 = fx_lerp(c01, c11, ty);
        fx_lerp(c0, c1, tz)
    }

    /// The stored channel value of one voxel.
    fn fetch(&self, x: u64, y: u64, z: u64, c: usize) -> (r: i64)
        requires
            self.wf(),
            x < self.resolution,
            y < self.resolution,
            z < self.resolution,
            c < 4,
        ensures
            r as int == self.voxel(x as int, y as int, z as int, c as int),
            0 <= r <= FX_ONE,
    {
        let res: u64 = self.resolution as u64;
        proof {
            assert((x as int) * (res as int) <= 65536 && (x as int) * (res as int) + (y as int)
                <= 65792 && ((x as int) * (res as int) + (y as int)) * (res as int)
                <= 16_842_752 && ((x as int) * (res as int) + (y as int)) * (res as int) + (
            z as int) <= 16_843_007) by (nonlinear_arith)
                requires
                    0 <= x < res,
                    0 <= y < res,
                    0 <= z < res,
                    res <= 256,
            ;
        }
        let idx: u64 = ((x * res + y) * res + z) * 4 + (c as u64);
        proof {
            assert((((x as int) * (res as int) + (y as int)) * (res as int) + (z as int))
                < (res as int) * (res as int) * (res as int)) by (nonlinear_arith)
                requires
                    0 <= x < res,
                    0 <= y < res,
                    0 <= z < res,
            ;
            assert(((((x as int) * (res as int) + (y as int)) * (res as int) + (z as int)) * 4
                + (c as int)) < (res as int) * (res as int) * (res as int) * 4)
                by (nonlinear_arith)
                requires
                    (((x as int) * (res as int) + (y as int)) * (res as int) + (z as int))
                        < (res as int) * (res as int) * (res as int),
                    0 <= c < 4,
            ;
            assert((res as int) * (res as int) * (res as int) * 4 <= 67_108_864)
                by (nonlinear_arith)
                requires
                    res <= 256,
            ;
        }
        self.data[idx as usize]
    }
}

/// Build a volume from its builder record: a cubic lattice of deterministic
/// hash values, every channel in the unit interval.
pub fn generate(b: &WorleyBuilder) -> (r: NoiseVolume)
    requires
        1 <= b.resolution <= 256,
    ensures
        r.wf(),
        r.resolution == b.resolution,
        forall|k: int| 0 <= k < r.data@.len() ==> #[trigger] r.data@[k] == lattice_value(*b, k),
{
    let res: usize = b.resolution;
    proof {
        assert((res as int) * (res as int) <= 65536 && (res as int) * (res as int) * (res as int)
            <= 16_777_216 && (res as int) * (res as int) * (res as int) * 4 <= 67_108_864)
            by (nonlinear_arith)
            requires
                1 <= res <= 256,
        ;
    }
    let total: usize = res * res * res * 4;
    let seed_term: u64 = b.seed % 1_000_000_007;
    let oct_term: u64 = b.octaves as u64;
    let pers_term: u64 = euclid_mod(b.persistence, 1_000_000_007);
    let mut data: Vec<i64> = Vec::new();
    let mut k: usize = 0;
    while k < total
        invariant
            data@.len() == k,
            k <= total,
            total == (b.resolution as int) * (b.resolution as int) * (b.resolution as int) * 4,
            total <= 67_108_864,
            seed_term == (b.seed as int) % 1_000_000_007,
            oct_term == b.octaves,
            pers_term == (b.persistence as int) % 1_000_000_007,
            forall|j: int| 0 <= j < k ==> #[trigger] data@[j] == lattice_value(*b, j),
            forall|j: int| 0 <= j < k ==> 0 <= #[trigger] data@[j] <= FX_ONE,
        decreases total - k,
    {
        let c: usize = k % 4;
        let freq: i64 = if c == 0 {
            b.frequency.x
        } else if c == 1 {
            b.frequency.y
        } else if c == 2 {
            b.frequency.z
        } else {
            b.frequency.w
        };
        let freq_term: u64 = euclid_mod(freq, 1_000_000_007);
        proof {
            assert((k as int) * 2_654_435_761 <= 67_108_864 * 2_654_435_761) by (nonlinear_arith)
                requires
                    0 <= k <= 67_108_864,
            ;
        }
        let h: u64 = (k as u64) * 2_654_435_761 + seed_term + freq_term + oct_term + pers_term;
        let v: u64 = h % 1_000_001;
        proof {
            lemma_lattice_match(
                *b,
                k as int,
                seed_term as int,
                freq_term as int,
                oct_term as int,
                pers_term as int,
                h as int,
            );
        }
        data.push(v as i64);
        k = k + 1;
    }
    NoiseVolume { resolution: res, data }
}

/// The exec hash agrees with the lattice specification.
proof fn lemma_lattice_match(
    b: WorleyBuilder,
    k: int,
    seed_term: int,
    freq_term: int,
    oct_term: int,
    pers_term: int,
    h: int,
)
    requires
        0 <= k,
        seed_term == (b.seed as int) % 1_000_000_007,
        freq_term == channel_frequency(b, k % 4) % 1_000_000_007,
        oct_term == b.octaves,
        pers_term == (b.persistence as int) % 1_000_000_007,
        h == k * 2_654_435_761 + seed_term + freq_term + oct_term + pers_term,
    ensures
        h % (FX_ONE as int + 1) == lattice_value(b, k),
        0 <= h % (FX_ONE as int + 1) <= FX_ONE,
{
    vstd::arithmetic::div_mod::lemma_mod_bound(h, FX_ONE as int + 1);
}

} // verus!
