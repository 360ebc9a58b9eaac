//! The command layer: tagged edits addressed to scene components by name,
//! each applied atomically and totally — a command aimed at an unknown name,
//! a mismatched component kind or an out-of-range payload leaves the scene
//! untouched rather than failing.

use vstd::prelude::*;

verus! {

use crate::camera::Camera;
use crate::cloud::Cloud;
use crate::color::Rgba8;
use crate::fixed::{fx_mul_spec, HALF_PI_FX};
use crate::noise::{lattice_value, WorleyBuilder};
use crate::scene::{added, lemma_unique_name, removed, Component, ManagerSolution, Scene, Sun};
use crate::vec3::{Vec3, Vec4};

/// A command: an edit of the managers with a stated effect.
pub trait Command: Sized {
    /// The relation the edit establishes between the managers before and
    /// after execution.
    spec fn effect(self, pre: ManagerSolution, post_m: ManagerSolution) -> bool;

    fn exec(self, manager: &mut ManagerSolution)
        requires
            old(manager).scene_manager.scene.wf(),
        ensures
            final(manager).scene_manager.scene.wf(),
            self.effect(*old(manager), *final(manager)),
    ;
}

/// One overwrite of a single cloud parameter.
#[derive(Clone, Copy, Debug)]
pub enum CloudPatch {
    NumSteps(usize),
    NumStepsLight(usize),
    CloudScale(i64),
    DensityMultiplier(i64),
    DensityThreshold(i64),
    DensityOffset(i64),
    Offset(Vec3),
    AlphaThreshold(u8),
    Noise(WorleyBuilder),
    DetailNoise(WorleyBuilder),
    DetailNoiseScale(i64),
    DetailNoiseWeight(i64),
    DetailWeights(Vec4),
    ShapeNoiseWeights(Vec4),
    PhaseParams(Vec4),
    ShapeOffset(Vec3),
    DetailOffset(Vec3),
    LightAbsorptionTowardSun(i64),
    LightAbsorptionThroughCloud(i64),
    DarknessThreshold(i64),
    RayOffsetStrength(i64),
    LightColor(Rgba8),
    ColA(Rgba8),
    ColB(Rgba8),
    HeightMapFactor(i64),
    VolumeOffset(i64),
    EdgeDistance(i64),
}

/// `c1` is `c0` with the patched parameter overwritten and everything else
/// untouched; a noise patch with an unusable resolution is a no-op.
pub open spec fn cloud_patched(c0: Cloud, c1: Cloud, p: CloudPatch) -> bool {
    match p {
        CloudPatch::NumSteps(v) => c1 == (Cloud { num_steps: v, ..c0 }),
        CloudPatch::NumStepsLight(v) => c1 == (Cloud { num_steps_light: v, ..c0 }),
        CloudPatch::CloudScale(v) => c1 == (Cloud { cloud_scale: v, ..c0 }),
        CloudPatch::DensityMultiplier(v) => c1 == (Cloud { density_multiplier: v, ..c0 }),
        CloudPatch::DensityThreshold(v) => c1 == (Cloud { density_threshold: v, ..c0 }),
        CloudPatch::DensityOffset(v) => c1 == (Cloud { density_offset: v, ..c0 }),
        CloudPatch::Offset(v) => c1 == (Cloud { offset: v, ..c0 }),
        CloudPatch::AlphaThreshold(v) => c1 == (Cloud { alpha_threshold: v, ..c0 }),
        CloudPatch::Noise(b) => if 1 <= b.resolution <= 256 {
            &&& crate::cloud::unchanged_but_shape_noise(c0, c1)
            &&& c1.shape_builder == b
            &&& c1.shape_volume.wf()
            &&& c1.shape_volume.resolution == b.resolution
            &&& forall|k: int|
                0 <= k < c1.shape_volume.data@.len() ==> #[trigger] c1.shape_volume.data@[k]
                    == lattice_value(b, k)
        } else {
            c1 == c0
        },
        CloudPatch::DetailNoise(b) => if 1 <= b.resolution <= 256 {
            &&& crate::cloud::unchanged_but_detail_noise(c0, c1)
            &&& c1.detail_builder == b
            &&& c1.detail_volume.wf()
            &&& c1.detail_volume.resolution == b.resolution
            &&& forall|k: int|
                0 <= k < c1.detail_volume.data@.len() ==> #[trigger] c1.detail_volume.data@[k]
                    == lattice_value(b, k)
        } else {
            c1 == c0
        },
        CloudPatch::DetailNoiseScale(v) => c1 == (Cloud { detail_noise_scale: v, ..c0 }),
        CloudPatch::DetailNoiseWeight(v) => c1 == (Cloud { detail_noise_weight: v, ..c0 }),
        CloudPatch::DetailWeights(v) => c1 == (Cloud { detail_weights: v, ..c0 }),
        CloudPatch::ShapeNoiseWeights(v) => c1 == (Cloud { shape_noise_weights: v, ..c0 }),
        CloudPatch::PhaseParams(v) => c1 == (Cloud { phase_params: v, ..c0 }),
        CloudPatch::ShapeOffset(v) => c1 == (Cloud { shape_offset: v, ..c0 }),
        CloudPatch::DetailOffset(v) => c1 == (Cloud { detail_offset: v, ..c0 }),
        CloudPatch::LightAbsorptionTowardSun(v) => c1 == (
        Cloud { light_absorption_toward_sun: v, ..c0 }),
        CloudPatch::LightAbsorptionThroughCloud(v) => c1 == (
        Cloud { light_absorption_through_cloud: v, ..c0 }),
        CloudPatch::DarknessThreshold(v) => c1 == (Cloud { darkness_threshold: v, ..c0 }),
        CloudPatch::RayOffsetStrength(v) => c1 == (Cloud { ray_offset_strength: v, ..c0 }),
        CloudPatch::LightColor(v) => c1 == (Cloud { light_color: v, ..c0 }),
        CloudPatch::ColA(v) => c1 == (Cloud { col_a: v, ..c0 }),
        CloudPatch::ColB(v) => c1 == (Cloud { col_b: v, ..c0 }),
        CloudPatch::HeightMapFactor(v) => c1 == (Cloud { height_map_factor: v, ..c0 }),
        CloudPatch::VolumeOffset(v) => c1 == (Cloud { volume_offset: v, ..c0 }),
        CloudPatch::EdgeDistance(v) => c1 == (Cloud { edge_distance: v, ..c0 }),
    }
}

/// A component is patched when it is a cloud; anything else passes through
/// unchanged.
pub open spec fn component_patched(oc: Component, nc: Component, p: CloudPatch) -> bool {
    match oc {
        Component::Cloud(c0) => match nc {
            Component::Cloud(c1) => cloud_patched(c0, c1, p),
            _ => false,
        },
        _ => nc == oc,
    }
}

/// Every cloud filed under `nm` is patched; every other entry and component
/// is untouched.
pub open spec fn clouds_patched(pre: Scene, post_s: Scene, nm: Seq<char>, p: CloudPatch) -> bool {
    &&& post_s.entries@.len() == pre.entries@.len()
    &&& forall|i: int|
        0 <= i < pre.entries@.len() && pre.entries@[i].name@ != nm ==> #[trigger] post_s.entries@[i]
            == pre.entries@[i]
    &&& forall|i: int|
        0 <= i < pre.entries@.len() && pre.entries@[i].name@ == nm ==> {
            &&& #[trigger] post_s.entries@[i].name@ == pre.entries@[i].name@
            &&& post_s.entries@[i].components@.len() == pre.entries@[i].components@.len()
            &&& forall|j: int|
                0 <= j < pre.entries@[i].components@.len() ==> component_patched(
                    pre.entries@[i].components@[j],
                    #[trigger] post_s.entries@[i].components@[j],
                    p,
                )
        }
}

/// One overwrite of a sun parameter.
#[derive(Clone, Copy, Debug)]
pub enum SunPatch {
    Distance(i64),
    Angle(i64),
}

pub open spec fn sun_patched(s0: Sun, s1: Sun, p: SunPatch) -> bool {
    match p {
        SunPatch::Distance(v) => s1 == (Sun { distance: v, ..s0 }),
        SunPatch::Angle(a) => s1 == (Sun { angle: a, ..s0 }),
    }
}

pub open spec fn sun_component_patched(oc: Component, nc: Component, p: SunPatch) -> bool {
    match oc {
        Component::Sun(s0) => match nc {
            Component::Sun(s1) => sun_patched(s0, s1, p),
            _ => false,
        },
        _ => nc == oc,
    }
}

pub open spec fn suns_patched(pre: Scene, post_s: Scene, nm: Seq<char>, p: SunPatch) -> bool {
    &&& post_s.entries@.len() == pre.entries@.len()
    &&& forall|i: int|
        0 <= i < pre.entries@.len() && pre.entries@[i].name@ != nm ==> #[trigger] post_s.entries@[i]
            == pre.entries@[i]
    &&& forall|i: int|
        0 <= i < pre.entries@.len() && pre.entries@[i].name@ == nm ==> {
            &&& #[trigger] post_s.entries@[i].name@ == pre.entries@[i].name@
            &&& post_s.entries@[i].components@.len() == pre.entries@[i].components@.len()
            &&& forall|j: int|
                0 <= j < pre.entries@[i].components@.len() ==> sun_component_patched(
                    pre.entries@[i].components@[j],
                    #[trigger] post_s.entries@[i].components@[j],
                    p,
                )
        }
}

/// Overwrite one parameter of a cloud in place.
fn apply_cloud_patch(c: &mut Cloud, p: CloudPatch)
    ensures
        cloud_patched(*old(c), *final(c), p),
{
    match p {
        CloudPatch::NumSteps(v) => {
            c.num_steps = v;
            proof {
                assert(*c =~= (Cloud { num_steps: v, ..*old(c) }));
            }
        },
        CloudPatch::NumStepsLight(v) => {
            c.num_steps_light = v;
            proof {
                assert(*c =~= (Cloud { num_steps_light: v, ..*old(c) }));
            }
        },
        CloudPatch::CloudScale(v) => {
            c.cloud_scale = v;
            proof {
                assert(*c =~= (Cloud { cloud_scale: v, ..*old(c) }));
            }
        },
        CloudPatch::DensityMultiplier(v) => {
            c.density_multiplier = v;
            proof {
                assert(*c =~= (Cloud { density_multiplier: v, ..*old(c) }));
            }
        },
        CloudPatch::DensityThreshold(v) => {
            c.density_threshold = v;
            proof {
                assert(*c =~= (Cloud { density_threshold: v, ..*old(c) }));
            }
        },
        CloudPatch::DensityOffset(v) => {
            c.density_offset = v;
            proof {
                assert(*c =~= (Cloud { density_offset: v, ..*old(c) }));
            }
        },
        CloudPatch::Offset(v) => {
            c.offset = v;
            proof {
                assert(*c =~= (Cloud { offset: v, ..*old(c) }));
            }
        },
        CloudPatch::AlphaThreshold(v) => {
            c.alpha_threshold = v;
            proof {
                assert(*c =~= (Cloud { alpha_threshold: v, ..*old(c) }));
            }
        },
        CloudPatch::Noise(b) => {
            if 1 <= b.resolution && b.resolution <= 256 {
                c.regenerate_noise(b);
            }
        },
        CloudPatch::DetailNoise(b) => {
            if 1 <= b.resolution && b.resolution <= 256 {
                c.regenerate_detail_noise(b);
            }
        },
        CloudPatch::DetailNoiseScale(v) => {
            c.detail_noise_scale = v;
            proof {
                assert(*c =~= (Cloud { detail_noise_scale: v, ..*old(c) }));
            }
        },
        CloudPatch::DetailNoiseWeight(v) => {
            c.detail_noise_weight = v;
            proof {
                assert(*c =~= (Cloud { detail_noise_weight: v, ..*old(c) }));
            }
        },
        CloudPatch::DetailWeights(v) => {
            c.detail_weights = v;
            proof {
                assert(*c =~= (Cloud { detail_weights: v, ..*old(c) }));
            }
        },
        CloudPatch::ShapeNoiseWeights(v) => {
            c.shape_noise_weights = v;
            proof {
                assert(*c =~= (Cloud { shape_noise_weights: v, ..*old(c) }));
            }
        },
        CloudPatch::PhaseParams(v) => {
            c.phase_params = v;
            proof {
                assert(*c =~= (Cloud { phase_params: v, ..*old(c) }));
            }
        },
        CloudPatch::ShapeOffset(v) => {
            c.shape_offset = v;
            proof {
                assert(*c =~= (Cloud { shape_offset: v, ..*old(c) }));
            }
        },
        CloudPatch::DetailOffset(v) => {
            c.detail_offset = v;
            proof {
                assert(*c =~= (Cloud { detail_offset: v, ..*old(c) }));
            }
        },
        CloudPatch::LightAbsorptionTowardSun(v) => {
            c.light_absorption_toward_sun = v;
            proof {
                assert(*c =~= (Cloud { light_absorption_toward_sun: v, ..*old(c) }));
            }
        },
        CloudPatch::LightAbsorptionThroughCloud(v) => {
            c.light_absorption_through_cloud = v;
            proof {
                assert(*c =~= (Cloud { light_absorption_through_cloud: v, ..*old(c) }));
            }
        },
        CloudPatch::DarknessThreshold(v) => {
            c.darkness_threshold = v;
            proof {
                assert(*c =~= (Cloud { darkness_threshold: v, ..*old(c) }));
            }
        },
        CloudPatch::RayOffsetStrength(v) => {
            c.ray_offset_strength = v;
            proof {
                assert(*c =~= (Cloud { ray_offset_strength: v, ..*old(c) }));
            }
        },
        CloudPatch::LightColor(v) => {
            c.light_color = v;
            proof {
                assert(*c =~= (Cloud { light_color: v, ..*old(c) }));
            }
        },
        CloudPatch::ColA(v) => {
            c.col_a = v;
            proof {
                assert(*c =~= (Cloud { col_a: v, ..*old(c) }));
            }
        },
        CloudPatch::ColB(v) => {
            c.col_b = v;
            proof {
                assert(*c =~= (Cloud { col_b: v, ..*old(c) }));
            }
        },
        CloudPatch::HeightMapFactor(v) => {
            c.height_map_factor = v;
            proof {
                assert(*c =~= (Cloud { height_map_factor: v, ..*old(c) }));
            }
        },
        CloudPatch::VolumeOffset(v) => {
            c.volume_offset = v;
            proof {
                assert(*c =~= (Cloud { volume_offset: v, ..*old(c) }));
            }
        },
        CloudPatch::EdgeDistance(v) => {
            c.edge_distance = v;
            proof {
                assert(*c =~= (Cloud { edge_distance: v, ..*old(c) }));
            }
        },
    }
}

impl Scene {
    /// Apply a cloud patch to every cloud filed under `name`.
    pub fn patch_clouds(&mut self, name: &String, patch: CloudPatch)
        requires
            old(self).wf(),
        ensures
            final(self).wf(),
            clouds_patched(*old(self), *final(self), name@, patch),
    {
        let found = self.find_index(name);
        match found {
            Some(i) => {
                proof {
                    lemma_unique_name(*self, i as int, name@);
                }
                let m = self.entries[i].components.len();
                let mut j: usize = 0;
                while j < m
                    invariant
                        0 <= i < self.entries@.len(),
                        self.entries@.len() == old(self).entries@.len(),
                        m == old(self).entries@[i as int].components@.len(),
                        self.entries@[i as int].components@.len() == m,
                        self.entries@[i as int].name == old(self).entries@[i as int].name,
                        j <= m,
                        forall|k: int|
                            0 <= k < self.entries@.len() && k != i ==> #[trigger] self.entries@[k]
                                == old(self).entries@[k],
                        forall|t: int|
                            0 <= t < j ==> component_patched(
                                old(self).entries@[i as int].components@[t],
                                #[trigger] self.entries@[i as int].components@[t],
                                patch,
                            ),
                        forall|t: int|
                            j <= t < m ==> #[trigger] self.entries@[i as int].components@[t] == old(
                                self,
                            ).entries@[i as int].components@[t],
                    decreases m - j,
                {
                    match &mut self.entries[i].components[j] {
                        Component::Cloud(c) => {
                            apply_cloud_patch(c, patch);
                        },
                        _ => {},
                    }
                    j = j + 1;
                }
                proof {
                    assert forall|a: int, b: int|
                        0 <= a < b < self.entries@.len() implies #[trigger] self.entries@[a].name@
                        != #[trigger] self.entries@[b].name@ by {
                        assert(old(self).entries@[a].name@ != old(self).entries@[b].name@);
                        assert(self.entries@[a].name@ == old(self).entries@[a].name@);
                        assert(self.entries@[b].name@ == old(self).entries@[b].name@);
                    }
                }
            },
            None => {},
        }
    }

    /// Apply a sun patch to every sun filed under `name`.
    pub fn patch_suns(&mut self, name: &String, patch: SunPatch)
        requires
            old(self).wf(),
        ensures
            final(self).wf(),
            suns_patched(*old(self), *final(self), name@, patch),
    {
        let found = self.find_index(name);
        match found {
            Some(i) => {
                proof {
                    lemma_unique_name(*self, i as int, name@);
                }
                let m = self.entries[i].components.len();
                let mut j: usize = 0;
                while j < m
                    invariant
                        0 <= i < self.entries@.len(),
                        self.entries@.len() == old(self).entries@.len(),
                        m == old(self).entries@[i as int].components@.len(),
                        self.entries@[i as int].components@.len() == m,
                        self.entries@[i as int].name == old(self).entries@[i as int].name,
                        j <= m,
                        forall|k: int|
                            0 <= k < self.entries@.len() && k != i ==> #[trigger] self.entries@[k]
                                == old(self).entries@[k],
                        forall|t: int|
                            0 <= t < j ==> sun_component_patched(
                                old(self).entries@[i as int].components@[t],
                                #[trigger] self.entries@[i as int].components@[t],
                                patch,
                            ),
                        forall|t: int|
                            j <= t < m ==> #[trigger] self.entries@[i as int].components@[t] == old(
                                self,
                            ).entries@[i as int].components@[t],
                    decreases m - j,
                {
                    match &mut self.entries[i].components[j] {
                        Component::Sun(s) => {
                            match patch {
                                SunPatch::Distance(v) => s.set_d(v),
                                SunPatch::Angle(a) => s.set_angle(a),
                            }
                        },
                        _ => {},
                    }
                    j = j + 1;
                }
                proof {
                    assert forall|a: int, b: int|
                        0 <= a < b < self.entries@.len() implies #[trigger] self.entries@[a].name@
                        != #[trigger] self.entries@[b].name@ by {
                        assert(old(self).entries@[a].name@ != old(self).entries@[b].name@);
                        assert(self.entries@[a].name@ == old(self).entries@[a].name@);
                        assert(self.entries@[b].name@ == old(self).entries@[b].name@);
                    }
                }
            },
            None => {},
        }
    }
}

} // verus!


verus! {

use crate::fixed::fx_mul_checked;

/// The scene edits: add, inspect or drop an object, overwrite one cloud
/// parameter at a name, or steer a sun.
pub enum SceneCommand {
    AddObject(String, Component),
    GetObject(String),
    RemoveObject(String),
    SetNumSteps(String, usize),
    SetNumStepsLight(String, usize),
    SetCloudScale(String, i64),
    SetDensityMultiplier(String, i64),
    SetDensityThreshold(String, i64),
    SetDensityOffset(String, i64),
    SetOffset(String, Vec3),
    SetAlphaThreshold(String, u8),
    SetNoise(String, WorleyBuilder),
    SetDetailNoise(String, WorleyBuilder),
    SetDetailNoiseScale(String, i64),
    SetDetailNoiseWeight(String, i64),
    SetDetailWeights(String, Vec4),
    SetShapeNoiseWeights(String, Vec4),
    SetPhaseParams(String, Vec4),
    SetShapeOffset(String, Vec3),
    SetDetailOffset(String, Vec3),
    SetLightAbsorptionTowardSun(String, i64),
    SetLightAbsorptionThroughCloud(String, i64),
    SetDarknessThreshold(String, i64),
    SetRayOffsetStrength(String, i64),
    SetLightColor(String, Rgba8),
    SetColA(String, Rgba8),
    SetColB(String, Rgba8),
    SetHeightMapFactor(String, i64),
    SetVolumeOffset(String, i64),
    SetEdgeDistance(String, i64),
    SetSunDistance(String, i64),
    SetSunAngle(String, i64),
}

/// The cloud patch a set-command stands for, if it is one.
pub open spec fn cloud_patch_of(cmd: SceneCommand) -> Option<(Seq<char>, CloudPatch)> {
    match cmd {
        SceneCommand::SetNumSteps(n, v) => Some((n@, CloudPatch::NumSteps(v))),
        SceneCommand::SetNumStepsLight(n, v) => Some((n@, CloudPatch::NumStepsLight(v))),
        SceneCommand::SetCloudScale(n, v) => Some((n@, CloudPatch::CloudScale(v))),
        SceneCommand::SetDensityMultiplier(n, v) => Some((n@, CloudPatch::DensityMultiplier(v))),
        SceneCommand::SetDensityThreshold(n, v) => Some((n@, CloudPatch::DensityThreshold(v))),
        SceneCommand::SetDensityOffset(n, v) => Some((n@, CloudPatch::DensityOffset(v))),
        SceneCommand::SetOffset(n, v) => Some((n@, CloudPatch::Offset(v))),
        SceneCommand::SetAlphaThreshold(n, v) => Some((n@, CloudPatch::AlphaThreshold(v))),
        SceneCommand::SetNoise(n, v) => Some((n@, CloudPatch::Noise(v))),
        SceneCommand::SetDetailNoise(n, v) => Some((n@, CloudPatch::DetailNoise(v))),
        SceneCommand::SetDetailNoiseScale(n, v) => Some((n@, CloudPatch::DetailNoiseScale(v))),
        SceneCommand::SetDetailNoiseWeight(n, v) => Some((n@, CloudPatch::DetailNoiseWeight(v))),
        SceneCommand::SetDetailWeights(n, v) => Some((n@, CloudPatch::DetailWeights(v))),
        SceneCommand::SetShapeNoiseWeights(n, v) => Some((n@, CloudPatch::ShapeNoiseWeights(v))),
        SceneCommand::SetPhaseParams(n, v) => Some((n@, CloudPatch::PhaseParams(v))),
        SceneCommand::SetShapeOffset(n, v) => Some((n@, CloudPatch::ShapeOffset(v))),
        SceneCommand::SetDetailOffset(n, v) => Some((n@, CloudPatch::DetailOffset(v))),
        SceneCommand::SetLightAbsorptionTowardSun(n, v) => Some(
            (n@, CloudPatch::LightAbsorptionTowardSun(v)),
        ),
        SceneCommand::SetLightAbsorptionThroughCloud(n, v) => Some(
            (n@, CloudPatch::LightAbsorptionThroughCloud(v)),
        ),
        SceneCommand::SetDarknessThreshold(n, v) => Some((n@, CloudPatch::DarknessThreshold(v))),
        SceneCommand::SetRayOffsetStrength(n, v) => Some((n@, CloudPatch::RayOffsetStrength(v))),
        SceneCommand::SetLightColor(n, v) => Some((n@, CloudPatch::LightColor(v))),
        SceneCommand::SetColA(n, v) => Some((n@, CloudPatch::ColA(v))),
        SceneCommand::SetColB(n, v) => Some((n@, CloudPatch::ColB(v))),
        SceneCommand::SetHeightMapFactor(n, v) => Some((n@, CloudPatch::HeightMapFactor(v))),
        SceneCommand::SetVolumeOffset(n, v) => Some((n@, CloudPatch::VolumeOffset(v))),
        SceneCommand::SetEdgeDistance(n, v) => Some((n@, CloudPatch::EdgeDistance(v))),
        _ => None,
    }
}

impl Command for SceneCommand {
    /// What each scene command does: adds append, removes drop the named
    /// slot, reads and unknown names are no-ops, and sets overwrite exactly
    /// one parameter on the clouds or suns filed under the name. The camera
    /// is never touched.
    open spec fn effect(self, pre: ManagerSolution, post_m: ManagerSolution) -> bool {
        &&& post_m.camera_manager == pre.camera_manager
        &&& match self {
            SceneCommand::AddObject(name, component) => added(
                pre.scene_manager.scene,
                post_m.scene_manager.scene,
                name@,
                component,
            ),
            SceneCommand::GetObject(_) => post_m.scene_manager.scene.entries@
                == pre.scene_manager.scene.entries@,
            SceneCommand::RemoveObject(name) => removed(
                pre.scene_manager.scene,
                post_m.scene_manager.scene,
                name@,
            ),
            SceneCommand::SetSunDistance(name, v) => suns_patched(
                pre.scene_manager.scene,
                post_m.scene_manager.scene,
                name@,
                SunPatch::Distance(v),
            ),
            SceneCommand::SetSunAngle(name, v) => suns_patched(
                pre.scene_manager.scene,
                post_m.scene_manager.scene,
                name@,
                SunPatch::Angle(v),
            ),
            _ => match cloud_patch_of(self) {
                Some(np) => clouds_patched(
                    pre.scene_manager.scene,
                    post_m.scene_manager.scene,
                    np.0,
                    np.1,
                ),
                None => false,
            },
        }
    }

    fn exec(self, manager: &mut ManagerSolution) {
        match self {
            SceneCommand::AddObject(name, component) => {
                manager.scene_manager.scene.add_object(name, component);
            },
            SceneCommand::GetObject(_) => {},
            SceneCommand::RemoveObject(n) => {
                manager.scene_manager.scene.remove(&n);
            },
            SceneCommand::SetNumSteps(n, v) => {
                manager.scene_manager.scene.patch_clouds(&n, CloudPatch::NumSteps(v));
            },
            SceneCommand::SetNumStepsLight(n, v) => {
                manager.scene_manager.scene.patch_clouds(&n, CloudPatch::NumStepsLight(v));
            },
            SceneCommand::SetCloudScale(n, v) => {
                manager.scene_manager.scene.patch_clouds(&n, CloudPatch::CloudScale(v));
            },
            SceneCommand::SetDensityMultiplier(n, v) => {
                manager.scene_manager.scene.patch_clouds(&n, CloudPatch::DensityMultiplier(v));
            },
            SceneCommand::SetDensityThreshold(n, v) => {
                manager.scene_manager.scene.patch_clouds(&n, CloudPatch::DensityThreshold(v));
            },
            SceneCommand::SetDensityOffset(n, v) => {
                manager.scene_manager.scene.patch_clouds(&n, CloudPatch::DensityOffset(v));
            },
            SceneCommand::SetOffset(n, v) => {
                manager.scene_manager.scene.patch_clouds(&n, CloudPatch::Offset(v));
            },
            SceneCommand::SetAlphaThreshold(n, v) => {
                manager.scene_manager.scene.patch_clouds(&n, CloudPatch::AlphaThreshold(v));
            },
            SceneCommand::SetNoise(n, v) => {
                manager.scene_manager.scene.patch_clouds(&n, CloudPatch::Noise(v));
            },
            SceneCommand::SetDetailNoise(n, v) => {
                manager.scene_manager.scene.patch_clouds(&n, CloudPatch::DetailNoise(v));
            },
            SceneCommand::SetDetailNoiseScale(n, v) => {
                manager.scene_manager.scene.patch_clouds(&n, CloudPatch::DetailNoiseScale(v));
            },
            SceneCommand::SetDetailNoiseWeight(n, v) => {
                manager.scene_manager.scene.patch_clouds(&n, CloudPatch::DetailNoiseWeight(v));
            },
            SceneCommand::SetDetailWeights(n, v) => {
                manager.scene_manager.scene.patch_clouds(&n, CloudPatch::DetailWeights(v));
            },
            SceneCommand::SetShapeNoiseWeights(n, v) => {
                manager.scene_manager.scene.patch_clouds(&n, CloudPatch::ShapeNoiseWeights(v));
            },
            SceneCommand::SetPhaseParams(n, v) => {
                manager.scene_manager.scene.patch_clouds(&n, CloudPatch::PhaseParams(v));
            },
            SceneCommand::SetShapeOffset(n, v) => {
                manager.scene_manager.scene.patch_clouds(&n, CloudPatch::ShapeOffset(v));
            },
            SceneCommand::SetDetailOffset(n, v) => {
                manager.scene_manager.scene.patch_clouds(&n, CloudPatch::DetailOffset(v));
            },
            SceneCommand::SetLightAbsorptionTowardSun(n, v) => {
                manager.scene_manager.scene.patch_clouds(
                    &n,
                    CloudPatch::LightAbsorptionTowardSun(v),
                );
            },
            SceneCommand::SetLightAbsorptionThroughCloud(n, v) => {
                manager.scene_manager.scene.patch_clouds(
                    &n,
                    CloudPatch::LightAbsorptionThroughCloud(v),
                );
            },
            SceneCommand::SetDarknessThreshold(n, v) => {
                manager.scene_manager.scene.patch_clouds(&n, CloudPatch::DarknessThreshold(v));
            },
            SceneCommand::SetRayOffsetStrength(n, v) => {
                manager.scene_manager.scene.patch_clouds(&n, CloudPatch::RayOffsetStrength(v));
            },
            SceneCommand::SetLightColor(n, v) => {
                manager.scene_manager.scene.patch_clouds(&n, CloudPatch::LightColor(v));
            },
            SceneCommand::SetColA(n, v) => {
                manager.scene_manager.scene.patch_clouds(&n, CloudPatch::ColA(v));
            },
            SceneCommand::SetColB(n, v) => {
                manager.scene_manager.scene.patch_clouds(&n, CloudPatch::ColB(v));
            },
            SceneCommand::SetHeightMapFactor(n, v) => {
                manager.scene_manager.scene.patch_clouds(&n, CloudPatch::HeightMapFactor(v));
            },
            SceneCommand::SetVolumeOffset(n, v) => {
                manager.scene_manager.scene.patch_clouds(&n, CloudPatch::VolumeOffset(v));
            },
            SceneCommand::SetEdgeDistance(n, v) => {
                manager.scene_manager.scene.patch_clouds(&n, CloudPatch::EdgeDistance(v));
            },
            SceneCommand::SetSunDistance(n, v) => {
                manager.scene_manager.scene.patch_suns(&n, SunPatch::Distance(v));
            },
            SceneCommand::SetSunAngle(n, v) => {
                manager.scene_manager.scene.patch_suns(&n, SunPatch::Angle(v));
            },
        }
    }
}

} // verus!

verus! {

/// The camera edits: mouse deltas and a world-space pan displacement.
pub enum CameraCommand {
    Pivot(i64, i64),
    Zoom(i64),
    PanWorld(Vec3),
}

/// Whether a pivot by these deltas stays within the scalar range.
pub open spec fn pivot_ok(cam: Camera, dx: int, dy: int) -> bool {
    &&& i64::MIN <= fx_mul_spec(dx, cam.control.swivel_sensitivity as int) <= i64::MAX
    &&& i64::MIN <= fx_mul_spec(dy, cam.control.swivel_sensitivity as int) <= i64::MAX
    &&& i64::MIN <= cam.view.yaw + fx_mul_spec(dx, cam.control.swivel_sensitivity as int)
        <= i64::MAX
    &&& i64::MIN <= cam.view.pitch + fx_mul_spec(dy, cam.control.swivel_sensitivity as int)
        <= i64::MAX
}

/// The pivot update: yaw advanced, pitch advanced and clamped to a quarter
/// turn, everything else untouched.
pub open spec fn pivoted(c0: Camera, c1: Camera, dx: int, dy: int) -> bool {
    &&& c1.proj == c0.proj
    &&& c1.control == c0.control
    &&& c1.view.pivot == c0.view.pivot
    &&& c1.view.distance == c0.view.distance
    &&& c1.view.yaw == c0.view.yaw + fx_mul_spec(dx, c0.control.swivel_sensitivity as int)
    &&& c1.view.pitch == {
        let raw = c0.view.pitch + fx_mul_spec(dy, c0.control.swivel_sensitivity as int);
        if raw < -HALF_PI_FX {
            -HALF_PI_FX as int
        } else if raw > HALF_PI_FX {
            HALF_PI_FX as int
        } else {
            raw
        }
    }
}

/// Whether a zoom by this delta stays within the scalar range.
pub open spec fn zoom_ok(cam: Camera, d: int) -> bool {
    let s2 = fx_mul_spec(cam.control.zoom_sensitivity as int, cam.control.zoom_sensitivity as int);
    let t1 = fx_mul_spec(d, s2);
    let t2 = fx_mul_spec(t1, cam.view.distance as int);
    &&& i64::MIN <= s2 <= i64::MAX
    &&& i64::MIN <= t1 <= i64::MAX
    &&& i64::MIN <= t2 <= i64::MAX
    &&& i64::MIN <= cam.view.distance + t2 <= i64::MAX
}

/// The zoom update: the distance grown multiplicatively, then pushed back
/// out to the closest allowed approach.
pub open spec fn zoomed(c0: Camera, c1: Camera, d: int) -> bool {
    &&& c1.proj == c0.proj
    &&& c1.control == c0.control
    &&& c1.view.pivot == c0.view.pivot
    &&& c1.view.yaw == c0.view.yaw
    &&& c1.view.pitch == c0.view.pitch
    &&& c1.view.distance == {
        let grown = c0.view.distance + fx_mul_spec(
            fx_mul_spec(
                d,
                fx_mul_spec(
                    c0.control.zoom_sensitivity as int,
                    c0.control.zoom_sensitivity as int,
                ),
            ),
            c0.view.distance as int,
        );
        if grown >= c0.control.closest_zoom {
            grown
        } else {
            c0.control.closest_zoom as int
        }
    }
}

/// Whether a pan by this world displacement stays within the scalar range.
pub open spec fn pan_ok(cam: Camera, delta: Vec3) -> bool {
    &&& i64::MIN <= cam.view.pivot.x + delta.x <= i64::MAX
    &&& i64::MIN <= cam.view.pivot.y + delta.y <= i64::MAX
    &&& i64::MIN <= cam.view.pivot.z + delta.z <= i64::MAX
}

/// The pan update: the pivot translated, everything else untouched.
pub open spec fn panned(c0: Camera, c1: Camera, delta: Vec3) -> bool {
    &&& c1.proj == c0.proj
    &&& c1.control == c0.control
    &&& c1.view.yaw == c0.view.yaw
    &&& c1.view.pitch == c0.view.pitch
    &&& c1.view.distance == c0.view.distance
    &&& c1.view.pivot.x == c0.view.pivot.x + delta.x
    &&& c1.view.pivot.y == c0.view.pivot.y + delta.y
    &&& c1.view.pivot.z == c0.view.pivot.z + delta.z
}

/// A sum test against the scalar range, exact.
fn add_in_range(a: i64, b: i64) -> (r: bool)
    ensures
        r == (i64::MIN <= a as int + b as int <= i64::MAX),
{
    let wide: i128 = (a as i128) + (b as i128);
    -0x8000_0000_0000_0000i128 <= wide && wide <= 0x7fff_ffff_ffff_ffffi128
}

impl Command for CameraCommand {
    /// What each camera command does; a delta whose update would leave the
    /// scalar range is ignored.
    open spec fn effect(self, pre: ManagerSolution, post_m: ManagerSolution) -> bool {
        &&& post_m.scene_manager.scene.entries@ == pre.scene_manager.scene.entries@
        &&& match self {
            CameraCommand::Pivot(dx, dy) => if pivot_ok(pre.camera_manager.camera, dx as int, dy as int) {
                pivoted(pre.camera_manager.camera, post_m.camera_manager.camera, dx as int, dy as int)
            } else {
                post_m.camera_manager == pre.camera_manager
            },
            CameraCommand::Zoom(d) => if zoom_ok(pre.camera_manager.camera, d as int) {
                zoomed(pre.camera_manager.camera, post_m.camera_manager.camera, d as int)
            } else {
                post_m.camera_manager == pre.camera_manager
            },
            CameraCommand::PanWorld(delta) => if pan_ok(pre.camera_manager.camera, delta) {
                panned(pre.camera_manager.camera, post_m.camera_manager.camera, delta)
            } else {
                post_m.camera_manager == pre.camera_manager
            },
        }
    }

    fn exec(self, manager: &mut ManagerSolution) {
        match self {
            CameraCommand::Pivot(dx, dy) => {
                let sens = manager.camera_manager.camera.control.swivel_sensitivity;
                let mx = fx_mul_checked(dx, sens);
                let my = fx_mul_checked(dy, sens);
                match (mx, my) {
                    (Some(vx), Some(vy)) => {
                        let yaw_ok = add_in_range(manager.camera_manager.camera.view.yaw, vx);
                        let pitch_ok = add_in_range(manager.camera_manager.camera.view.pitch, vy);
                        if yaw_ok && pitch_ok {
                            manager.camera_manager.camera.pivot(dx, dy);
                        }
                    },
                    _ => {},
                }
            },
            CameraCommand::Zoom(d) => {
                let sens = manager.camera_manager.camera.control.zoom_sensitivity;
                match fx_mul_checked(sens, sens) {
                    Some(s2) => match fx_mul_checked(d, s2) {
                        Some(t1) => match fx_mul_checked(
                            t1,
                            manager.camera_manager.camera.view.distance,
                        ) {
                            Some(t2) => {
                                if add_in_range(manager.camera_manager.camera.view.distance, t2) {
                                    manager.camera_manager.camera.zoom(d);
                                }
                            },
                            None => {},
                        },
                        None => {},
                    },
                    None => {},
                }
            },
            CameraCommand::PanWorld(delta) => {
                let ok_x = add_in_range(manager.camera_manager.camera.view.pivot.x, delta.x);
                let ok_y = add_in_range(manager.camera_manager.camera.view.pivot.y, delta.y);
                let ok_z = add_in_range(manager.camera_manager.camera.view.pivot.z, delta.z);
                if ok_x && ok_y && ok_z {
                    manager.camera_manager.camera.pan_world(delta);
                }
            },
        }
    }
}

/// Whether a patch rebuilds a noise volume rather than overwriting a plain
/// parameter.
pub open spec fn is_noise_patch(p: CloudPatch) -> bool {
    ||| p matches CloudPatch::Noise(_)
    ||| p matches CloudPatch::DetailNoise(_)
}

/// Overwriting a cloud parameter twice with the same value is the same as
/// overwriting it once: the second application changes nothing.
pub proof fn lemma_cloud_patch_idempotent(c0: Cloud, c1: Cloud, c2: Cloud, p: CloudPatch)
    requires
        cloud_patched(c0, c1, p),
        cloud_patched(c1, c2, p),
        !is_noise_patch(p),
    ensures
        c2 == c1,
{
    assert(c2 =~= c1);
}

/// Applying a set-command twice with the same value leaves every component
/// exactly as after one application; rebuilding a noise volume twice from
/// the same record reproduces the same voxel data.
pub proof fn lemma_set_command_idempotent(
    s0: Scene,
    s1: Scene,
    s2: Scene,
    nm: Seq<char>,
    p: CloudPatch,
)
    requires
        clouds_patched(s0, s1, nm, p),
        clouds_patched(s1, s2, nm, p),
        !is_noise_patch(p),
    ensures
        s2.entries@.len() == s1.entries@.len(),
        forall|i: int|
            0 <= i < s1.entries@.len() ==> #[trigger] s2.entries@[i].name@ == s1.entries@[i].name@
                && s2.entries@[i].components@ =~= s1.entries@[i].components@,
{
    assert forall|i: int|
        0 <= i < s1.entries@.len() implies #[trigger] s2.entries@[i].name@ == s1.entries@[i].name@
        && s2.entries@[i].components@ =~= s1.entries@[i].components@ by {
        if s0.entries@[i].name@ == nm {
            assert(s1.entries@[i].name@ == s0.entries@[i].name@);
            assert(s1.entries@[i].name@ == nm);
            assert(s2.entries@[i].name@ == s1.entries@[i].name@);
            assert(s2.entries@[i].components@.len() == s1.entries@[i].components@.len());
            assert(s1.entries@[i].components@.len() == s0.entries@[i].components@.len());
            assert forall|j: int|
                0 <= j < s1.entries@[i].components@.len() implies #[trigger] s2.entries@[i].components@[j]
                == s1.entries@[i].components@[j] by {
                let oc = s0.entries@[i].components@[j];
                let mc = s1.entries@[i].components@[j];
                let nc = s2.entries@[i].components@[j];
                assert(component_patched(oc, mc, p));
                assert(component_patched(mc, nc, p));
                match oc {
                    Component::Cloud(a0) => {
                        match mc {
                            Component::Cloud(a1) => {
                                match nc {
                                    Component::Cloud(a2) => {
                                        lemma_cloud_patch_idempotent(a0, a1, a2, p);
                                    },
                                    _ => {},
                                }
                            },
                            _ => {},
                        }
                    },
                    _ => {},
                }
            }
        } else {
            assert(s1.entries@[i] == s0.entries@[i]);
            assert(s2.entries@[i] == s1.entries@[i]);
        }
    }
}

/// Overwriting a sun parameter twice with the same value equals overwriting
/// it once.
pub proof fn lemma_sun_set_idempotent(s0: Sun, s1: Sun, s2: Sun, p: SunPatch)
    requires
        sun_patched(s0, s1, p),
        sun_patched(s1, s2, p),
    ensures
        s2 == s1,
{
}

} // verus!

verus! {

/// A pivot followed by the opposite pivot restores the camera exactly,
/// provided the scaled deltas land on the fixed-point grid and the pitch
/// never touches the clamp. (The multiplicative zoom is not reversible this
/// way; its update formula is stated on `zoomed` instead.)
pub proof fn lemma_pivot_round_trip(c0: Camera, c1: Camera, c2: Camera, dx: int, dy: int)
    requires
        pivoted(c0, c1, dx, dy),
        pivoted(c1, c2, -dx, -dy),
        (dx * c0.control.swivel_sensitivity as int) % (1_000_000 as int) == 0,
        (dy * c0.control.swivel_sensitivity as int) % (1_000_000 as int) == 0,
        -HALF_PI_FX <= c0.view.pitch <= HALF_PI_FX,
        -HALF_PI_FX <= c0.view.pitch + fx_mul_spec(dy, c0.control.swivel_sensitivity as int)
            <= HALF_PI_FX,
    ensures
        c2 == c0,
{
    let s = c0.control.swivel_sensitivity as int;
    lemma_exact_mul_negates(dx, s);
    lemma_exact_mul_negates(dy, s);
    assert(c2.view =~= c0.view);
    assert(c2 =~= c0);
}

/// Negating one factor negates an exact fixed-point product.
proof fn lemma_exact_mul_negates(a: int, b: int)
    requires
        (a * b) % (1_000_000 as int) == 0,
    ensures
        fx_mul_spec(-a, b) == -fx_mul_spec(a, b),
{
    let p = a * b;
    vstd::arithmetic::div_mod::lemma_fundamental_div_mod(p, 1_000_000);
    assert((-a) * b == -p) by (nonlinear_arith)
        requires
            p == a * b,
    ;
    assert(p == 1_000_000 * (p / 1_000_000)) by {
        assert(p == 1_000_000 * (p / 1_000_000) + p % 1_000_000);
    }
    assert(-p == (-(p / 1_000_000)) * 1_000_000 + 0) by (nonlinear_arith)
        requires
            p == 1_000_000 * (p / 1_000_000),
    ;
    vstd::arithmetic::div_mod::lemma_fundamental_div_mod_converse(
        -p,
        1_000_000,
        -(p / 1_000_000),
        0,
    );
}

} // verus!
