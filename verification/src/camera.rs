//! Arcball camera state and controller.
//!
//! The camera is a pivot point, a distance and two angles. The controller
//! turns mouse deltas into state updates: `pivot` clamps the pitch into a
//! quarter turn either way, and `zoom` never lets the distance drop under the
//! configured closest approach. The trigonometric evaluation of the eye
//! point, the view matrix and the pixel ray happens outside the library on
//! floating-point copies of this state; everything stated here is about the
//! state updates themselves.

use vstd::prelude::*;

verus! {

use crate::fixed::{fx_clamp, fx_max, fx_mul, fx_mul_spec, div_floor, FX_ONE, HALF_PI_FX};
use crate::vec3::{Vec3, Vec4};

/// Perspective projection parameters, angles in fixed-point radians.
#[derive(Clone, Copy, Debug, PartialEq, Eq, Structural)]
pub struct Perspective {
    pub fov: i64,
    pub clip_near: i64,
    pub clip_far: i64,
}

/// Arcball camera parameters.
#[derive(Clone, Copy, Debug, PartialEq, Eq, Structural)]
pub struct ArcBall {
    pub pivot: Vec3,
    pub distance: i64,
    pub yaw: i64,
    pub pitch: i64,
}

/// Arcball camera controller sensitivities.
#[derive(Clone, Copy, Debug, PartialEq, Eq, Structural)]
pub struct ArcBallController {
    pub pan_sensitivity: i64,
    pub swivel_sensitivity: i64,
    pub zoom_sensitivity: i64,
    pub closest_zoom: i64,
}

/// Camera controller and parameters.
#[derive(Clone, Copy, Debug, PartialEq, Eq, Structural)]
pub struct Camera {
    pub proj: Perspective,
    pub view: ArcBall,
    pub control: ArcBallController,
}

impl ArcBall {
    /// The pitch stays within a quarter turn of the horizon.
    pub open spec fn wf(self) -> bool {
        -HALF_PI_FX <= self.pitch <= HALF_PI_FX
    }

    /// The pivot point the camera orbits.
    pub fn pivot(&self) -> (r: Vec3)
        ensures
            r == self.pivot,
    {
        self.pivot
    }
}

impl Default for ArcBall {
    /// Half a unit above the origin, ten units away, level.
    fn default() -> (r: ArcBall)
        ensures
            r == (ArcBall {
                pivot: Vec3 { x: 0i64, y: 500_000i64, z: 0i64 },
                distance: 10_000_000i64,
                yaw: 0i64,
                pitch: 0i64,
            }),
            r.wf(),
    {
        ArcBall {
            pivot: Vec3 { x: 0, y: 500_000, z: 0 },
            distance: 10_000_000,
            yaw: 0,
            pitch: 0,
        }
    }
}

impl Default for Perspective {
    /// An eighth-turn field of view with near and far planes at a tenth of a
    /// unit and a hundred units.
    fn default() -> (r: Perspective)
        ensures
            r == (Perspective {
                fov: 785_398i64,
                clip_near: 100_000i64,
                clip_far: 100_000_000i64,
            }),
    {
        Perspective { fov: 785_398, clip_near: 100_000, clip_far: 100_000_000 }
    }
}

impl Default for ArcBallController {
    fn default() -> (r: ArcBallController)
        ensures
            r == (ArcBallController {
                pan_sensitivity: 1_500i64,
                swivel_sensitivity: 5_000i64,
                zoom_sensitivity: 40_000i64,
                closest_zoom: 10_000i64,
            }),
    {
        ArcBallController {
            pan_sensitivity: 1_500,
            swivel_sensitivity: 5_000,
            zoom_sensitivity: 40_000,
            closest_zoom: 10_000,
        }
    }
}

impl Default for Camera {
    fn default() -> (r: Camera)
        ensures
            r.proj == (Perspective {
                fov: 785_398i64,
                clip_near: 100_000i64,
                clip_far: 100_000_000i64,
            }),
            r.view == (ArcBall {
                pivot: Vec3 { x: 0i64, y: 500_000i64, z: 0i64 },
                distance: 10_000_000i64,
                yaw: 0i64,
                pitch: 0i64,
            }),
            r.control == (ArcBallController {
                pan_sensitivity: 1_500i64,
                swivel_sensitivity: 5_000i64,
                zoom_sensitivity: 40_000i64,
                closest_zoom: 10_000i64,
            }),
            r.view.wf(),
    {
        Camera {
            proj: Perspective::default(),
            view: ArcBall::default(),
            control: ArcBallController::default(),
        }
    }
}

impl ArcBallController {
    /// Swivel the arcball: yaw follows the horizontal delta, pitch follows
    /// the vertical delta and is clamped to a quarter turn either way, so a
    /// pivot never tips the camera past the poles, whatever state it starts
    /// from.
    pub fn pivot(&mut self, arcball: &mut ArcBall, delta_x: i64, delta_y: i64)
        requires
            i64::MIN <= fx_mul_spec(delta_x as int, old(self).swivel_sensitivity as int)
                <= i64::MAX,
            i64::MIN <= fx_mul_spec(delta_y as int, old(self).swivel_sensitivity as int)
                <= i64::MAX,
            i64::MIN <= old(arcball).yaw + fx_mul_spec(
                delta_x as int,
                old(self).swivel_sensitivity as int,
            ) <= i64::MAX,
            i64::MIN <= old(arcball).pitch + fx_mul_spec(
                delta_y as int,
                old(self).swivel_sensitivity as int,
            ) <= i64::MAX,
        ensures
            *final(self) == *old(self),
            final(arcball).yaw == old(arcball).yaw + fx_mul_spec(
                delta_x as int,
                old(self).swivel_sensitivity as int,
            ),
            final(arcball).pitch == {
                let raw = old(arcball).pitch + fx_mul_spec(
                    delta_y as int,
                    old(self).swivel_sensitivity as int,
                );
                if raw < -HALF_PI_FX {
                    -HALF_PI_FX as int
                } else if raw > HALF_PI_FX {
                    HALF_PI_FX as int
                } else {
                    raw
                }
            },
            final(arcball).pivot == old(arcball).pivot,
            final(arcball).distance == old(arcball).distance,
            final(arcball).wf(),
    {
        arcball.yaw = arcball.yaw + fx_mul(delta_x, self.swivel_sensitivity);
        let raw_pitch = arcball.pitch + fx_mul(delta_y, self.swivel_sensitivity);
        arcball.pitch = fx_clamp(raw_pitch, -HALF_PI_FX, HALF_PI_FX);
    }

    /// The screen-space pan displacement: the mouse delta scaled by the
    /// current distance and the pan sensitivity, as a homogeneous vector
    /// with zero depth. The caller carries it through the inverse view
    /// transform before applying it with `pan_world`.
    pub fn pan_screen_delta(&self, arcball: &ArcBall, delta_x: i64, delta_y: i64) -> (r: Vec4)
        requires
            i64::MIN <= -(delta_x as int) <= i64::MAX,
            i64::MIN <= fx_mul_spec(-(delta_x as int), arcball.distance as int) <= i64::MAX,
            i64::MIN <= fx_mul_spec(delta_y as int, arcball.distance as int) <= i64::MAX,
            i64::MIN <= fx_mul_spec(
                fx_mul_spec(-(delta_x as int), arcball.distance as int),
                self.pan_sensitivity as int,
            ) <= i64::MAX,
            i64::MIN <= fx_mul_spec(
                fx_mul_spec(delta_y as int, arcball.distance as int),
                self.pan_sensitivity as int,
            ) <= i64::MAX,
        ensures
            r.x == fx_mul_spec(
                fx_mul_spec(-(delta_x as int), arcball.distance as int),
                self.pan_sensitivity as int,
            ),
            r.y == fx_mul_spec(
                fx_mul_spec(delta_y as int, arcball.distance as int),
                self.pan_sensitivity as int,
            ),
            r.z == 0,
            r.w == 0,
    {
        let sx = fx_mul(fx_mul(-delta_x, arcball.distance), self.pan_sensitivity);
        let sy = fx_mul(fx_mul(delta_y, arcball.distance), self.pan_sensitivity);
        Vec4 { x: sx, y: sy, z: 0, w: 0 }
    }

    /// Apply a world-space pan displacement to the pivot point.
    pub fn pan_world(&mut self, arcball: &mut ArcBall, delta: Vec3)
        requires
            i64::MIN <= old(arcball).pivot.x + delta.x <= i64::MAX,
            i64::MIN <= old(arcball).pivot.y + delta.y <= i64::MAX,
            i64::MIN <= old(arcball).pivot.z + delta.z <= i64::MAX,
        ensures
            *final(self) == *old(self),
            final(arcball).pivot.x == old(arcball).pivot.x + delta.x,
            final(arcball).pivot.y == old(arcball).pivot.y + delta.y,
            final(arcball).pivot.z == old(arcball).pivot.z + delta.z,
            final(arcball).distance == old(arcball).distance,
            final(arcball).yaw == old(arcball).yaw,
            final(arcball).pitch == old(arcball).pitch,
    {
        arcball.pivot = arcball.pivot.add(delta);
    }

    /// Zoom multiplicatively in the current distance, then push the result
    /// back out to the closest allowed approach, so the distance never drops
    /// under it.
    pub fn zoom(&mut self, arcball: &mut ArcBall, delta: i64)
        requires
            i64::MIN <= fx_mul_spec(
                old(self).zoom_sensitivity as int,
                old(self).zoom_sensitivity as int,
            ) <= i64::MAX,
            i64::MIN <= fx_mul_spec(
                delta as int,
                fx_mul_spec(old(self).zoom_sensitivity as int, old(self).zoom_sensitivity as int),
            ) <= i64::MAX,
            i64::MIN <= fx_mul_spec(
                fx_mul_spec(
                    delta as int,
                    fx_mul_spec(
                        old(self).zoom_sensitivity as int,
                        old(self).zoom_sensitivity as int,
                    ),
                ),
                old(arcball).distance as int,
            ) <= i64::MAX,
            i64::MIN <= old(arcball).distance + fx_mul_spec(
                fx_mul_spec(
                    delta as int,
                    fx_mul_spec(
                        old(self).zoom_sensitivity as int,
                        old(self).zoom_sensitivity as int,
                    ),
                ),
                old(arcball).distance as int,
            ) <= i64::MAX,
        ensures
            *final(self) == *old(self),
            final(arcball).distance == {
                let grown = old(arcball).distance + fx_mul_spec(
                    fx_mul_spec(
                        delta as int,
                        fx_mul_spec(
                            old(self).zoom_sensitivity as int,
                            old(self).zoom_sensitivity as int,
                        ),
                    ),
                    old(arcball).distance as int,
                );
                if grown >= old(self).closest_zoom {
                    grown
                } else {
                    old(self).closest_zoom as int
                }
            },
            final(arcball).distance >= old(self).closest_zoom,
            final(arcball).pivot == old(arcball).pivot,
            final(arcball).yaw == old(arcball).yaw,
            final(arcball).pitch == old(arcball).pitch,
    {
        let squared = fx_mul(self.zoom_sensitivity, self.zoom_sensitivity);
        let grown = arcball.distance + fx_mul(fx_mul(delta, squared), arcball.distance);
        arcball.distance = fx_max(grown, self.closest_zoom);
    }
}

/// Screen coordinates of a canvas pixel, mapped into the square `[-1, 1]`
/// by the viewport transform, fixed point.
pub fn pixel_screen(i: usize, j: usize, width: usize, height: usize) -> (r: (i64, i64))
    requires
        1 <= width <= 1_000_000,
        1 <= height <= 1_000_000,
        i <= 1_000_000,
        j <= 1_000_000,
    ensures
        r.0 as int == 2 * div_floor(j as int * FX_ONE as int, width as int) - FX_ONE as int,
        r.1 as int == FX_ONE as int - 2 * div_floor(i as int * FX_ONE as int, height as int),
{
    let ndc_x: u64 = ((j as u64) * 1_000_000) / (width as u64);
    let ndc_y: u64 = ((i as u64) * 1_000_000) / (height as u64);
    proof {
        assert((j as int) * 1_000_000 <= 1_000_000_000_000) by (nonlinear_arith)
            requires
                j <= 1_000_000,
        ;
        assert((i as int) * 1_000_000 <= 1_000_000_000_000) by (nonlinear_arith)
            requires
                i <= 1_000_000,
        ;
        assert(ndc_x <= 1_000_000_000_000 && ndc_y <= 1_000_000_000_000) by (nonlinear_arith)
            requires
                ndc_x == ((j as int) * 1_000_000) / (width as int),
                ndc_y == ((i as int) * 1_000_000) / (height as int),
                (j as int) * 1_000_000 <= 1_000_000_000_000,
                (i as int) * 1_000_000 <= 1_000_000_000_000,
                width >= 1,
                height >= 1,
                ndc_x >= 0,
                ndc_y >= 0,
        ;
    }
    (2 * (ndc_x as i64) - 1_000_000, 1_000_000 - 2 * (ndc_y as i64))
}

impl Camera {
    /// The pivot point the camera orbits.
    pub fn get_pivot(&self) -> (r: Vec3)
        ensures
            r == self.view.pivot,
    {
        self.view.pivot
    }

    /// Pivot the camera by the given mouse pointer delta.
    pub fn pivot(&mut self, delta_x: i64, delta_y: i64)
        requires
            i64::MIN <= fx_mul_spec(delta_x as int, old(self).control.swivel_sensitivity as int)
                <= i64::MAX,
            i64::MIN <= fx_mul_spec(delta_y as int, old(self).control.swivel_sensitivity as int)
                <= i64::MAX,
            i64::MIN <= old(self).view.yaw + fx_mul_spec(
                delta_x as int,
                old(self).control.swivel_sensitivity as int,
            ) <= i64::MAX,
            i64::MIN <= old(self).view.pitch + fx_mul_spec(
                delta_y as int,
                old(self).control.swivel_sensitivity as int,
            ) <= i64::MAX,
        ensures
            final(self).proj == old(self).proj,
            final(self).control == old(self).control,
            final(self).view.yaw == old(self).view.yaw + fx_mul_spec(
                delta_x as int,
                old(self).control.swivel_sensitivity as int,
            ),
            final(self).view.pitch == {
                let raw = old(self).view.pitch + fx_mul_spec(
                    delta_y as int,
                    old(self).control.swivel_sensitivity as int,
                );
                if raw < -HALF_PI_FX {
                    -HALF_PI_FX as int
                } else if raw > HALF_PI_FX {
                    HALF_PI_FX as int
                } else {
                    raw
                }
            },
            final(self).view.pivot == old(self).view.pivot,
            final(self).view.distance == old(self).view.distance,
            final(self).view.wf(),
    {
        let mut view = self.view;
        self.control.pivot(&mut view, delta_x, delta_y);
        self.view = view;
    }

    /// Apply a world-space pan displacement to the camera pivot.
    pub fn pan_world(&mut self, delta: Vec3)
        requires
            i64::MIN <= old(self).view.pivot.x + delta.x <= i64::MAX,
            i64::MIN <= old(self).view.pivot.y + delta.y <= i64::MAX,
            i64::MIN <= old(self).view.pivot.z + delta.z <= i64::MAX,
        ensures
            final(self).proj == old(self).proj,
            final(self).control == old(self).control,
            final(self).view.pivot.x == old(self).view.pivot.x + delta.x,
            final(self).view.pivot.y == old(self).view.pivot.y + delta.y,
            final(self).view.pivot.z == old(self).view.pivot.z + delta.z,
            final(self).view.distance == old(self).view.distance,
            final(self).view.yaw == old(self).view.yaw,
            final(self).view.pitch == old(self).view.pitch,
    {
        let mut view = self.view;
        self.control.pan_world(&mut view, delta);
        self.view = view;
    }

    /// Zoom the camera by the given mouse scroll delta.
    pub fn zoom(&mut self, delta: i64)
        requires
            i64::MIN <= fx_mul_spec(
                old(self).control.zoom_sensitivity as int,
                old(self).control.zoom_sensitivity as int,
            ) <= i64::MAX,
            i64::MIN <= fx_mul_spec(
                delta as int,
                fx_mul_spec(
                    old(self).control.zoom_sensitivity as int,
                    old(self).control.zoom_sensitivity as int,
                ),
            ) <= i64::MAX,
            i64::MIN <= fx_mul_spec(
                fx_mul_spec(
                    delta as int,
                    fx_mul_spec(
                        old(self).control.zoom_sensitivity as int,
                        old(self).control.zoom_sensitivity as int,
                    ),
                ),
                old(self).view.distance as int,
            ) <= i64::MAX,
            i64::MIN <= old(self).view.distance + fx_mul_spec(
                fx_mul_spec(
                    delta as int,
                    fx_mul_spec(
                        old(self).control.zoom_sensitivity as int,
                        old(self).control.zoom_sensitivity as int,
                    ),
                ),
                old(self).view.distance as int,
            ) <= i64::MAX,
        ensures
            final(self).proj == old(self).proj,
            final(self).control == old(self).control,
            final(self).view.distance >= old(self).control.closest_zoom,
            final(self).view.distance == {
                let grown = old(self).view.distance + fx_mul_spec(
                    fx_mul_spec(
                        delta as int,
                        fx_mul_spec(
                            old(self).control.zoom_sensitivity as int,
                            old(self).control.zoom_sensitivity as int,
                        ),
                    ),
                    old(self).view.distance as int,
                );
                if grown >= old(self).control.closest_zoom {
                    grown
                } else {
                    old(self).control.closest_zoom as int
                }
            },
            final(self).view.pivot == old(self).view.pivot,
            final(self).view.yaw == old(self).view.yaw,
            final(self).view.pitch == old(self).view.pitch,
    {
        let mut view = self.view;
        self.control.zoom(&mut view, delta);
        self.view = view;
    }
}

} // verus!
