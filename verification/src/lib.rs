//! Volumetric cloud viewer core: fixed-point math kernel, axis-aligned
//! bounding boxes, an arcball camera, a command-dispatched scene model and a
//! CPU ray-march renderer for a procedural density volume.
//!
//! All world quantities are carried in signed 64-bit fixed point with a
//! decimal scale of one million units per world unit, so every operation the
//! library performs is exact integer arithmetic with a stated contract.

pub mod bounding_box;
pub mod camera;
pub mod cloud;
pub mod color;
pub mod command;
pub mod fixed;
pub mod noise;
pub mod render;
pub mod scene;
pub mod vec3;
pub mod visitor;
