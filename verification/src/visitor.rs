//! The visitor seam the host's renderer implements: one callback per
//! component kind, and the dispatch hook on each component.

use vstd::prelude::*;

verus! {

use crate::bounding_box::BoundingBox;
use crate::camera::Camera;
use crate::cloud::Cloud;
use crate::scene::{Component, Grid, Sun};

/// A per-frame walker over scene components.
pub trait Visitor {
    fn visit_camera(&mut self, camera: &Camera);

    fn visit_cloud(&mut self, cloud: &Cloud);

    fn visit_grid(&mut self, grid: &Grid);

    fn visit_bounding_box(&mut self, bb: &BoundingBox);

    fn visit_sun(&mut self, sun: &Sun);
}

/// A component that can hand itself to a visitor.
pub trait Visitable {
    fn accept<V: Visitor>(&self, visitor: &mut V);
}

impl Visitable for BoundingBox {
    fn accept<V: Visitor>(&self, visitor: &mut V) {
        visitor.visit_bounding_box(self)
    }
}

impl Visitable for Cloud {
    fn accept<V: Visitor>(&self, visitor: &mut V) {
        visitor.visit_cloud(self)
    }
}

impl Visitable for Grid {
    fn accept<V: Visitor>(&self, visitor: &mut V) {
        visitor.visit_grid(self)
    }
}

impl Visitable for Camera {
    fn accept<V: Visitor>(&self, visitor: &mut V) {
        visitor.visit_camera(self)
    }
}

impl Visitable for Sun {
    fn accept<V: Visitor>(&self, visitor: &mut V) {
        visitor.visit_sun(self)
    }
}

impl Visitable for Component {
    /// Dispatch over the closed component sum.
    fn accept<V: Visitor>(&self, visitor: &mut V) {
        match self {
            Component::Cloud(c) => visitor.visit_cloud(c),
            Component::Sun(s) => visitor.visit_sun(s),
            Component::Grid(g) => visitor.visit_grid(g),
            Component::BoundingBox(b) => visitor.visit_bounding_box(b),
            Component::Camera(c) => visitor.visit_camera(c),
        }
    }
}

} // verus!
