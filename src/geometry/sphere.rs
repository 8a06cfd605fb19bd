use vstd::prelude::*;

use super::{CollisionGeometry, Shape};
use crate::types::{Quat, Vector4};

verus! {

/// A sphere collision shape.
#[derive(Clone, Copy, Debug, PartialEq, Eq, Structural)]
pub struct Sphere {
    pub pos: Vector4,
    pub rot: Quat,
    pub radius: u32,
}

impl Sphere {
    pub fn new(pos: Vector4, rot: Quat, radius: u32) -> (r: Sphere)
        ensures
            r == (Sphere { pos, rot, radius }),
    {
        Sphere { pos, rot, radius }
    }

    /// The solver's geometry record of this sphere.
    pub fn as_union(&self) -> (r: CollisionGeometry)
        ensures
            r == (CollisionGeometry::Sphere { radius: self.radius }),
    {
        CollisionGeometry::Sphere { radius: self.radius }
    }
}

impl From<Sphere> for Shape {
    fn from(sphere: Sphere) -> (r: Shape)
        ensures
            r == Shape::Sphere(sphere),
    {
        Shape::Sphere(sphere)
    }
}

impl vstd::std_specs::convert::FromSpecImpl<Sphere> for Shape {
    open spec fn obeys_from_spec() -> bool {
        true
    }

    open spec fn from_spec(sphere: Sphere) -> Shape {
        Shape::Sphere(sphere)
    }
}

} // verus!
