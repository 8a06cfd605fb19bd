use vstd::prelude::*;

use super::{CollisionGeometry, Shape};
use crate::types::{Quat, Vector4};

verus! {

/// A capsule collision shape: a cylinder with hemispherical caps.
#[derive(Clone, Copy, Debug, PartialEq, Eq, Structural)]
pub struct Capsule {
    pub pos: Vector4,
    pub rot: Quat,
    pub radius: u32,
    pub half_height: u32,
}

impl Capsule {
    pub fn new(pos: Vector4, rot: Quat, radius: u32, half_height: u32) -> (r: Capsule)
        ensures
            r == (Capsule { pos, rot, radius, half_height }),
    {
        Capsule { pos, rot, radius, half_height }
    }

    /// The solver's geometry record of this capsule.
    pub fn as_union(&self) -> (r: CollisionGeometry)
        ensures
            r == (CollisionGeometry::Capsule { radius: self.radius, half_height: self.half_height }),
    {
        CollisionGeometry::Capsule { radius: self.radius, half_height: self.half_height }
    }
}

impl From<Capsule> for Shape {
    fn from(capsule: Capsule) -> (r: Shape)
        ensures
            r == Shape::Capsule(capsule),
    {
        Shape::Capsule(capsule)
    }
}

impl vstd::std_specs::convert::FromSpecImpl<Capsule> for Shape {
    open spec fn obeys_from_spec() -> bool {
        true
    }

    open spec fn from_spec(capsule: Capsule) -> Shape {
        Shape::Capsule(capsule)
    }
}

} // verus!
