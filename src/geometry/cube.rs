use vstd::prelude::*;

use super::{CollisionGeometry, Shape};
use crate::types::{Quat, Vector3, Vector4};

verus! {

/// A box collision shape given by its half extents.
#[derive(Clone, Copy, Debug, PartialEq, Eq, Structural)]
pub struct Cube {
    pub pos: Vector4,
    pub rot: Quat,
    /// Half extents along x, y and z.
    pub extents: Vector3,
}

impl Cube {
    pub fn new(pos: Vector4, rot: Quat, extents: Vector3) -> (r: Cube)
        ensures
            r == (Cube { pos, rot, extents }),
    {
        Cube { pos, rot, extents }
    }

    /// The solver's geometry record of this box.
    pub fn as_union(&self) -> (r: CollisionGeometry)
        ensures
            r == (CollisionGeometry::Box { half_extents: self.extents }),
    {
        CollisionGeometry::Box { half_extents: self.extents }
    }
}

impl From<Cube> for Shape {
    fn from(cube: Cube) -> (r: Shape)
        ensures
            r == Shape::Cube(cube),
    {
        Shape::Cube(cube)
    }
}

impl vstd::std_specs::convert::FromSpecImpl<Cube> for Shape {
    open spec fn obeys_from_spec() -> bool {
        true
    }

    open spec fn from_spec(cube: Cube) -> Shape {
        Shape::Cube(cube)
    }
}

} // verus!
