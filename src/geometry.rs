use vstd::prelude::*;

use crate::helper::{SHAPE_BOX, SHAPE_CAPSULE, SHAPE_SPHERE};
use crate::types::{Quat, Vector3, Vector4};

pub mod capsule;
pub mod cube;
pub mod sphere;

pub use capsule::Capsule;
pub use cube::Cube;
pub use sphere::Sphere;

verus! {

/// The solver-native geometry record of one collision shape; which variant
/// it is decides how the solver reads the record's dimensions.
#[derive(Clone, Copy, Debug, PartialEq, Eq, Structural)]
pub enum CollisionGeometry {
    Sphere { radius: u32 },
    Capsule { radius: u32, half_height: u32 },
    Box { half_extents: Vector3 },
}

/// The shape kind tag that the solver associates with a geometry record.
pub open spec fn geometry_kind(g: CollisionGeometry) -> i32 {
    match g {
        CollisionGeometry::Sphere { .. } => SHAPE_SPHERE,
        CollisionGeometry::Capsule { .. } => SHAPE_CAPSULE,
        CollisionGeometry::Box { .. } => SHAPE_BOX,
    }
}

/// A registered collision shape: one of a closed set of kinds, each with a
/// position (last component unused) and an orientation.
#[derive(Clone, Copy, Debug, PartialEq, Eq, Structural)]
pub enum Shape {
    Cube(Cube),
    Capsule(Capsule),
    Sphere(Sphere),
}

impl Shape {
    pub open spec fn geometry(self) -> CollisionGeometry {
        match self {
            Shape::Cube(c) => CollisionGeometry::Box { half_extents: c.extents },
            Shape::Capsule(c) => CollisionGeometry::Capsule {
                radius: c.radius,
                half_height: c.half_height,
            },
            Shape::Sphere(s) => CollisionGeometry::Sphere { radius: s.radius },
        }
    }

    pub open spec fn kind_tag(self) -> i32 {
        geometry_kind(self.geometry())
    }

    pub open spec fn pos(self) -> Vector4 {
        match self {
            Shape::Cube(c) => c.pos,
            Shape::Capsule(c) => c.pos,
            Shape::Sphere(s) => s.pos,
        }
    }

    pub open spec fn rot(self) -> Quat {
        match self {
            Shape::Cube(c) => c.rot,
            Shape::Capsule(c) => c.rot,
            Shape::Sphere(s) => s.rot,
        }
    }

    /// The shape that a geometry record describes at the given pose.
    pub open spec fn from_parts(g: CollisionGeometry, pos: Vector4, rot: Quat) -> Shape {
        match g {
            CollisionGeometry::Sphere { radius } => Shape::Sphere(Sphere { pos, rot, radius }),
            CollisionGeometry::Capsule { radius, half_height } => Shape::Capsule(
                Capsule { pos, rot, radius, half_height },
            ),
            CollisionGeometry::Box { half_extents } => Shape::Cube(
                Cube { pos, rot, extents: half_extents },
            ),
        }
    }

    /// The solver's geometry record of this shape.
    pub fn as_union(&self) -> (r: CollisionGeometry)
        ensures
            r == self.geometry(),
    {
        match self {
            Shape::Cube(cube) => cube.as_union(),
            Shape::Capsule(capsule) => capsule.as_union(),
            Shape::Sphere(sphere) => sphere.as_union(),
        }
    }

    /// The shape's kind tag: box, capsule or sphere.
    pub fn kind(&self) -> (r: i32)
        ensures
            r == self.kind_tag(),
    {
        match self {
            Shape::Cube(_) => SHAPE_BOX,
            Shape::Capsule(_) => SHAPE_CAPSULE,
            Shape::Sphere(_) => SHAPE_SPHERE,
        }
    }

    pub fn get_pos(&self) -> (r: &Vector4)
        ensures
            *r == self.pos(),
    {
        match self {
            Shape::Cube(cube) => &cube.pos,
            Shape::Capsule(capsule) => &capsule.pos,
            Shape::Sphere(sphere) => &sphere.pos,
        }
    }

    pub fn get_rot(&self) -> (r: &Quat)
        ensures
            *r == self.rot(),
    {
        match self {
            Shape::Cube(cube) => &cube.rot,
            Shape::Capsule(capsule) => &capsule.rot,
            Shape::Sphere(sphere) => &sphere.rot,
        }
    }

    /// Builds the shape that a geometry record describes at the given pose.
    pub fn from_geometry(g: CollisionGeometry, pos: Vector4, rot: Quat) -> (r: Shape)
        ensures
            r == Shape::from_parts(g, pos, rot),
            r.geometry() == g,
            r.pos() == pos,
            r.rot() == rot,
    {
        match g {
            CollisionGeometry::Sphere { radius } => Shape::Sphere(Sphere::new(pos, rot, radius)),
            CollisionGeometry::Capsule { radius, half_height } => Shape::Capsule(
                Capsule::new(pos, rot, radius, half_height),
            ),
            CollisionGeometry::Box { half_extents } => Shape::Cube(
                Cube::new(pos, rot, half_extents),
            ),
        }
    }
}

} // verus!
