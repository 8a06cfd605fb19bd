use vstd::prelude::*;

verus! {

/// Three single-precision components, each held as its IEEE-754 bit pattern,
/// in the layout the solver reads (x, y, z).
#[derive(Clone, Copy, Debug, PartialEq, Eq, Structural)]
pub struct Vector3(pub u32, pub u32, pub u32);

/// Four single-precision components as IEEE-754 bit patterns: x, y, z and,
/// for particles, the inverse mass.
#[derive(Clone, Copy, Debug, PartialEq, Eq, Structural)]
pub struct Vector4(pub u32, pub u32, pub u32, pub u32);

/// A rotation quaternion, four IEEE-754 bit patterns in the solver's order.
#[derive(Clone, Copy, Debug, PartialEq, Eq, Structural)]
pub struct Quat(pub u32, pub u32, pub u32, pub u32);

/// An owned copy of one particle as read back from the transfer buffers.
#[derive(Clone, Copy, Debug, PartialEq, Eq, Structural)]
pub struct Particle {
    /// Position and inverse mass.
    pub pdata: Vector4,
    pub velocity: Vector3,
    /// Opaque collision-group and material bitmask.
    pub phase: i32,
}

impl Vector3 {
    /// The vector whose components are all +0.0.
    pub fn zero() -> (r: Vector3)
        ensures
            r == Vector3(0, 0, 0),
    {
        Vector3(0, 0, 0)
    }
}

impl Vector4 {
    /// The vector whose components are all +0.0.
    pub fn zero() -> (r: Vector4)
        ensures
            r == Vector4(0, 0, 0, 0),
    {
        Vector4(0, 0, 0, 0)
    }
}

impl Quat {
    /// The quaternion whose components are all +0.0.
    pub fn zero() -> (r: Quat)
        ensures
            r == Quat(0, 0, 0, 0),
    {
        Quat(0, 0, 0, 0)
    }
}

} // verus!
