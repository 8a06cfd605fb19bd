use vstd::prelude::*;

verus! {

/// Bits 0 to 19 of a phase: the particle group.
pub const PHASE_GROUP_MASK: i32 = 0x000f_ffff;

/// Bits 20 to 23 of a phase: behaviour flags.
pub const PHASE_FLAGS_MASK: i32 = 0x00f0_0000;

/// Bits 24 to 30 of a phase: the shape channels a particle collides with.
pub const PHASE_SHAPE_CHANNEL_MASK: i32 = 0x7f00_0000;

/// The particle interacts with particles of its own group.
pub const PHASE_SELF_COLLIDE: i32 = 0x0010_0000;

/// The particle takes part in fluid density constraints.
pub const PHASE_FLUID: i32 = 0x0040_0000;

/// Collision shape kind: sphere.
pub const SHAPE_SPHERE: i32 = 0;

/// Collision shape kind: capsule.
pub const SHAPE_CAPSULE: i32 = 1;

/// Collision shape kind: box.
pub const SHAPE_BOX: i32 = 2;

/// Shape flag bit of a dynamic (lower priority) shape.
pub const SHAPE_FLAG_DYNAMIC: i32 = 0x8;

/// The phase of a particle in `group` with behaviour `flags`, colliding with
/// every shape channel.
pub open spec fn phase_of(group: i32, flags: i32) -> i32 {
    (group & PHASE_GROUP_MASK) | (flags & PHASE_FLAGS_MASK) | PHASE_SHAPE_CHANNEL_MASK
}

/// The flags word of a shape of `kind`, colliding on every channel.
pub open spec fn shape_flags_of(kind: i32, dynamic: bool) -> i32 {
    kind | (if dynamic { SHAPE_FLAG_DYNAMIC } else { 0i32 }) | PHASE_SHAPE_CHANNEL_MASK
}

/// Builds a particle phase from a group and behaviour flags.
pub fn make_phase(group: i32, flags: i32) -> (r: i32)
    ensures
        r == phase_of(group, flags),
{
    (group & PHASE_GROUP_MASK) | (flags & PHASE_FLAGS_MASK) | PHASE_SHAPE_CHANNEL_MASK
}

/// Builds the flags word of a collision shape.
pub fn make_shape_flags(kind: i32, dynamic: bool) -> (r: i32)
    ensures
        r == shape_flags_of(kind, dynamic),
{
    let dynamic_bit: i32 = if dynamic { SHAPE_FLAG_DYNAMIC } else { 0 };
    kind | dynamic_bit | PHASE_SHAPE_CHANNEL_MASK
}

/// The phase of a self-colliding fluid particle in group 0.
pub fn fluid_phase() -> (r: i32)
    ensures
        r == phase_of(0, PHASE_SELF_COLLIDE | PHASE_FLUID),
        r == 0x7f50_0000,
{
    let r = make_phase(0, PHASE_SELF_COLLIDE | PHASE_FLUID);
    assert(phase_of(0, PHASE_SELF_COLLIDE | PHASE_FLUID) == 0x7f50_0000) by (bit_vector);
    r
}

} // verus!
