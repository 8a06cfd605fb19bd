use vstd::prelude::*;

verus! {

/// Particle slots allocated for a session.
pub const MAX_PARTICLES: usize = 2000;

/// Collision shape slots allocated for a session.
pub const MAX_SHAPES: usize = 1000;

/// Dynamic triangle slots allocated for a session.
pub const MAX_TRIANGLES: usize = 1000;

/// Bit pattern of 50000.0, the half width and half length of a ground box.
pub const GROUND_HALF_WIDTH: u32 = 0x4743_5000;

/// Bit pattern of 5.0, the half height of a ground box.
pub const GROUND_HALF_HEIGHT: u32 = 0x40a0_0000;

/// Bit pattern of 1.0.
pub const ONE: u32 = 0x3f80_0000;

} // verus!
