use vstd::prelude::*;

pub mod factory;
pub mod particle;
pub mod shapes;
pub mod triangles;

pub use factory::ParticleFactory;
pub use particle::{ParticleBuffers, ParticleInit, ParticleState};
pub use shapes::{ShapeBuffers, ShapeState};
pub use triangles::{TriangleBuffers, TriangleState};

use crate::config::{GROUND_HALF_HEIGHT, GROUND_HALF_WIDTH, MAX_PARTICLES, MAX_SHAPES, MAX_TRIANGLES, ONE};
use crate::geometry::{CollisionGeometry, Shape};
use crate::helper::{make_shape_flags, SHAPE_BOX};
use crate::types::{Particle, Quat, Vector3, Vector4};

verus! {

/// Why a creation was refused.
#[derive(Clone, Copy, Debug, PartialEq, Eq, Structural)]
pub enum CreateError {
    /// The store is full: every slot of its buffers is taken.
    Max,
}

/// Which stores' buffers are due to be handed to the solver.
#[derive(Clone, Copy, Debug, PartialEq, Eq, Structural)]
pub struct Uploads {
    pub particles: bool,
    pub shapes: bool,
    pub triangles: bool,
}

/// The geometry record of a ground box: very wide, very thin.
pub open spec fn ground_geometry() -> CollisionGeometry {
    CollisionGeometry::Box { half_extents: Vector3(GROUND_HALF_WIDTH, GROUND_HALF_WIDTH, GROUND_HALF_HEIGHT) }
}

/// The orientations of the three ground boxes of the default scene.
pub open spec fn ground_rotations() -> Seq<Quat> {
    seq![Quat(0, 0, 0, 0), Quat(0, ONE, 0, 0), Quat(ONE, 0, 0, 0)]
}

/// The three static ground boxes of the default scene, at the origin.
pub open spec fn ground_boxes() -> Seq<Shape> {
    ground_rotations().map_values(|rot: Quat| Shape::from_parts(ground_geometry(), Vector4(0, 0, 0, 0), rot))
}

/// A simulation session: the three stores the solver reads, and the time
/// of the last step.
pub struct FlexState {
    /// When the previous step was taken (or the session started), in
    /// nanoseconds of a monotonic clock.
    pub last_tick: u64,
    pub particles: ParticleState,
    pub shapes: ShapeState,
    pub triangles: TriangleState,
}

impl FlexState {
    pub open spec fn wf(&self) -> bool {
        &&& self.particles.wf()
        &&& self.shapes.wf()
        &&& self.triangles.wf()
    }

    /// Builds the three stores at their fixed capacities, all empty and
    /// clean, with `now` as the start of the first step.
    pub fn new(now: u64) -> (r: FlexState)
        ensures
            r.wf(),
            r.last_tick == now,
            r.particles.count() == 0,
            r.particles.capacity() == MAX_PARTICLES,
            !r.particles.dirty(),
            r.shapes.list() == Seq::<Shape>::empty(),
            r.shapes.capacity() == MAX_SHAPES,
            !r.shapes.dirty(),
            r.triangles.count() == 0,
            r.triangles.capacity() == MAX_TRIANGLES,
            !r.triangles.dirty(),
    {
        FlexState {
            last_tick: now,
            particles: ParticleState::new(MAX_PARTICLES),
            shapes: ShapeState::new(MAX_SHAPES),
            triangles: TriangleState::new(MAX_TRIANGLES),
        }
    }

    /// Loads the default scene: the three ground boxes, then the particles
    /// of `scene` in one batch, and flushes all three stores. Either all of
    /// it fits and is added, or nothing is added and the capacity error is
    /// returned. On success the result tells which stores had changes, that
    /// is, whose buffers are now due to be handed to the solver; every store
    /// is clean afterwards.
    pub fn init(&mut self, scene: &Vec<ParticleInit>) -> (r: Result<Uploads, CreateError>)
        requires
            old(self).wf(),
        ensures
            final(self).wf(),
            final(self).last_tick == old(self).last_tick,
            r is Ok <==> (old(self).shapes.count() + 3 <= old(self).shapes.capacity()
                && old(self).particles.count() + scene@.len() <= old(self).particles.capacity()),
            r is Err ==> *final(self) == *old(self),
            r is Ok ==> final(self).shapes.list() == old(self).shapes.list() + ground_boxes(),
            r is Ok ==> ParticleState::appended_contents(old(self).particles, final(self).particles, scene@),
            r is Ok ==> final(self).triangles.same_contents(&old(self).triangles),
            r is Ok ==> !final(self).particles.dirty() && !final(self).shapes.dirty() && !final(self).triangles.dirty(),
            r matches Ok(u) ==> u == (Uploads {
                particles: old(self).particles.dirty() || scene@.len() > 0,
                shapes: true,
                triangles: old(self).triangles.dirty(),
            }),
    {
        let shape_count = self.shapes.get_count();
        let particle_count = self.particles.get_count();
        if shape_count + 3 > self.shapes.get_capacity()
            || scene.len() > self.particles.get_capacity() - particle_count {
            return Err(CreateError::Max);
        }
        let ground = CollisionGeometry::Box {
            half_extents: Vector3(GROUND_HALF_WIDTH, GROUND_HALF_WIDTH, GROUND_HALF_HEIGHT),
        };
        let flag = make_shape_flags(SHAPE_BOX, false);
        let r0 = self.shapes.create(ground, Vector4::zero(), Quat(0, 0, 0, 0), flag);
        let r1 = self.shapes.create(ground, Vector4::zero(), Quat(0, ONE, 0, 0), flag);
        let r2 = self.shapes.create(ground, Vector4::zero(), Quat(ONE, 0, 0, 0), flag);
        let rp = self.particles.factory(scene);
        // The room was checked above, so every creation succeeded.
        assert(r0 is Ok && r1 is Ok && r2 is Ok && rp is Ok);
        assert(self.shapes.list() =~= old(self).shapes.list() + ground_boxes());
        let particles = self.particles.flush();
        let shapes = self.shapes.flush();
        let triangles = self.triangles.flush();
        Ok(Uploads { particles, shapes, triangles })
    }

    /// Starts a step at `now`: returns the nanoseconds elapsed since the
    /// previous step (none if the clock reads earlier) and makes `now` the
    /// start of the next one.
    pub fn tick(&mut self, now: u64) -> (r: u64)
        ensures
            r == if now >= old(self).last_tick { now - old(self).last_tick } else { 0 },
            final(self).last_tick == now,
            final(self).particles == old(self).particles,
            final(self).shapes == old(self).shapes,
            final(self).triangles == old(self).triangles,
    {
        let dt = if now >= self.last_tick { now - self.last_tick } else { 0 };
        self.last_tick = now;
        dt
    }

    /// Reads every particle back as an owned copy.
    pub fn get(&mut self) -> (r: Vec<Particle>)
        requires
            old(self).wf(),
        ensures
            final(self).wf(),
            ParticleState::read_outcome(old(self).particles, final(self).particles, r@),
            final(self).shapes == old(self).shapes,
            final(self).triangles == old(self).triangles,
            final(self).last_tick == old(self).last_tick,
    {
        self.particles.get()
    }
}

} // verus!
