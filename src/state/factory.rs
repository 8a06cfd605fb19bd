use vstd::prelude::*;

use super::particle::ParticleBuffers;
use crate::types::{Vector3, Vector4};

verus! {

/// Appends particles into a set of particle buffers that stay mapped for the
/// whole batch. The factory never maps or unmaps: its owner maps the buffers
/// before building it and unmaps them after taking them back.
pub struct ParticleFactory {
    /// The slot the next particle goes to.
    pub nparticles: usize,
    buffers: ParticleBuffers,
}

impl ParticleFactory {
    /// The buffers being written.
    pub closed spec fn slots(&self) -> ParticleBuffers {
        self.buffers
    }

    /// The slot the next particle goes to.
    pub closed spec fn next_slot(&self) -> nat {
        self.nparticles as nat
    }

    pub open spec fn capacity(&self) -> nat {
        self.slots().buffer@.len()
    }

    /// The buffers are mapped, of equal size, and the next slot is within them.
    pub open spec fn wf(&self) -> bool {
        &&& self.slots().sized(self.capacity())
        &&& self.slots().all_mapped()
        &&& self.next_slot() <= self.capacity()
    }

    /// Starts writing at `offset`, or at the first slot when none is given.
    pub fn new(offset: Option<usize>, buffers: ParticleBuffers) -> (r: ParticleFactory)
        requires
            buffers.sized(buffers.buffer@.len()),
            buffers.all_mapped(),
            match offset {
                Some(o) => o <= buffers.buffer@.len(),
                None => true,
            },
        ensures
            r.wf(),
            r.slots() == buffers,
            r.next_slot() == match offset {
                Some(o) => o,
                None => 0,
            },
    {
        let start = match offset {
            Some(o) => o,
            None => 0,
        };
        ParticleFactory { nparticles: start, buffers }
    }

    /// Writes one particle into the next slot of every buffer, recording the
    /// slot as active.
    pub fn create(&mut self, pos: Vector4, velocity: Vector3, phase: i32, _active: bool)
        requires
            old(self).wf(),
            old(self).next_slot() < old(self).capacity(),
        ensures
            final(self).wf(),
            final(self).next_slot() == old(self).next_slot() + 1,
            final(self).capacity() == old(self).capacity(),
            final(self).slots().buffer@ == old(self).slots().buffer@.update(old(self).next_slot() as int, pos),
            final(self).slots().velocities@ == old(self).slots().velocities@.update(
                old(self).next_slot() as int,
                velocity,
            ),
            final(self).slots().phases@ == old(self).slots().phases@.update(old(self).next_slot() as int, phase),
            final(self).slots().active_indices@ == old(self).slots().active_indices@.update(
                old(self).next_slot() as int,
                old(self).next_slot() as i32,
            ),
    {
        let index = self.nparticles;
        self.buffers.buffer.write(index, pos);
        self.buffers.velocities.write(index, velocity);
        self.buffers.phases.write(index, phase);
        self.buffers.active_indices.write(index, index as i32);
        self.nparticles = index + 1;
    }

    /// Hands the still mapped buffers back.
    pub fn finish(self) -> (r: ParticleBuffers)
        ensures
            r == self.slots(),
    {
        self.buffers
    }
}

} // verus!
