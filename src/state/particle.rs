use vstd::prelude::*;


use super::factory::ParticleFactory;
use super::CreateError;
use crate::buffer::{lemma_overwrite_empty, lemma_overwrite_push, overwrite, HostBuffer};
use crate::types::{Particle, Vector3, Vector4};

verus! {

/// The four parallel transfer buffers of the particle store.
pub struct ParticleBuffers {
    /// Position and inverse mass of each particle.
    pub buffer: HostBuffer<Vector4>,
    pub velocities: HostBuffer<Vector3>,
    pub phases: HostBuffer<i32>,
    /// Indices of the particles the solver simulates.
    pub active_indices: HostBuffer<i32>,
}

/// What a new particle is made of.
#[derive(Clone, Copy, Debug, PartialEq, Eq, Structural)]
pub struct ParticleInit {
    pub pos: Vector4,
    pub velocity: Vector3,
    pub phase: i32,
    pub active: bool,
}

impl ParticleBuffers {
    /// Every buffer has `cap` slots, and `cap` fits the solver's counts.
    pub open spec fn sized(&self, cap: nat) -> bool {
        &&& self.buffer@.len() == cap
        &&& self.velocities@.len() == cap
        &&& self.phases@.len() == cap
        &&& self.active_indices@.len() == cap
        &&& cap <= i32::MAX
    }

    pub open spec fn all_mapped(&self) -> bool {
        &&& self.buffer.mapped()
        &&& self.velocities.mapped()
        &&& self.phases.mapped()
        &&& self.active_indices.mapped()
    }

    pub open spec fn none_mapped(&self) -> bool {
        &&& !self.buffer.mapped()
        &&& !self.velocities.mapped()
        &&& !self.phases.mapped()
        &&& !self.active_indices.mapped()
    }

    /// The two sets of buffers hold the same slots.
    pub open spec fn same_slots(&self, other: &ParticleBuffers) -> bool {
        &&& self.buffer@ == other.buffer@
        &&& self.velocities@ == other.velocities@
        &&& self.phases@ == other.phases@
        &&& self.active_indices@ == other.active_indices@
    }

    /// Allocates `max` slots in each buffer, all zero and unmapped.
    pub fn new(max: usize) -> (r: ParticleBuffers)
        requires
            max <= i32::MAX,
        ensures
            r.sized(max as nat),
            r.none_mapped(),
            r.buffer@ == Seq::new(max as nat, |i: int| Vector4(0, 0, 0, 0)),
            r.velocities@ == Seq::new(max as nat, |i: int| Vector3(0, 0, 0)),
            r.phases@ == Seq::new(max as nat, |i: int| 0i32),
            r.active_indices@ == Seq::new(max as nat, |i: int| 0i32),
    {
        ParticleBuffers {
            buffer: HostBuffer::new(max, Vector4::zero()),
            velocities: HostBuffer::new(max, Vector3::zero()),
            phases: HostBuffer::new(max, 0),
            active_indices: HostBuffer::new(max, 0),
        }
    }

    /// Number of slots in each buffer.
    pub fn capacity(&self) -> (r: usize)
        ensures
            r == self.buffer@.len(),
    {
        self.buffer.capacity()
    }

    fn map_all(&mut self)
        requires
            old(self).none_mapped(),
        ensures
            final(self).all_mapped(),
            final(self).same_slots(old(self)),
    {
        self.buffer.map();
        self.velocities.map();
        self.phases.map();
        self.active_indices.map();
    }

    fn unmap_all(&mut self)
        requires
            old(self).all_mapped(),
        ensures
            final(self).none_mapped(),
            final(self).same_slots(old(self)),
    {
        self.buffer.unmap();
        self.velocities.unmap();
        self.phases.unmap();
        self.active_indices.unmap();
    }

    /// Releases the mapping of every buffer that is mapped.
    pub fn unmap(&mut self)
        ensures
            final(self).none_mapped(),
            final(self).same_slots(old(self)),
    {
        if self.buffer.is_mapped() {
            self.buffer.unmap();
        }
        if self.velocities.is_mapped() {
            self.velocities.unmap();
        }
        if self.phases.is_mapped() {
            self.phases.unmap();
        }
        if self.active_indices.is_mapped() {
            self.active_indices.unmap();
        }
    }
}

/// The particle store: a logical, append-only list of particles mirrored in
/// four parallel buffers, and a flag telling whether the solver has yet to
/// receive the buffers' latest contents.
pub struct ParticleState {
    has_changes: bool,
    /// For each particle, its slot and whether it is active.
    particles: Vec<(usize, bool)>,
    buffers: ParticleBuffers,
}

impl ParticleState {
    /// Number of particles created so far.
    pub closed spec fn count(&self) -> nat {
        self.particles@.len()
    }

    /// Number of slots, fixed at construction.
    pub closed spec fn capacity(&self) -> nat {
        self.buffers.buffer@.len()
    }

    /// Whether the buffers changed since the solver last received them.
    pub closed spec fn dirty(&self) -> bool {
        self.has_changes
    }

    /// The active flag each particle was created with.
    pub closed spec fn active_flags(&self) -> Seq<bool> {
        self.particles@.map_values(|p: (usize, bool)| p.1)
    }

    /// The transfer buffers, every slot of them.
    pub closed spec fn slots(&self) -> ParticleBuffers {
        self.buffers
    }

    /// Each particle records its own slot.
    pub closed spec fn inv(&self) -> bool {
        forall|i: int| 0 <= i < self.particles@.len() ==> #[trigger] self.particles@[i].0 == i
    }

    /// Well-formed and at rest: within capacity, the active-index slot of
    /// each particle holds its own index, and no buffer is mapped.
    pub open spec fn wf(&self) -> bool {
        &&& self.inv()
        &&& self.slots().sized(self.capacity())
        &&& self.count() <= self.capacity()
        &&& forall|i: int| 0 <= i < self.count() ==> #[trigger] self.slots().active_indices@[i] == i
        &&& self.slots().none_mapped()
    }

    /// The particle in slot `i`.
    pub open spec fn record_at(&self, i: int) -> Particle {
        Particle {
            pdata: self.slots().buffer@[i],
            velocity: self.slots().velocities@[i],
            phase: self.slots().phases@[i],
        }
    }

    /// The particles created so far, in order of creation.
    pub open spec fn records(&self) -> Seq<Particle> {
        Seq::new(self.count(), |i: int| self.record_at(i))
    }

    /// Both stores hold the same particles in the same slots.
    pub open spec fn same_contents(&self, other: &ParticleState) -> bool {
        &&& self.count() == other.count()
        &&& self.capacity() == other.capacity()
        &&& self.active_flags() == other.active_flags()
        &&& self.slots().same_slots(&other.slots())
    }

    /// `new` holds what `old` holds with `batch` appended: each item written
    /// to the next free slot of every buffer and its own index recorded as
    /// active.
    pub open spec fn appended_contents(old: ParticleState, new: ParticleState, batch: Seq<ParticleInit>) -> bool {
        let c = old.count() as int;
        &&& new.wf()
        &&& new.capacity() == old.capacity()
        &&& new.count() == old.count() + batch.len()
        &&& new.slots().buffer@ == overwrite(old.slots().buffer@, c, batch.map_values(|p: ParticleInit| p.pos))
        &&& new.slots().velocities@ == overwrite(
            old.slots().velocities@,
            c,
            batch.map_values(|p: ParticleInit| p.velocity),
        )
        &&& new.slots().phases@ == overwrite(old.slots().phases@, c, batch.map_values(|p: ParticleInit| p.phase))
        &&& new.slots().active_indices@ == overwrite(
            old.slots().active_indices@,
            c,
            Seq::new(batch.len(), |i: int| (c + i) as i32),
        )
        &&& new.active_flags() == old.active_flags() + batch.map_values(|p: ParticleInit| p.active)
    }

    /// `new` is `old` with `batch` appended, and marked dirty if anything
    /// was added.
    pub open spec fn appended(old: ParticleState, new: ParticleState, batch: Seq<ParticleInit>) -> bool {
        &&& Self::appended_contents(old, new, batch)
        &&& new.dirty() == (old.dirty() || batch.len() > 0)
    }

    /// `new` is `old` with `p` written to the next free slot of every
    /// buffer, its own index recorded as active, and the store marked dirty.
    pub open spec fn pushed(old: ParticleState, new: ParticleState, p: ParticleInit) -> bool {
        let c = old.count() as int;
        &&& new.wf()
        &&& new.capacity() == old.capacity()
        &&& new.count() == old.count() + 1
        &&& new.slots().buffer@ == old.slots().buffer@.update(c, p.pos)
        &&& new.slots().velocities@ == old.slots().velocities@.update(c, p.velocity)
        &&& new.slots().phases@ == old.slots().phases@.update(c, p.phase)
        &&& new.slots().active_indices@ == old.slots().active_indices@.update(c, c as i32)
        &&& new.active_flags() == old.active_flags().push(p.active)
        &&& new.dirty()
    }

    /// What `create` does: append the particle if a slot is free, else
    /// refuse and leave the store as it was.
    pub open spec fn create_outcome(
        old: ParticleState,
        new: ParticleState,
        p: ParticleInit,
        r: Result<(), CreateError>,
    ) -> bool {
        match r {
            Ok(()) => old.count() < old.capacity() && Self::pushed(old, new, p),
            Err(e) => e == CreateError::Max && old.count() == old.capacity() && new == old,
        }
    }

    /// What `factory` does: append the whole batch if it fits, else refuse
    /// and leave the store as it was.
    pub open spec fn factory_outcome(
        old: ParticleState,
        new: ParticleState,
        batch: Seq<ParticleInit>,
        r: Result<(), CreateError>,
    ) -> bool {
        match r {
            Ok(()) => old.count() + batch.len() <= old.capacity() && Self::appended(old, new, batch),
            Err(e) => e == CreateError::Max && old.count() + batch.len() > old.capacity() && new == old,
        }
    }

    /// What `flush` does: report whether there was anything to upload and
    /// mark the store clean, leaving its contents alone.
    pub open spec fn flushed(old: ParticleState, new: ParticleState, uploaded: bool) -> bool {
        &&& uploaded == old.dirty()
        &&& !new.dirty()
        &&& new.wf()
        &&& new.same_contents(&old)
    }

    /// What `get` does: return the created particles in order, leaving the
    /// store as it was.
    pub open spec fn read_outcome(old: ParticleState, new: ParticleState, out: Seq<Particle>) -> bool {
        &&& out == old.records()
        &&& new.wf()
        &&& new.same_contents(&old)
        &&& new.dirty() == old.dirty()
    }

    /// Allocates the buffers for `max` particles. The store starts empty and
    /// clean.
    pub fn new(max: usize) -> (r: ParticleState)
        requires
            max <= i32::MAX,
        ensures
            r.wf(),
            r.count() == 0,
            r.capacity() == max,
            !r.dirty(),
    {
        ParticleState { has_changes: false, particles: Vec::with_capacity(max), buffers: ParticleBuffers::new(max) }
    }

    /// Number of particles created so far.
    pub fn get_count(&self) -> (r: usize)
        ensures
            r == self.count(),
    {
        self.particles.len()
    }

    /// Number of particles the solver simulates: every particle ever created.
    pub fn get_active_count(&self) -> (r: usize)
        ensures
            r == self.count(),
    {
        self.particles.len()
    }

    /// Number of slots.
    pub fn get_capacity(&self) -> (r: usize)
        requires
            self.wf(),
        ensures
            r == self.capacity(),
    {
        self.buffers.capacity()
    }

    /// Whether the solver has yet to receive the latest contents.
    pub fn has_changes(&self) -> (r: bool)
        ensures
            r == self.dirty(),
    {
        self.has_changes
    }

    /// The transfer buffers, for handing their contents to the solver.
    pub fn buffers(&self) -> (r: &ParticleBuffers)
        ensures
            *r == self.slots(),
    {
        &self.buffers
    }

    /// Appends one particle in the next free slot, mapping the buffers for
    /// the write and unmapping them after. A full store refuses before it
    /// maps anything.
    pub fn create(&mut self, pos: Vector4, vel: Vector3, phase: i32, active: bool) -> (r: Result<(), CreateError>)
        requires
            old(self).wf(),
        ensures
            Self::create_outcome(
                *old(self),
                *final(self),
                (ParticleInit { pos, velocity: vel, phase, active }),
                r,
            ),
    {
        let count = self.particles.len();
        if count >= self.buffers.capacity() {
            return Err(CreateError::Max);
        }
        self.buffers.map_all();
        self.buffers.buffer.write(count, pos);
        self.buffers.velocities.write(count, vel);
        self.buffers.phases.write(count, phase);
        // Every particle is active from its creation on.
        self.buffers.active_indices.write(count, count as i32);
        self.buffers.unmap_all();
        self.particles.push((count, active));
        self.has_changes = true;
        assert(self.active_flags() =~= old(self).active_flags().push(active));
        Ok(())
    }

    /// Appends a whole batch under one map / unmap pair: the buffers are
    /// mapped once, a factory writes every item at the next free slots, and
    /// the buffers are unmapped once. A batch that does not fit is refused
    /// before anything is mapped.
    ///
    /// The caller describes the batch as a list of particles rather than as
    /// a routine run against the factory: the list is what such a routine
    /// would create, in order, and the factory itself stays inside the
    /// store, so nothing outside can keep it past the unmap.
    pub fn factory(&mut self, batch: &Vec<ParticleInit>) -> (r: Result<(), CreateError>)
        requires
            old(self).wf(),
        ensures
            Self::factory_outcome(*old(self), *final(self), batch@, r),
    {
        let count = self.particles.len();
        let cap = self.buffers.capacity();
        if batch.len() > cap - count {
            return Err(CreateError::Max);
        }
        let ghost old_slots = self.buffers;
        let ghost old_flags = self.active_flags();
        let mut buffers = ParticleBuffers::new(0);
        std::mem::swap(&mut self.buffers, &mut buffers);
        buffers.map_all();
        let mut factory = ParticleFactory::new(Some(count), buffers);
        let n = batch.len();
        let mut i: usize = 0;
        proof {
            lemma_overwrite_empty(old_slots.buffer@, count as int);
            lemma_overwrite_empty(old_slots.velocities@, count as int);
            lemma_overwrite_empty(old_slots.phases@, count as int);
            lemma_overwrite_empty(old_slots.active_indices@, count as int);
            assert(batch@.take(0).map_values(|p: ParticleInit| p.pos) =~= Seq::<Vector4>::empty());
            assert(batch@.take(0).map_values(|p: ParticleInit| p.velocity) =~= Seq::<Vector3>::empty());
            assert(batch@.take(0).map_values(|p: ParticleInit| p.phase) =~= Seq::<i32>::empty());
            assert(Seq::new(0, |j: int| (count + j) as i32) =~= Seq::<i32>::empty());
            assert(self.active_flags() =~= old_flags + batch@.take(0).map_values(|p: ParticleInit| p.active));
        }
        while i < n
            invariant
                n == batch@.len(),
                count + n <= cap,
                cap == old_slots.buffer@.len(),
                old_slots.sized(cap as nat),
                i <= n,
                factory.wf(),
                factory.capacity() == cap,
                factory.next_slot() == count + i,
                factory.slots().buffer@ == overwrite(
                    old_slots.buffer@,
                    count as int,
                    batch@.take(i as int).map_values(|p: ParticleInit| p.pos),
                ),
                factory.slots().velocities@ == overwrite(
                    old_slots.velocities@,
                    count as int,
                    batch@.take(i as int).map_values(|p: ParticleInit| p.velocity),
                ),
                factory.slots().phases@ == overwrite(
                    old_slots.phases@,
                    count as int,
                    batch@.take(i as int).map_values(|p: ParticleInit| p.phase),
                ),
                factory.slots().active_indices@ == overwrite(
                    old_slots.active_indices@,
                    count as int,
                    Seq::new(i as nat, |j: int| (count + j) as i32),
                ),
                self.particles@.len() == count + i,
                self.has_changes == old(self).dirty(),
                forall|j: int| 0 <= j < self.particles@.len() ==> #[trigger] self.particles@[j].0 == j,
                self.active_flags() == old_flags + batch@.take(i as int).map_values(|p: ParticleInit| p.active),
            decreases n - i,
        {
            let p = batch[i];
            proof {
                let t = batch@.take(i as int);
                assert(batch@.take(i + 1) =~= t.push(p));
                assert(t.push(p).map_values(|q: ParticleInit| q.pos) =~= t.map_values(|q: ParticleInit| q.pos).push(p.pos));
                assert(t.push(p).map_values(|q: ParticleInit| q.velocity)
                    =~= t.map_values(|q: ParticleInit| q.velocity).push(p.velocity));
                assert(t.push(p).map_values(|q: ParticleInit| q.phase) =~= t.map_values(|q: ParticleInit| q.phase).push(p.phase));
                assert(t.push(p).map_values(|q: ParticleInit| q.active)
                    =~= t.map_values(|q: ParticleInit| q.active).push(p.active));
                assert(Seq::new((i + 1) as nat, |j: int| (count + j) as i32)
                    =~= Seq::new(i as nat, |j: int| (count + j) as i32).push((count + i) as i32));
                lemma_overwrite_push(old_slots.buffer@, count as int, t.map_values(|q: ParticleInit| q.pos), p.pos);
                lemma_overwrite_push(
                    old_slots.velocities@,
                    count as int,
                    t.map_values(|q: ParticleInit| q.velocity),
                    p.velocity,
                );
                lemma_overwrite_push(old_slots.phases@, count as int, t.map_values(|q: ParticleInit| q.phase), p.phase);
                lemma_overwrite_push(
                    old_slots.active_indices@,
                    count as int,
                    Seq::new(i as nat, |j: int| (count + j) as i32),
                    (count + i) as i32,
                );
            }
            factory.create(p.pos, p.velocity, p.phase, p.active);
            let ghost prev = self.particles@;
            self.particles.push((count + i, p.active));
            proof {
                assert(self.particles@.map_values(|q: (usize, bool)| q.1)
                    =~= prev.map_values(|q: (usize, bool)| q.1).push(p.active));
                assert(self.active_flags() =~= old_flags + batch@.take(i + 1).map_values(|q: ParticleInit| q.active));
            }
            i += 1;
        }
        let mut buffers = factory.finish();
        buffers.unmap_all();
        self.buffers = buffers;
        if n > 0 {
            self.has_changes = true;
        }
        proof {
            assert(batch@.take(n as int) =~= batch@);
            assert forall|j: int| 0 <= j < self.count() implies #[trigger] self.slots().active_indices@[j] == j by {
                if j >= count {
                    assert(self.slots().active_indices@[j] == (count + (j - count)) as i32);
                }
            }
        }
        Ok(())
    }

    /// Hands the buffers to the solver if anything changed since the last
    /// upload. Returns whether an upload is due; the store is clean after.
    pub fn flush(&mut self) -> (r: bool)
        requires
            old(self).wf(),
        ensures
            Self::flushed(*old(self), *final(self), r),
    {
        if !self.has_changes {
            return false;
        }
        self.has_changes = false;
        true
    }

    /// Reads every created particle back as an owned copy, in order of
    /// creation. The three read buffers are mapped for the copy and unmapped
    /// before returning, so nothing handed out refers to mapped memory.
    pub fn get(&mut self) -> (r: Vec<Particle>)
        requires
            old(self).wf(),
        ensures
            Self::read_outcome(*old(self), *final(self), r@),
    {
        let count = self.particles.len();
        self.buffers.buffer.map();
        self.buffers.velocities.map();
        self.buffers.phases.map();
        let mut out: Vec<Particle> = Vec::with_capacity(count);
        let mut i: usize = 0;
        while i < count
            invariant
                count == old(self).count(),
                count <= self.buffers.buffer@.len(),
                self.buffers.sized(self.buffers.buffer@.len()),
                self.buffers.buffer.mapped(),
                self.buffers.velocities.mapped(),
                self.buffers.phases.mapped(),
                self.buffers.same_slots(&old(self).slots()),
                i <= count,
                out@ == old(self).records().take(i as int),
            decreases count - i,
        {
            let particle = Particle {
                pdata: self.buffers.buffer.read(i),
                velocity: self.buffers.velocities.read(i),
                phase: self.buffers.phases.read(i),
            };
            out.push(particle);
            i += 1;
            assert(out@ =~= old(self).records().take(i as int));
        }
        self.buffers.buffer.unmap();
        self.buffers.velocities.unmap();
        self.buffers.phases.unmap();
        assert(out@ =~= old(self).records());
        out
    }

    /// Takes in the particle state the solver reports after a step: the
    /// positions, velocities and phases of the created particles, in order.
    /// The state is only taken while the store is clean (the solver then
    /// holds every created particle) and when each sequence has one entry per
    /// particle; otherwise the store is left as it was and `false` returned.
    pub fn refresh(&mut self, positions: &Vec<Vector4>, velocities: &Vec<Vector3>, phases: &Vec<i32>) -> (r: bool)
        requires
            old(self).wf(),
        ensures
            r == (!old(self).dirty() && positions@.len() == old(self).count() && velocities@.len()
                == old(self).count() && phases@.len() == old(self).count()),
            final(self).wf(),
            final(self).count() == old(self).count(),
            final(self).capacity() == old(self).capacity(),
            final(self).active_flags() == old(self).active_flags(),
            final(self).dirty() == old(self).dirty(),
            final(self).slots().active_indices@ == old(self).slots().active_indices@,
            r ==> final(self).records() == Seq::new(
                old(self).count(),
                |i: int| Particle { pdata: positions@[i], velocity: velocities@[i], phase: phases@[i] },
            ),
            r ==> final(self).slots().buffer@ == overwrite(old(self).slots().buffer@, 0, positions@),
            r ==> final(self).slots().velocities@ == overwrite(old(self).slots().velocities@, 0, velocities@),
            r ==> final(self).slots().phases@ == overwrite(old(self).slots().phases@, 0, phases@),
            !r ==> *final(self) == *old(self),
    {
        let count = self.particles.len();
        if self.has_changes || positions.len() != count || velocities.len() != count || phases.len() != count {
            return false;
        }
        self.buffers.buffer.map();
        self.buffers.velocities.map();
        self.buffers.phases.map();
        let mut i: usize = 0;
        while i < count
            invariant
                count == old(self).count(),
                count <= self.buffers.buffer@.len(),
                positions@.len() == count,
                velocities@.len() == count,
                phases@.len() == count,
                self.buffers.sized(old(self).capacity()),
                self.buffers.buffer.mapped(),
                self.buffers.velocities.mapped(),
                self.buffers.phases.mapped(),
                !self.buffers.active_indices.mapped(),
                self.buffers.active_indices@ == old(self).slots().active_indices@,
                self.buffers.buffer@ == overwrite(old(self).slots().buffer@, 0, positions@.take(i as int)),
                self.buffers.velocities@ == overwrite(old(self).slots().velocities@, 0, velocities@.take(i as int)),
                self.buffers.phases@ == overwrite(old(self).slots().phases@, 0, phases@.take(i as int)),
                self.particles@ == old(self).particles@,
                self.has_changes == old(self).dirty(),
                i <= count,
            decreases count - i,
        {
            proof {
                assert(positions@.take(i + 1) =~= positions@.take(i as int).push(positions@[i as int]));
                assert(velocities@.take(i + 1) =~= velocities@.take(i as int).push(velocities@[i as int]));
                assert(phases@.take(i + 1) =~= phases@.take(i as int).push(phases@[i as int]));
                lemma_overwrite_push(old(self).slots().buffer@, 0, positions@.take(i as int), positions@[i as int]);
                lemma_overwrite_push(
                    old(self).slots().velocities@,
                    0,
                    velocities@.take(i as int),
                    velocities@[i as int],
                );
                lemma_overwrite_push(old(self).slots().phases@, 0, phases@.take(i as int), phases@[i as int]);
            }
            self.buffers.buffer.write(i, positions[i]);
            self.buffers.velocities.write(i, velocities[i]);
            self.buffers.phases.write(i, phases[i]);
            i += 1;
        }
        self.buffers.buffer.unmap();
        self.buffers.velocities.unmap();
        self.buffers.phases.unmap();
        proof {
            assert(positions@.take(count as int) =~= positions@);
            assert(velocities@.take(count as int) =~= velocities@);
            assert(phases@.take(count as int) =~= phases@);
            assert(self.records() =~= Seq::new(
                old(self).count(),
                |i: int| Particle { pdata: positions@[i], velocity: velocities@[i], phase: phases@[i] },
            ));
        }
        true
    }

    /// Releases any outstanding mapping of the store's buffers.
    pub fn unmap(&mut self)
        requires
            old(self).inv(),
            old(self).slots().sized(old(self).capacity()),
            old(self).count() <= old(self).capacity(),
            forall|i: int| 0 <= i < old(self).count() ==> #[trigger] old(self).slots().active_indices@[i] == i,
        ensures
            final(self).wf(),
            final(self).same_contents(old(self)),
            final(self).dirty() == old(self).dirty(),
    {
        self.buffers.unmap();
        assert(forall|i: int| 0 <= i < self.count() ==> #[trigger] self.slots().active_indices@[i] == old(self).slots().active_indices@[i]);
    }
}

/// Creations on an empty store count up to its capacity and no further:
/// after any `n` of them the store holds `min(n, capacity)` particles, and
/// exactly the first `capacity` of them succeed, every later one being
/// refused.
pub proof fn lemma_count_after_creates(
    states: Seq<ParticleState>,
    inputs: Seq<ParticleInit>,
    results: Seq<Result<(), CreateError>>,
)
    requires
        states.len() == inputs.len() + 1,
        results.len() == inputs.len(),
        states[0].wf(),
        states[0].count() == 0,
        forall|i: int|
            0 <= i < inputs.len() ==> #[trigger] ParticleState::create_outcome(
                states[i],
                states[i + 1],
                inputs[i],
                results[i],
            ),
    ensures
        forall|i: int|
            0 <= i < states.len() ==> (#[trigger] states[i].count() == if i < states[0].capacity() {
                i as nat
            } else {
                states[0].capacity()
            }),
        forall|i: int| 0 <= i < results.len() ==> (#[trigger] results[i] is Ok <==> i < states[0].capacity()),
        states.last().count() == if inputs.len() < states[0].capacity() {
            inputs.len()
        } else {
            states[0].capacity()
        },
    decreases inputs.len(),
{
    if inputs.len() > 0 {
        let n = inputs.len() - 1;
        let cap = states[0].capacity();
        lemma_count_after_creates(states.drop_last(), inputs.drop_last(), results.drop_last());
        assert(states.drop_last()[n] == states[n]);
        assert forall|i: int| 0 <= i < n implies ParticleState::create_outcome(
            states[i],
            states[i + 1],
            inputs[i],
            results[i],
        ) by {
            assert(ParticleState::create_outcome(states[i], states[i + 1], inputs[i], results[i]));
        }
        lemma_wf_and_capacity_kept(states, inputs, results);
        assert(ParticleState::create_outcome(states[n], states[n + 1], inputs[n], results[n]));
        assert forall|i: int| 0 <= i < states.len() implies #[trigger] states[i].count() == if i < cap {
            i as nat
        } else {
            cap
        } by {
            if i < states.len() - 1 {
                assert(states.drop_last()[i] == states[i]);
            } else {
                assert(states.drop_last()[n as int].count() == if n < cap { n as nat } else { cap });
            }
        }
        assert forall|i: int| 0 <= i < results.len() implies (#[trigger] results[i] is Ok <==> i < cap) by {
            if i < n {
                assert(results.drop_last()[i] == results[i]);
            }
        }
    }
}

/// Along a run of creations every store stays well-formed and keeps the
/// first store's capacity.
proof fn lemma_wf_and_capacity_kept(
    states: Seq<ParticleState>,
    inputs: Seq<ParticleInit>,
    results: Seq<Result<(), CreateError>>,
)
    requires
        states.len() == inputs.len() + 1,
        results.len() == inputs.len(),
        states[0].wf(),
        forall|i: int|
            0 <= i < inputs.len() ==> #[trigger] ParticleState::create_outcome(
                states[i],
                states[i + 1],
                inputs[i],
                results[i],
            ),
    ensures
        forall|i: int| 0 <= i < states.len() ==> #[trigger] states[i].wf(),
        forall|i: int| 0 <= i < states.len() ==> #[trigger] states[i].capacity() == states[0].capacity(),
    decreases inputs.len(),
{
    if inputs.len() > 0 {
        let n = inputs.len() - 1;
        lemma_wf_and_capacity_kept(states.drop_last(), inputs.drop_last(), results.drop_last());
        assert(states.drop_last()[n] == states[n]);
        assert(ParticleState::create_outcome(states[n], states[n + 1], inputs[n], results[n]));
        assert forall|i: int| 0 <= i < states.len() implies #[trigger] states[i].wf() && states[i].capacity()
            == states[0].capacity() by {
            assert(states.drop_last()[0] == states[0]);
            if i < states.len() - 1 {
                assert(states.drop_last()[i] == states[i]);
            } else {
                assert(states.drop_last()[n as int].capacity() == states[0].capacity());
                assert(states.drop_last()[n as int].wf());
            }
        }
        assert forall|i: int| 0 <= i < states.len() implies #[trigger] states[i].capacity() == states[0].capacity() by {
            assert(states[i].wf());
        }
    }
}

/// A store whose slots are all taken refuses a creation, and none of its
/// buffers changes.
pub proof fn lemma_full_store_refuses(
    old: ParticleState,
    new: ParticleState,
    p: ParticleInit,
    r: Result<(), CreateError>,
)
    requires
        old.wf(),
        old.count() == old.capacity(),
        ParticleState::create_outcome(old, new, p, r),
    ensures
        r == Err::<(), CreateError>(CreateError::Max),
        new == old,
{
}

/// A particle created with position P, velocity V and phase F, then
/// flushed and read back, comes back with exactly P, V and F, after the
/// particles that were there before.
pub proof fn lemma_create_read_round_trip(
    s0: ParticleState,
    s1: ParticleState,
    s2: ParticleState,
    s3: ParticleState,
    p: ParticleInit,
    uploaded: bool,
    out: Seq<Particle>,
)
    requires
        s0.wf(),
        ParticleState::create_outcome(s0, s1, p, Ok(())),
        ParticleState::flushed(s1, s2, uploaded),
        ParticleState::read_outcome(s2, s3, out),
    ensures
        out.len() == s0.count() + 1,
        out[s0.count() as int] == (Particle { pdata: p.pos, velocity: p.velocity, phase: p.phase }),
        out.take(s0.count() as int) == s0.records(),
{
    let c = s0.count() as int;
    assert(out[c] == s1.record_at(c));
    assert(out.take(c) =~= s0.records());
}

/// Flushing twice in a row uploads at most once: the second flush finds
/// nothing to upload and leaves the store as the first one left it.
pub proof fn lemma_flush_twice(s0: ParticleState, s1: ParticleState, s2: ParticleState, first: bool, second: bool)
    requires
        s0.wf(),
        ParticleState::flushed(s0, s1, first),
        ParticleState::flushed(s1, s2, second),
    ensures
        first == s0.dirty(),
        !second,
        !s2.dirty(),
        s2.same_contents(&s1),
        s2.records() == s0.records(),
{
    assert(s2.records() =~= s0.records());
}

} // verus!
