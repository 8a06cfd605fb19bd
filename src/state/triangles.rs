use vstd::prelude::*;

use super::CreateError;
use crate::buffer::HostBuffer;
use crate::types::Vector3;

verus! {

/// The parallel transfer buffers of the dynamic triangle store.
pub struct TriangleBuffers {
    /// Vertex index of each entry.
    pub buffer: HostBuffer<i32>,
    pub normals: HostBuffer<Vector3>,
    pub uvs: HostBuffer<Vector3>,
}

impl TriangleBuffers {
    /// Every buffer has `cap` slots, and `cap` fits the solver's counts.
    pub open spec fn sized(&self, cap: nat) -> bool {
        &&& self.buffer@.len() == cap
        &&& self.normals@.len() == cap
        &&& self.uvs@.len() == cap
        &&& cap <= i32::MAX
    }

    pub open spec fn none_mapped(&self) -> bool {
        &&& !self.buffer.mapped()
        &&& !self.normals.mapped()
        &&& !self.uvs.mapped()
    }

    /// The two sets of buffers hold the same slots.
    pub open spec fn same_slots(&self, other: &TriangleBuffers) -> bool {
        &&& self.buffer@ == other.buffer@
        &&& self.normals@ == other.normals@
        &&& self.uvs@ == other.uvs@
    }

    /// Releases the mapping of every buffer that is mapped.
    pub fn unmap(&mut self)
        ensures
            final(self).none_mapped(),
            final(self).same_slots(old(self)),
    {
        if self.buffer.is_mapped() {
            self.buffer.unmap();
        }
        if self.normals.is_mapped() {
            self.normals.unmap();
        }
        if self.uvs.is_mapped() {
            self.uvs.unmap();
        }
    }
}

/// The dynamic triangle store: a count of entries mirrored in three
/// parallel buffers, and a flag telling whether the solver has yet to
/// receive them.
pub struct TriangleState {
    count: usize,
    has_changes: bool,
    buffers: TriangleBuffers,
}

impl TriangleState {
    /// Number of entries written so far.
    pub closed spec fn count(&self) -> nat {
        self.count as nat
    }

    /// Number of slots, fixed at construction.
    pub closed spec fn capacity(&self) -> nat {
        self.buffers.buffer@.len()
    }

    /// Whether the buffers changed since the solver last received them.
    pub closed spec fn dirty(&self) -> bool {
        self.has_changes
    }

    /// The transfer buffers, every slot of them.
    pub closed spec fn slots(&self) -> TriangleBuffers {
        self.buffers
    }

    /// Well-formed and at rest: within capacity and no buffer mapped.
    pub open spec fn wf(&self) -> bool {
        &&& self.slots().sized(self.capacity())
        &&& self.count() <= self.capacity()
        &&& self.slots().none_mapped()
    }

    /// Both stores hold the same entries in the same slots.
    pub open spec fn same_contents(&self, other: &TriangleState) -> bool {
        &&& self.count() == other.count()
        &&& self.capacity() == other.capacity()
        &&& self.slots().same_slots(&other.slots())
    }

    /// What `create` does: write the entry to the next free slot if there is
    /// one, else refuse and leave the store as it was.
    pub open spec fn create_outcome(
        old: TriangleState,
        new: TriangleState,
        index: i32,
        normal: Vector3,
        uv: Vector3,
        r: Result<(), CreateError>,
    ) -> bool {
        let c = old.count() as int;
        match r {
            Ok(()) => {
                &&& old.count() < old.capacity()
                &&& new.wf()
                &&& new.capacity() == old.capacity()
                &&& new.count() == old.count() + 1
                &&& new.slots().buffer@ == old.slots().buffer@.update(c, index)
                &&& new.slots().normals@ == old.slots().normals@.update(c, normal)
                &&& new.slots().uvs@ == old.slots().uvs@.update(c, uv)
                &&& new.dirty()
            },
            Err(e) => e == CreateError::Max && old.count() == old.capacity() && new == old,
        }
    }

    /// What `flush` does: report whether there was anything to upload and
    /// mark the store clean, leaving its contents alone.
    pub open spec fn flushed(old: TriangleState, new: TriangleState, uploaded: bool) -> bool {
        &&& uploaded == old.dirty()
        &&& !new.dirty()
        &&& new.wf()
        &&& new.same_contents(&old)
    }

    /// Allocates the buffers for `max` entries. The store starts empty and
    /// clean.
    pub fn new(max: usize) -> (r: TriangleState)
        requires
            max <= i32::MAX,
        ensures
            r.wf(),
            r.count() == 0,
            r.capacity() == max,
            !r.dirty(),
    {
        TriangleState {
            count: 0,
            has_changes: false,
            buffers: TriangleBuffers {
                buffer: HostBuffer::new(max, 0),
                normals: HostBuffer::new(max, Vector3::zero()),
                uvs: HostBuffer::new(max, Vector3::zero()),
            },
        }
    }

    /// Number of entries written so far.
    pub fn get_count(&self) -> (r: usize)
        ensures
            r == self.count(),
    {
        self.count
    }

    /// Whether the solver has yet to receive the latest contents.
    pub fn has_changes(&self) -> (r: bool)
        ensures
            r == self.dirty(),
    {
        self.has_changes
    }

    /// The transfer buffers, for handing their contents to the solver.
    pub fn buffers(&self) -> (r: &TriangleBuffers)
        ensures
            *r == self.slots(),
    {
        &self.buffers
    }

    /// Writes one entry to the next free slot of every buffer under one
    /// map / unmap pair. A full store refuses before it maps anything.
    pub fn create(&mut self, index: i32, normal: Vector3, uv: Vector3) -> (r: Result<(), CreateError>)
        requires
            old(self).wf(),
        ensures
            Self::create_outcome(*old(self), *final(self), index, normal, uv, r),
    {
        let count = self.count;
        if count >= self.buffers.buffer.capacity() {
            return Err(CreateError::Max);
        }
        self.buffers.buffer.map();
        self.buffers.normals.map();
        self.buffers.uvs.map();
        self.buffers.buffer.write(count, index);
        self.buffers.normals.write(count, normal);
        self.buffers.uvs.write(count, uv);
        self.buffers.buffer.unmap();
        self.buffers.normals.unmap();
        self.buffers.uvs.unmap();
        self.count = count + 1;
        self.has_changes = true;
        Ok(())
    }

    /// Hands the buffers to the solver if anything changed since the last
    /// upload. Returns whether an upload is due; the store is clean after.
    pub fn flush(&mut self) -> (r: bool)
        requires
            old(self).wf(),
        ensures
            Self::flushed(*old(self), *final(self), r),
    {
        if !self.has_changes {
            return false;
        }
        self.has_changes = false;
        true
    }

    /// Releases any outstanding mapping of the store's buffers.
    pub fn unmap(&mut self)
        requires
            old(self).slots().sized(old(self).capacity()),
            old(self).count() <= old(self).capacity(),
        ensures
            final(self).wf(),
            final(self).same_contents(old(self)),
            final(self).dirty() == old(self).dirty(),
    {
        self.buffers.unmap();
    }
}

/// Flushing twice in a row uploads at most once: the second flush finds
/// nothing to upload and leaves the store as the first one left it.
pub proof fn lemma_flush_twice(s0: TriangleState, s1: TriangleState, s2: TriangleState, first: bool, second: bool)
    requires
        s0.wf(),
        TriangleState::flushed(s0, s1, first),
        TriangleState::flushed(s1, s2, second),
    ensures
        first == s0.dirty(),
        !second,
        !s2.dirty(),
        s2.same_contents(&s1),
{
}

} // verus!
