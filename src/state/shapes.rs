use vstd::prelude::*;

use super::CreateError;
use crate::buffer::HostBuffer;
use crate::geometry::{CollisionGeometry, Shape};
use crate::helper::{make_shape_flags, shape_flags_of};
use crate::types::{Quat, Vector3, Vector4};

verus! {

/// The parallel transfer buffers of the shape store.
pub struct ShapeBuffers {
    /// Geometry record of each shape.
    pub buffer: HostBuffer<CollisionGeometry>,
    pub positions: HostBuffer<Vector4>,
    pub rotations: HostBuffer<Quat>,
    /// Pose at the previous step; a static shape has the same pose in both.
    pub previous_positions: HostBuffer<Vector4>,
    pub previous_rotations: HostBuffer<Quat>,
    /// Kind and collision flags of each shape.
    pub flags: HostBuffer<i32>,
}

impl ShapeBuffers {
    /// Every buffer has `cap` slots, and `cap` fits the solver's counts.
    pub open spec fn sized(&self, cap: nat) -> bool {
        &&& self.buffer@.len() == cap
        &&& self.positions@.len() == cap
        &&& self.rotations@.len() == cap
        &&& self.previous_positions@.len() == cap
        &&& self.previous_rotations@.len() == cap
        &&& self.flags@.len() == cap
        &&& cap <= i32::MAX
    }

    pub open spec fn all_mapped(&self) -> bool {
        &&& self.buffer.mapped()
        &&& self.positions.mapped()
        &&& self.rotations.mapped()
        &&& self.previous_positions.mapped()
        &&& self.previous_rotations.mapped()
        &&& self.flags.mapped()
    }

    pub open spec fn none_mapped(&self) -> bool {
        &&& !self.buffer.mapped()
        &&& !self.positions.mapped()
        &&& !self.rotations.mapped()
        &&& !self.previous_positions.mapped()
        &&& !self.previous_rotations.mapped()
        &&& !self.flags.mapped()
    }

    /// The two sets of buffers hold the same slots.
    pub open spec fn same_slots(&self, other: &ShapeBuffers) -> bool {
        &&& self.buffer@ == other.buffer@
        &&& self.positions@ == other.positions@
        &&& self.rotations@ == other.rotations@
        &&& self.previous_positions@ == other.previous_positions@
        &&& self.previous_rotations@ == other.previous_rotations@
        &&& self.flags@ == other.flags@
    }

    /// Allocates `max` slots in each buffer, unmapped.
    pub fn new(max: usize) -> (r: ShapeBuffers)
        requires
            max <= i32::MAX,
        ensures
            r.sized(max as nat),
            r.none_mapped(),
    {
        let empty = CollisionGeometry::Sphere { radius: 0 };
        ShapeBuffers {
            buffer: HostBuffer::new(max, empty),
            positions: HostBuffer::new(max, Vector4::zero()),
            rotations: HostBuffer::new(max, Quat::zero()),
            previous_positions: HostBuffer::new(max, Vector4::zero()),
            previous_rotations: HostBuffer::new(max, Quat::zero()),
            flags: HostBuffer::new(max, 0),
        }
    }

    /// Number of slots in each buffer.
    pub fn capacity(&self) -> (r: usize)
        ensures
            r == self.buffer@.len(),
    {
        self.buffer.capacity()
    }

    fn map_all(&mut self)
        requires
            old(self).none_mapped(),
        ensures
            final(self).all_mapped(),
            final(self).same_slots(old(self)),
    {
        self.buffer.map();
        self.positions.map();
        self.rotations.map();
        self.previous_positions.map();
        self.previous_rotations.map();
        self.flags.map();
    }

    fn unmap_all(&mut self)
        requires
            old(self).all_mapped(),
        ensures
            final(self).none_mapped(),
            final(self).same_slots(old(self)),
    {
        self.buffer.unmap();
        self.positions.unmap();
        self.rotations.unmap();
        self.previous_positions.unmap();
        self.previous_rotations.unmap();
        self.flags.unmap();
    }

    /// Releases the mapping of every buffer that is mapped.
    pub fn unmap(&mut self)
        ensures
            final(self).none_mapped(),
            final(self).same_slots(old(self)),
    {
        if self.buffer.is_mapped() {
            self.buffer.unmap();
        }
        if self.positions.is_mapped() {
            self.positions.unmap();
        }
        if self.rotations.is_mapped() {
            self.rotations.unmap();
        }
        if self.previous_positions.is_mapped() {
            self.previous_positions.unmap();
        }
        if self.previous_rotations.is_mapped() {
            self.previous_rotations.unmap();
        }
        if self.flags.is_mapped() {
            self.flags.unmap();
        }
    }
}

/// The shape store: the ordered list of registered collision shapes, the
/// buffers that mirror it slot by slot, and a flag telling whether the
/// solver has yet to receive them.
pub struct ShapeState {
    shapes: Vec<Shape>,
    has_changes: bool,
    buffers: ShapeBuffers,
}

impl ShapeState {
    /// The registered shapes, in order of registration.
    pub closed spec fn list(&self) -> Seq<Shape> {
        self.shapes@
    }

    pub open spec fn count(&self) -> nat {
        self.list().len()
    }

    /// Number of slots, fixed at construction.
    pub closed spec fn capacity(&self) -> nat {
        self.buffers.buffer@.len()
    }

    /// Whether the buffers changed since the solver last received them.
    pub closed spec fn dirty(&self) -> bool {
        self.has_changes
    }

    /// The transfer buffers, every slot of them.
    pub closed spec fn slots(&self) -> ShapeBuffers {
        self.buffers
    }

    /// Slot `i` of every buffer but the flags describes shape `i`.
    pub open spec fn slot_matches(&self, i: int) -> bool {
        let s = self.list()[i];
        &&& self.slots().buffer@[i] == s.geometry()
        &&& self.slots().positions@[i] == s.pos()
        &&& self.slots().rotations@[i] == s.rot()
        &&& self.slots().previous_positions@[i] == s.pos()
        &&& self.slots().previous_rotations@[i] == s.rot()
    }

    /// Well-formed and at rest: within capacity, every registered shape
    /// fully written to its slot, and no buffer mapped.
    pub open spec fn wf(&self) -> bool {
        &&& self.slots().sized(self.capacity())
        &&& self.count() <= self.capacity()
        &&& forall|i: int| 0 <= i < self.count() ==> #[trigger] self.slot_matches(i)
        &&& self.slots().none_mapped()
    }

    /// Both stores hold the same shapes in the same slots.
    pub open spec fn same_contents(&self, other: &ShapeState) -> bool {
        &&& self.list() == other.list()
        &&& self.capacity() == other.capacity()
        &&& self.slots().same_slots(&other.slots())
    }

    /// `new` is `old` with `shape` written to the next free slot of every
    /// buffer, with `flag` as its flags word, appended to the list, and
    /// marked dirty.
    pub open spec fn added(old: ShapeState, new: ShapeState, shape: Shape, flag: i32) -> bool {
        let c = old.count() as int;
        &&& new.wf()
        &&& new.capacity() == old.capacity()
        &&& new.list() == old.list().push(shape)
        &&& new.slots().buffer@ == old.slots().buffer@.update(c, shape.geometry())
        &&& new.slots().positions@ == old.slots().positions@.update(c, shape.pos())
        &&& new.slots().rotations@ == old.slots().rotations@.update(c, shape.rot())
        &&& new.slots().previous_positions@ == old.slots().previous_positions@.update(c, shape.pos())
        &&& new.slots().previous_rotations@ == old.slots().previous_rotations@.update(c, shape.rot())
        &&& new.slots().flags@ == old.slots().flags@.update(c, flag)
        &&& new.dirty()
    }

    /// What `create` and `register` do: add the shape if a slot is free,
    /// else refuse and leave the store as it was.
    pub open spec fn add_outcome(
        old: ShapeState,
        new: ShapeState,
        shape: Shape,
        flag: i32,
        r: Result<(), CreateError>,
    ) -> bool {
        match r {
            Ok(()) => old.count() < old.capacity() && Self::added(old, new, shape, flag),
            Err(e) => e == CreateError::Max && old.count() == old.capacity() && new == old,
        }
    }

    /// What `register` does with `shape`: add it as a static shape of its
    /// own kind.
    pub open spec fn register_outcome(
        old: ShapeState,
        new: ShapeState,
        shape: Shape,
        r: Result<(), CreateError>,
    ) -> bool {
        Self::add_outcome(old, new, shape, shape_flags_of(shape.kind_tag(), false), r)
    }

    /// What `flush` does: report whether there was anything to upload and
    /// mark the store clean, leaving its contents alone.
    pub open spec fn flushed(old: ShapeState, new: ShapeState, uploaded: bool) -> bool {
        &&& uploaded == old.dirty()
        &&& !new.dirty()
        &&& new.wf()
        &&& new.same_contents(&old)
    }

    /// Allocates the buffers for `max` shapes. The store starts empty and
    /// clean.
    pub fn new(max: usize) -> (r: ShapeState)
        requires
            max <= i32::MAX,
        ensures
            r.wf(),
            r.list() == Seq::<Shape>::empty(),
            r.capacity() == max,
            !r.dirty(),
    {
        ShapeState { shapes: Vec::with_capacity(max), has_changes: false, buffers: ShapeBuffers::new(max) }
    }

    /// Number of registered shapes.
    pub fn get_count(&self) -> (r: usize)
        ensures
            r == self.count(),
    {
        self.shapes.len()
    }

    /// The registered shapes, in order of registration.
    pub fn get_list(&self) -> (r: &Vec<Shape>)
        ensures
            r@ == self.list(),
    {
        &self.shapes
    }

    /// Number of slots.
    pub fn get_capacity(&self) -> (r: usize)
        ensures
            r == self.capacity(),
    {
        self.buffers.capacity()
    }

    /// Whether the solver has yet to receive the latest contents.
    pub fn has_changes(&self) -> (r: bool)
        ensures
            r == self.dirty(),
    {
        self.has_changes
    }

    /// The transfer buffers, for handing their contents to the solver.
    pub fn buffers(&self) -> (r: &ShapeBuffers)
        ensures
            *r == self.slots(),
    {
        &self.buffers
    }

    /// Writes `shape` to slot `count` of every buffer under one map / unmap
    /// pair, then appends it to the list.
    fn push_shape(&mut self, shape: Shape, flag: i32)
        requires
            old(self).wf(),
            old(self).count() < old(self).capacity(),
        ensures
            Self::added(*old(self), *final(self), shape, flag),
    {
        let count = self.shapes.len();
        let geometry = shape.as_union();
        let pos = *shape.get_pos();
        let rot = *shape.get_rot();
        self.buffers.map_all();
        self.buffers.buffer.write(count, geometry);
        self.buffers.positions.write(count, pos);
        self.buffers.rotations.write(count, rot);
        self.buffers.previous_positions.write(count, pos);
        self.buffers.previous_rotations.write(count, rot);
        self.buffers.flags.write(count, flag);
        self.buffers.unmap_all();
        self.shapes.push(shape);
        self.has_changes = true;
        assert forall|i: int| 0 <= i < self.count() implies #[trigger] self.slot_matches(i) by {
            if i < count {
                assert(old(self).slot_matches(i));
            }
        }
    }

    /// Adds a shape given as a raw geometry record, a pose and a flags word.
    /// A full store refuses before it maps anything.
    pub fn create(&mut self, shape: CollisionGeometry, pos: Vector4, rot: Quat, flag: i32) -> (r: Result<(), CreateError>)
        requires
            old(self).wf(),
        ensures
            Self::add_outcome(*old(self), *final(self), Shape::from_parts(shape, pos, rot), flag, r),
    {
        if self.shapes.len() >= self.buffers.capacity() {
            return Err(CreateError::Max);
        }
        let s = Shape::from_geometry(shape, pos, rot);
        self.push_shape(s, flag);
        Ok(())
    }

    /// Registers a static shape: its geometry, its pose as both the current
    /// and the previous pose, and the flags of its kind. A full store
    /// refuses before it maps anything.
    pub fn register(&mut self, shape: Shape) -> (r: Result<(), CreateError>)
        requires
            old(self).wf(),
        ensures
            Self::register_outcome(*old(self), *final(self), shape, r),
    {
        if self.shapes.len() >= self.buffers.capacity() {
            return Err(CreateError::Max);
        }
        let flag = make_shape_flags(shape.kind(), false);
        self.push_shape(shape, flag);
        Ok(())
    }

    /// Hands the buffers to the solver if anything changed since the last
    /// upload. Returns whether an upload is due; the store is clean after.
    pub fn flush(&mut self) -> (r: bool)
        requires
            old(self).wf(),
        ensures
            Self::flushed(*old(self), *final(self), r),
    {
        if !self.has_changes {
            return false;
        }
        self.has_changes = false;
        assert(forall|i: int| 0 <= i < self.count() ==> #[trigger] self.slot_matches(i) == old(self).slot_matches(i));
        true
    }

    /// Releases any outstanding mapping of the store's buffers.
    pub fn unmap(&mut self)
        requires
            old(self).slots().sized(old(self).capacity()),
            old(self).count() <= old(self).capacity(),
            forall|i: int| 0 <= i < old(self).count() ==> #[trigger] old(self).slot_matches(i),
        ensures
            final(self).wf(),
            final(self).same_contents(old(self)),
            final(self).dirty() == old(self).dirty(),
    {
        self.buffers.unmap();
        assert(forall|i: int| 0 <= i < self.count() ==> #[trigger] self.slot_matches(i) == old(self).slot_matches(i));
    }
}

/// Registration keeps order: after registering `a`, `b` and `c`, the list
/// is the earlier list followed by exactly `a`, `b`, `c`, each with its own
/// kind and pose.
pub proof fn lemma_register_keeps_order(
    s0: ShapeState,
    s1: ShapeState,
    s2: ShapeState,
    s3: ShapeState,
    a: Shape,
    b: Shape,
    c: Shape,
)
    requires
        s0.wf(),
        ShapeState::register_outcome(s0, s1, a, Ok(())),
        ShapeState::register_outcome(s1, s2, b, Ok(())),
        ShapeState::register_outcome(s2, s3, c, Ok(())),
    ensures
        s3.list() == s0.list() + seq![a, b, c],
        s0.count() == 0 ==> s3.list() == seq![a, b, c],
{
    assert(s3.list() =~= s0.list() + seq![a, b, c]);
}

/// A store whose slots are all taken refuses another shape with a capacity
/// error, and its list keeps its length.
pub proof fn lemma_register_when_full(old: ShapeState, new: ShapeState, shape: Shape, r: Result<(), CreateError>)
    requires
        old.wf(),
        old.count() == old.capacity(),
        ShapeState::register_outcome(old, new, shape, r),
    ensures
        r == Err::<(), CreateError>(CreateError::Max),
        new.list().len() == old.capacity(),
        new == old,
{
}

/// Flushing twice in a row uploads at most once: the second flush finds
/// nothing to upload and leaves the store as the first one left it.
pub proof fn lemma_flush_twice(s0: ShapeState, s1: ShapeState, s2: ShapeState, first: bool, second: bool)
    requires
        s0.wf(),
        ShapeState::flushed(s0, s1, first),
        ShapeState::flushed(s1, s2, second),
    ensures
        first == s0.dirty(),
        !second,
        !s2.dirty(),
        s2.same_contents(&s1),
{
}

} // verus!
