use vstd::prelude::*;

verus! {

/// `s` with the slots from `at` on replaced, in order, by `items`; the
/// length of `s` is kept.
pub open spec fn overwrite<T>(s: Seq<T>, at: int, items: Seq<T>) -> Seq<T> {
    Seq::new(s.len(), |i: int| if at <= i < at + items.len() { items[i - at] } else { s[i] })
}

/// Overwriting with no items keeps the sequence.
pub proof fn lemma_overwrite_empty<T>(s: Seq<T>, at: int)
    ensures
        overwrite(s, at, Seq::<T>::empty()) == s,
{
    assert(overwrite(s, at, Seq::<T>::empty()) =~= s);
}

/// Overwriting with one more item is one more slot update.
pub proof fn lemma_overwrite_push<T>(s: Seq<T>, at: int, items: Seq<T>, x: T)
    requires
        0 <= at,
        at + items.len() < s.len(),
    ensures
        overwrite(s, at, items.push(x)) == overwrite(s, at, items).update(at + items.len(), x),
{
    assert(overwrite(s, at, items.push(x)) =~= overwrite(s, at, items).update(at + items.len(), x));
}

/// A fixed-capacity, host-visible transfer buffer.
///
/// The slots exist from allocation on; the capacity never changes. Reading or
/// writing a slot is only possible while the buffer is mapped, and mapping an
/// already mapped buffer, or unmapping one that is not mapped, is refused by
/// the contracts.
pub struct HostBuffer<T> {
    data: Vec<T>,
    mapped: bool,
}

impl<T> View for HostBuffer<T> {
    type V = Seq<T>;

    closed spec fn view(&self) -> Seq<T> {
        self.data@
    }
}

impl<T: Copy> HostBuffer<T> {
    /// Whether the buffer is currently mapped for host access.
    pub closed spec fn mapped(&self) -> bool {
        self.mapped
    }

    /// Allocates `capacity` slots, every slot holding `fill`. The new buffer
    /// is unmapped.
    pub fn new(capacity: usize, fill: T) -> (r: HostBuffer<T>)
        ensures
            r@ == Seq::new(capacity as nat, |i: int| fill),
            !r.mapped(),
    {
        let mut data: Vec<T> = Vec::with_capacity(capacity);
        let mut i: usize = 0;
        while i < capacity
            invariant
                i <= capacity,
                data@ == Seq::new(i as nat, |j: int| fill),
            decreases capacity - i,
        {
            data.push(fill);
            i += 1;
            assert(data@ =~= Seq::new(i as nat, |j: int| fill));
        }
        HostBuffer { data, mapped: false }
    }

    /// Number of slots.
    pub fn capacity(&self) -> (r: usize)
        ensures
            r == self@.len(),
    {
        self.data.len()
    }

    pub fn is_mapped(&self) -> (r: bool)
        ensures
            r == self.mapped(),
    {
        self.mapped
    }

    /// Maps the buffer for host access. The buffer must not be mapped already.
    pub fn map(&mut self)
        requires
            !old(self).mapped(),
        ensures
            final(self).mapped(),
            final(self)@ == old(self)@,
    {
        self.mapped = true;
    }

    /// Releases the host mapping. The buffer must be mapped.
    pub fn unmap(&mut self)
        requires
            old(self).mapped(),
        ensures
            !final(self).mapped(),
            final(self)@ == old(self)@,
    {
        self.mapped = false;
    }

    /// Writes `value` into slot `index` of a mapped buffer.
    pub fn write(&mut self, index: usize, value: T)
        requires
            old(self).mapped(),
            index < old(self)@.len(),
        ensures
            final(self).mapped(),
            final(self)@ == old(self)@.update(index as int, value),
    {
        self.data.set(index, value);
    }

    /// Reads slot `index` of a mapped buffer.
    pub fn read(&self, index: usize) -> (r: T)
        requires
            self.mapped(),
            index < self@.len(),
        ensures
            r == self@[index as int],
    {
        self.data[index]
    }

    /// The slots of an unmapped buffer, in order, as handed to the solver.
    pub fn as_slice(&self) -> (r: &[T])
        requires
            !self.mapped(),
        ensures
            r@ == self@,
    {
        self.data.as_slice()
    }
}

} // verus!
