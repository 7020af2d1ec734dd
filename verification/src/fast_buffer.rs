use crate::wire::{u32_bytes, u32_to_bytes};
use vstd::prelude::*;

verus! {

/// A writer with a destination of fixed size: it is made for a number of bytes,
/// and every write demands that there is room left. Numbers are written least
/// significant byte first.
///
/// Its view is the sequence of bytes written so far.
pub struct FastByteBuffer {
    data: Vec<u8>,
    capacity: usize,
}

impl View for FastByteBuffer {
    type V = Seq<u8>;

    closed spec fn view(&self) -> Seq<u8> {
        self.data@
    }
}

impl FastByteBuffer {
    /// The number of bytes that the destination takes.
    pub closed spec fn spec_capacity(&self) -> nat {
        self.capacity as nat
    }

    /// A writer with room for `capacity` bytes, none of them written. No
    /// allocation is larger than `isize::MAX` bytes.
    pub fn new(capacity: usize) -> (res: Self)
        requires
            capacity <= isize::MAX,
        ensures
            res@ == Seq::<u8>::empty(),
            res.spec_capacity() == capacity,
    {
        Self { data: Vec::with_capacity(capacity), capacity }
    }

    /// The number of bytes written.
    pub fn len(&self) -> (res: usize)
        ensures
            res == self@.len(),
    {
        self.data.len()
    }

    pub fn is_empty(&self) -> (res: bool)
        ensures
            res == (self@.len() == 0),
    {
        self.data.len() == 0
    }

    pub fn capacity(&self) -> (res: usize)
        ensures
            res == self.spec_capacity(),
    {
        self.capacity
    }

    /// The bytes written so far.
    pub fn as_bytes(&self) -> (res: &[u8])
        ensures
            res@ == self@,
    {
        self.data.as_slice()
    }

    /// Appends one byte, for which there must be room.
    pub fn write_u8(&mut self, value: u8)
        requires
            old(self)@.len() < old(self).spec_capacity(),
        ensures
            final(self)@ == old(self)@.push(value),
            final(self).spec_capacity() == old(self).spec_capacity(),
    {
        self.data.push(value);
    }

    /// Appends the four bytes of `value`, least significant first. There must
    /// be room for them.
    pub fn write_u32(&mut self, value: u32)
        requires
            old(self)@.len() + 4 <= old(self).spec_capacity(),
        ensures
            final(self)@ == old(self)@ + u32_bytes(value),
            final(self).spec_capacity() == old(self).spec_capacity(),
    {
        let bytes = u32_to_bytes(value);
        self.write_bytes(bytes.as_slice());
    }

    /// Appends `bytes`, for which there must be room.
    pub fn write_bytes(&mut self, bytes: &[u8])
        requires
            old(self)@.len() + bytes@.len() <= old(self).spec_capacity(),
        ensures
            final(self)@ == old(self)@ + bytes@,
            final(self).spec_capacity() == old(self).spec_capacity(),
    {
        let mut i: usize = 0;
        while i < bytes.len()
            invariant
                i <= bytes@.len(),
                old(self)@.len() + bytes@.len() <= old(self).spec_capacity(),
                self.spec_capacity() == old(self).spec_capacity(),
                self@ == old(self)@ + bytes@.take(i as int),
            decreases bytes@.len() - i,
        {
            self.write_u8(bytes[i]);
            i += 1;
            assert(self@ =~= old(self)@ + bytes@.take(i as int));
        }
        assert(bytes@.take(i as int) =~= bytes@);
    }
}

} // verus!
