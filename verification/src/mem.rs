//! The flat byte memory that holds the program image.
use crate::error::Error;
use vstd::prelude::*;
use vstd::slice::slice_subrange;

verus! {

/// Capacity in bytes of a memory made by [`Mem::new`].
pub const DEFAULT_CAPACITY: usize = 8096;

/// A byte array of fixed capacity, addressed from zero. Its view is the
/// sequence of its bytes; no operation changes the length of that sequence.
pub struct Mem {
    data: Vec<u8>,
}

impl View for Mem {
    type V = Seq<u8>;

    closed spec fn view(&self) -> Seq<u8> {
        self.data@
    }
}

/// The bytes of a memory after `bytes` have been stored at `addr`.
pub open spec fn stored(mem: Seq<u8>, addr: int, bytes: Seq<u8>) -> Seq<u8> {
    Seq::new(
        mem.len(),
        |i: int|
            if addr <= i < addr + bytes.len() {
                bytes[i - addr]
            } else {
                mem[i]
            },
    )
}

impl Mem {
    /// A zeroed memory of the default capacity.
    pub fn new() -> (m: Mem)
        ensures
            m@.len() == DEFAULT_CAPACITY,
            forall|i: int| 0 <= i < m@.len() ==> m@[i] == 0,
    {
        Mem::with_capacity(DEFAULT_CAPACITY)
    }

    /// A zeroed memory of `capacity` bytes.
    pub fn with_capacity(capacity: usize) -> (m: Mem)
        ensures
            m@.len() == capacity,
            forall|i: int| 0 <= i < m@.len() ==> m@[i] == 0,
    {
        Mem { data: vec![0u8; capacity] }
    }

    /// The number of bytes that the memory holds.
    pub fn capacity(&self) -> (n: usize)
        ensures
            n == self@.len(),
    {
        self.data.len()
    }

    /// Copies `src` into the memory, starting at address zero. An image
    /// longer than the memory is refused, and the memory is left as it was.
    pub fn memcpy_origin(&mut self, src: Vec<u8>) -> (r: Result<(), Error>)
        ensures
            final(self)@.len() == old(self)@.len(),
            src@.len() <= old(self)@.len() ==> r is Ok && final(self)@ == stored(old(self)@, 0, src@),
            src@.len() > old(self)@.len() ==> r == Err::<(), Error>(Error::OutOfBounds)
                && final(self)@ == old(self)@,
    {
        self.write(0, src.as_slice())
    }

    /// The bytes from `addr` to the end of the memory. Fails at or past the
    /// capacity.
    pub fn get(&self, addr: u64) -> (r: Result<&[u8], Error>)
        ensures
            addr < self@.len() ==> r is Ok && r->Ok_0@ == self@.subrange(
                addr as int,
                self@.len() as int,
            ),
            addr >= self@.len() ==> r == Err::<&[u8], Error>(Error::OutOfBounds),
    {
        let len: usize = self.data.len();
        if addr >= len as u64 {
            return Err(Error::OutOfBounds);
        }
        Ok(slice_subrange(self.data.as_slice(), addr as usize, len))
    }

    /// Stores `bytes` at `addr` and the addresses that follow. Fails, and
    /// stores nothing, if the range `addr .. addr + bytes.len()` reaches
    /// past the capacity.
    pub fn write(&mut self, addr: u64, bytes: &[u8]) -> (r: Result<(), Error>)
        ensures
            final(self)@.len() == old(self)@.len(),
            addr + bytes@.len() <= old(self)@.len() ==> r is Ok && final(self)@ == stored(
                old(self)@,
                addr as int,
                bytes@,
            ),
            addr + bytes@.len() > old(self)@.len() ==> r == Err::<(), Error>(Error::OutOfBounds)
                && final(self)@ == old(self)@,
    {
        let len: usize = self.data.len();
        let count: usize = bytes.len();
        if count > len || addr > (len - count) as u64 {
            return Err(Error::OutOfBounds);
        }
        let base: usize = addr as usize;
        let mut i: usize = 0;
        while i < count
            invariant
                i <= count,
                count == bytes@.len(),
                base + count <= len,
                len == self.data@.len(),
                self.data@ == stored(old(self)@, base as int, bytes@.take(i as int)),
            decreases count - i,
        {
            self.data[base + i] = bytes[i];
            i += 1;
        }
        Ok(())
    }
}

} // verus!
