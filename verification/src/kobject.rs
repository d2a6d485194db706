//! The kernel objects that the wire formats live in, held as plain values.
use vstd::prelude::*;

verus! {

/// A memory object of the kernel, held as the bytes it contains.
pub struct MemoryObject {
    bytes: Vec<u8>,
}

impl View for MemoryObject {
    type V = Seq<u8>;

    closed spec fn view(&self) -> Seq<u8> {
        self.bytes@
    }
}

impl MemoryObject {
    /// A fresh memory object of `size` bytes; the kernel hands it out zeroed.
    pub fn create(size: usize) -> (r: MemoryObject)
        ensures
            r@ == Seq::new(size as nat, |i: int| 0u8),
    {
        let mut bytes: Vec<u8> = Vec::new();
        let mut i: usize = 0;
        while i < size
            invariant
                i <= size,
                bytes@ == Seq::new(i as nat, |j: int| 0u8),
            decreases size - i,
        {
            bytes.push(0u8);
            i = i + 1;
            assert(bytes@ =~= Seq::new(i as nat, |j: int| 0u8));
        }
        MemoryObject { bytes }
    }

    /// A memory object that holds `bytes`.
    pub fn from_bytes(bytes: Vec<u8>) -> (r: MemoryObject)
        ensures
            r@ == bytes@,
    {
        MemoryObject { bytes }
    }

    /// The size of the memory object in bytes.
    pub fn size(&self) -> (r: usize)
        ensures
            r == self@.len(),
    {
        self.bytes.len()
    }

    /// The contents of the memory object.
    pub fn as_slice(&self) -> (r: &[u8])
        ensures
            r@ == self@,
    {
        self.bytes.as_slice()
    }

    /// The contents, for writing.
    pub fn as_mut_slice(&mut self) -> (r: &mut [u8])
        ensures
            r@ == old(self)@,
            final(self)@ == final(r)@,
    {
        self.bytes.as_mut_slice()
    }

    /// A copy of the memory object (a second handle to the same contents).
    pub fn clone_object(&self) -> (r: MemoryObject)
        ensures
            r@ == self@,
    {
        MemoryObject { bytes: self.bytes.clone() }
    }
}

/// The sending side of a kernel port, held as its handle number.
#[derive(Debug, Clone, Copy, PartialEq, Eq, Structural)]
pub struct PortSender(pub u64);

/// The receiving side of a kernel port, held as its handle number.
#[derive(Debug, Clone, Copy, PartialEq, Eq, Structural)]
pub struct PortReceiver(pub u64);

} // verus!
