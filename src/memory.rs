//! A flat byte-addressable memory covering the whole 16-bit address space.
use vstd::prelude::*;

verus! {

/// Number of addressable bytes: every 16-bit address.
pub const MEMORY_SIZE: usize = 65536;

/// Byte-addressable memory; reads and writes touch only the addressed byte.
pub struct Memory {
    bytes: Vec<u8>,
}

impl View for Memory {
    type V = Seq<u8>;

    closed spec fn view(&self) -> Seq<u8> {
        self.bytes@
    }
}

impl Memory {
    /// Every 16-bit address has a byte.
    pub open spec fn wf(&self) -> bool {
        self@.len() == MEMORY_SIZE
    }

    /// A memory with every byte zero.
    pub fn new() -> (r: Memory)
        ensures
            r.wf(),
            r@ == Seq::new(MEMORY_SIZE as nat, |i: int| 0u8),
    {
        let mut bytes: Vec<u8> = Vec::with_capacity(MEMORY_SIZE);
        let mut i: usize = 0;
        while i < MEMORY_SIZE
            invariant
                i <= MEMORY_SIZE,
                bytes@ == Seq::new(i as nat, |j: int| 0u8),
            decreases MEMORY_SIZE - i,
        {
            bytes.push(0);
            i = i + 1;
        }
        Memory { bytes }
    }

    /// The byte at `address`.
    pub fn read_u8(&self, address: u16) -> (r: u8)
        requires
            self.wf(),
        ensures
            r == self@[address as int],
    {
        self.bytes[address as usize]
    }

    /// Stores `value` at `address`, leaving every other byte as it was.
    pub fn write_u8(&mut self, address: u16, value: u8)
        requires
            old(self).wf(),
        ensures
            final(self)@ == old(self)@.update(address as int, value),
            final(self).wf(),
    {
        self.bytes.set(address as usize, value);
    }
}

} // verus!
