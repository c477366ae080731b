use vstd::prelude::*;

verus! {

/// Number of addressable bytes on the bus.
pub const MEMORY_SIZE: usize = 65536;

/// Flat byte-addressable RAM covering the whole 16-bit address space.
pub struct Memory {
    data: [u8; 65536],
}

impl View for Memory {
    type V = Seq<u8>;

    closed spec fn view(&self) -> Seq<u8> {
        self.data@
    }
}

/// The view of a bus always spans the full 16-bit address space.
pub broadcast proof fn lemma_memory_len(m: &Memory)
    ensures
        #[trigger] m@.len() == MEMORY_SIZE,
{
}

impl Memory {
    /// Every byte of a fresh bus reads as zero.
    pub fn new() -> (r: Memory)
        ensures
            r@.len() == MEMORY_SIZE,
            forall|i: int| 0 <= i < MEMORY_SIZE ==> r@[i] == 0,
    {
        Memory { data: [0u8; 65536] }
    }

    pub fn read(&self, address: u16) -> (r: u8)
        ensures
            r == self@[address as int],
    {
        self.data[address as usize]
    }

    pub fn write(&mut self, address: u16, value: u8)
        ensures
            final(self)@ == old(self)@.update(address as int, value),
    {
        self.data[address as usize] = value;
    }
}

} // verus!
