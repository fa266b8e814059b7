//! Work RAM.

use vstd::prelude::*;

verus! {

/// Bytes of work RAM.
pub const WRAM_SIZE: usize = 8192;

/// Work RAM of `WRAM_SIZE` bytes, addressed from zero.
pub struct Wram {
    data: [u8; 8192],
}

impl View for Wram {
    type V = Seq<u8>;

    closed spec fn view(&self) -> Seq<u8> {
        self.data@
    }
}

impl Wram {
    /// All zeros.
    pub fn new() -> (ram: Wram)
        ensures
            ram@ == Seq::new(WRAM_SIZE as nat, |i: int| 0u8),
    {
        Wram { data: [0u8; 8192] }
    }

    pub fn write(&mut self, address: u16, data: u8)
        requires
            address < WRAM_SIZE,
        ensures
            final(self)@ == old(self)@.update(address as int, data),
    {
        self.data[address as usize] = data;
    }

    pub fn read(&self, address: u16) -> (data: u8)
        requires
            address < WRAM_SIZE,
        ensures
            data == self@[address as int],
    {
        self.data[address as usize]
    }

    /// The store always has `WRAM_SIZE` bytes.
    pub proof fn lemma_len(&self)
        ensures
            self@.len() == WRAM_SIZE,
    {
    }
}

} // verus!
