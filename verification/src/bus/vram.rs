//! Video RAM.

use vstd::prelude::*;

verus! {

/// Bytes of video RAM.
pub const VRAM_SIZE: usize = 8192;

/// Video RAM of `VRAM_SIZE` bytes, addressed from zero.
pub struct Vram {
    data: [u8; 8192],
}

impl View for Vram {
    type V = Seq<u8>;

    closed spec fn view(&self) -> Seq<u8> {
        self.data@
    }
}

impl Vram {
    /// All zeros.
    pub fn new() -> (ram: Vram)
        ensures
            ram@ == Seq::new(VRAM_SIZE as nat, |i: int| 0u8),
    {
        Vram { data: [0u8; 8192] }
    }

    pub fn write(&mut self, address: u16, data: u8)
        requires
            address < VRAM_SIZE,
        ensures
            final(self)@ == old(self)@.update(address as int, data),
    {
        self.data[address as usize] = data;
    }

    pub fn read(&self, address: u16) -> (data: u8)
        requires
            address < VRAM_SIZE,
        ensures
            data == self@[address as int],
    {
        self.data[address as usize]
    }

    /// The store always has `VRAM_SIZE` bytes.
    pub proof fn lemma_len(&self)
        ensures
            self@.len() == VRAM_SIZE,
    {
    }
}

} // verus!
