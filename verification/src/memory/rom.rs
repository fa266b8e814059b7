//! The cartridge image.

use vstd::prelude::*;

verus! {

/// Bytes in a cartridge image.
pub const ROM_SIZE: usize = 32768;

/// A cartridge image of `ROM_SIZE` bytes, addressed from zero.
#[derive(Copy, Clone)]
pub struct Rom {
    data: [u8; 32768],
}

impl View for Rom {
    type V = Seq<u8>;

    closed spec fn view(&self) -> Seq<u8> {
        self.data@
    }
}

impl Rom {
    /// An image of zeros.
    pub fn new() -> (rom: Rom)
        ensures
            rom@ == Seq::new(ROM_SIZE as nat, |i: int| 0u8),
    {
        Rom { data: [0u8; 32768] }
    }

    /// Copies `image` over the start of the cartridge; what lies behind it
    /// stays.
    pub fn load_rom(&mut self, image: &[u8])
        requires
            image@.len() <= ROM_SIZE,
        ensures
            final(self)@ == image@ + old(self)@.subrange(image@.len() as int, ROM_SIZE as int),
    {
        let n: usize = image.len();
        let mut i: usize = 0;
        while i < n
            invariant
                n == image@.len(),
                n <= ROM_SIZE,
                i <= n,
                self@.len() == ROM_SIZE,
                forall|k: int| 0 <= k < i ==> self@[k] == image@[k],
                forall|k: int| i <= k < ROM_SIZE ==> self@[k] == old(self)@[k],
            decreases n - i,
        {
            self.write(i as u16, image[i]);
            i += 1;
        }
    }

    pub fn write(&mut self, address: u16, data: u8)
        requires
            address < ROM_SIZE,
        ensures
            final(self)@ == old(self)@.update(address as int, data),
    {
        self.data[address as usize] = data;
    }

    pub fn read(&self, address: u16) -> (data: u8)
        requires
            address < ROM_SIZE,
        ensures
            data == self@[address as int],
    {
        self.data[address as usize]
    }

    /// The image always has `ROM_SIZE` bytes.
    pub proof fn lemma_len(&self)
        ensures
            self@.len() == ROM_SIZE,
    {
    }
}

} // verus!
