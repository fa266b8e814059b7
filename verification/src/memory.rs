//! A read-only view of the cartridge window and work RAM.

use crate::bus::{OPEN_BUS, ROM_END, WRAM_END, WRAM_START};
use vstd::prelude::*;

pub mod rom;
pub mod wram;

use rom::Rom;
use wram::Wram;

verus! {

/// What the memory holds: the cartridge image and work RAM.
#[verifier::ext_equal]
pub struct MemoryView {
    pub rom: Seq<u8>,
    pub wram: Seq<u8>,
}

impl MemoryView {
    /// The byte at `address`: from the cartridge window, from work RAM, or
    /// `OPEN_BUS` where neither is mapped.
    pub open spec fn read(self, address: u16) -> u8 {
        if address <= ROM_END {
            self.rom[address as int]
        } else if WRAM_START <= address <= WRAM_END {
            self.wram[address - WRAM_START]
        } else {
            OPEN_BUS
        }
    }
}

pub struct Memory {
    rom: Rom,
    wram: Wram,
}

impl View for Memory {
    type V = MemoryView;

    closed spec fn view(&self) -> MemoryView {
        MemoryView { rom: self.rom@, wram: self.wram@ }
    }
}

impl Memory {
    /// Memory over the cartridge `rom`, with zeroed work RAM.
    pub fn new(rom: Rom) -> (memory: Memory)
        ensures
            memory@.rom == rom@,
            memory@.wram == Seq::new(wram::WRAM_SIZE as nat, |i: int| 0u8),
    {
        let wram = Wram::new();
        Memory { rom, wram }
    }

    pub fn read(&self, address: u16) -> (data: u8)
        ensures
            data == self@.read(address),
    {
        if address <= ROM_END {
            self.rom.read(address)
        } else if WRAM_START <= address && address <= WRAM_END {
            self.wram.read(address - WRAM_START)
        } else {
            OPEN_BUS
        }
    }

    /// Writes are dropped: nothing changes.
    pub fn write(&mut self, address: u16, data: u8)
        ensures
            final(self)@ == old(self)@,
    {
    }
}

} // verus!
