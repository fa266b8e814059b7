//! The address bus: every 16-bit address belongs to the cartridge window, to
//! video RAM, to work RAM, or to nothing.

use crate::memory::rom::{Rom, ROM_SIZE};
use crate::memory::wram::{Wram, WRAM_SIZE};
use vstd::prelude::*;

pub mod vram;

use vram::{Vram, VRAM_SIZE};

verus! {

/// First address of the cartridge window.
pub const ROM_START: u16 = 0x0000;

/// Last address of the cartridge window.
pub const ROM_END: u16 = 0x3FFF;

/// First address of video RAM.
pub const VRAM_START: u16 = 0x8000;

/// Last address of video RAM.
pub const VRAM_END: u16 = 0x9FFF;

/// First address of work RAM.
pub const WRAM_START: u16 = 0xC000;

/// Last address of work RAM.
pub const WRAM_END: u16 = 0xCFFF;

/// What a read of an address that nothing backs returns.
pub const OPEN_BUS: u8 = 0xFF;

/// The owner of an address.
#[derive(Clone, Copy, PartialEq, Eq, Structural, Debug)]
pub enum Region {
    Rom,
    Vram,
    Wram,
    Unmapped,
}

/// Why a write changed nothing.
#[derive(Clone, Copy, PartialEq, Eq, Structural, Debug)]
pub enum BusWarningKind {
    WriteToReadOnly,
    WriteUnmapped,
}

/// A write that the bus dropped.
#[derive(Clone, Copy, PartialEq, Eq, Structural, Debug)]
pub struct BusWarning {
    pub address: u16,
    pub kind: BusWarningKind,
}

/// The region that owns `address`.
pub open spec fn spec_region(address: u16) -> Region {
    if address <= ROM_END {
        Region::Rom
    } else if VRAM_START <= address <= VRAM_END {
        Region::Vram
    } else if WRAM_START <= address <= WRAM_END {
        Region::Wram
    } else {
        Region::Unmapped
    }
}

pub fn region(address: u16) -> (r: Region)
    ensures
        r == spec_region(address),
{
    if address <= ROM_END {
        Region::Rom
    } else if VRAM_START <= address && address <= VRAM_END {
        Region::Vram
    } else if WRAM_START <= address && address <= WRAM_END {
        Region::Wram
    } else {
        Region::Unmapped
    }
}

/// What the bus holds: the three stores and the warnings recorded so far,
/// oldest first.
#[verifier::ext_equal]
pub struct BusView {
    pub rom: Seq<u8>,
    pub vram: Seq<u8>,
    pub wram: Seq<u8>,
    pub warnings: Seq<BusWarning>,
}

impl BusView {
    pub open spec fn wf(self) -> bool {
        &&& self.rom.len() == ROM_SIZE
        &&& self.vram.len() == VRAM_SIZE
        &&& self.wram.len() == WRAM_SIZE
    }

    /// The byte at `address`; `OPEN_BUS` where nothing is mapped.
    pub open spec fn read(self, address: u16) -> u8 {
        match spec_region(address) {
            Region::Rom => self.rom[address as int],
            Region::Vram => self.vram[address - VRAM_START],
            Region::Wram => self.wram[address - WRAM_START],
            Region::Unmapped => OPEN_BUS,
        }
    }

    /// The bus after a write: RAM takes the byte; the cartridge window and
    /// unmapped addresses keep what they hold and a warning is recorded.
    pub open spec fn write(self, address: u16, data: u8) -> BusView {
        match spec_region(address) {
            Region::Rom => BusView {
                warnings: self.warnings.push(
                    BusWarning { address, kind: BusWarningKind::WriteToReadOnly },
                ),
                ..self
            },
            Region::Vram => BusView {
                vram: self.vram.update(address - VRAM_START, data),
                ..self
            },
            Region::Wram => BusView {
                wram: self.wram.update(address - WRAM_START, data),
                ..self
            },
            Region::Unmapped => BusView {
                warnings: self.warnings.push(
                    BusWarning { address, kind: BusWarningKind::WriteUnmapped },
                ),
                ..self
            },
        }
    }
}

/// A write to the cartridge window or to an unmapped address changes no
/// byte that a read returns; it records one warning with the address.
pub proof fn lemma_write_dropped(bus: BusView, address: u16, data: u8, other: u16)
    requires
        spec_region(address) == Region::Rom || spec_region(address) == Region::Unmapped,
    ensures
        bus.write(address, data).read(other) == bus.read(other),
        bus.write(address, data).warnings.len() == bus.warnings.len() + 1,
        bus.write(address, data).warnings.last().address == address,
        bus.write(address, data).warnings.last().kind == (if spec_region(address)
            == Region::Rom {
            BusWarningKind::WriteToReadOnly
        } else {
            BusWarningKind::WriteUnmapped
        }),
{
}

/// A write to RAM is read back at its address, changes no other address and
/// records no warning.
pub proof fn lemma_write_ram(bus: BusView, address: u16, data: u8, other: u16)
    requires
        bus.wf(),
        spec_region(address) == Region::Vram || spec_region(address) == Region::Wram,
    ensures
        bus.write(address, data).read(address) == data,
        other != address ==> bus.write(address, data).read(other) == bus.read(other),
        bus.write(address, data).warnings == bus.warnings,
        bus.write(address, data).wf(),
{
}

/// A read of an unmapped address returns the open-bus value.
pub proof fn lemma_read_unmapped(bus: BusView, address: u16)
    requires
        spec_region(address) == Region::Unmapped,
    ensures
        bus.read(address) == OPEN_BUS,
{
}

pub struct Bus {
    rom: Rom,
    vram: Vram,
    wram: Wram,
    warnings: Vec<BusWarning>,
}

impl View for Bus {
    type V = BusView;

    closed spec fn view(&self) -> BusView {
        BusView { rom: self.rom@, vram: self.vram@, wram: self.wram@, warnings: self.warnings@ }
    }
}

impl Bus {
    /// A bus over the cartridge `rom`, with zeroed RAM and no warnings.
    pub fn new(rom: Rom) -> (bus: Bus)
        ensures
            bus@.wf(),
            bus@.rom == rom@,
            bus@.vram == Seq::new(VRAM_SIZE as nat, |i: int| 0u8),
            bus@.wram == Seq::new(WRAM_SIZE as nat, |i: int| 0u8),
            bus@.warnings == Seq::<BusWarning>::empty(),
    {
        proof {
            rom.lemma_len();
        }
        Bus { rom, vram: Vram::new(), wram: Wram::new(), warnings: Vec::new() }
    }

    pub fn read(&self, address: u16) -> (data: u8)
        ensures
            data == self@.read(address),
    {
        match region(address) {
            Region::Rom => self.rom.read(address),
            Region::Vram => self.vram.read(address - VRAM_START),
            Region::Wram => self.wram.read(address - WRAM_START),
            Region::Unmapped => OPEN_BUS,
        }
    }

    pub fn write(&mut self, address: u16, data: u8)
        ensures
            final(self)@ == old(self)@.write(address, data),
            final(self)@.wf(),
    {
        proof {
            self.rom.lemma_len();
            self.vram.lemma_len();
            self.wram.lemma_len();
        }
        match region(address) {
            Region::Rom => {
                self.warnings.push(BusWarning { address, kind: BusWarningKind::WriteToReadOnly });
            },
            Region::Vram => {
                self.vram.write(address - VRAM_START, data);
            },
            Region::Wram => {
                self.wram.write(address - WRAM_START, data);
            },
            Region::Unmapped => {
                self.warnings.push(BusWarning { address, kind: BusWarningKind::WriteUnmapped });
            },
        }
    }

    pub fn get_rom(&self) -> (rom: &Rom)
        ensures
            rom@ == self@.rom,
    {
        &self.rom
    }

    /// The writes dropped so far, oldest first.
    pub fn warnings(&self) -> (w: &Vec<BusWarning>)
        ensures
            w@ == self@.warnings,
    {
        &self.warnings
    }

    /// Forgets the recorded warnings; the stores stay as they are.
    pub fn clear_warnings(&mut self)
        ensures
            final(self)@ == (BusView { warnings: Seq::empty(), ..old(self)@ }),
    {
        self.warnings.clear();
    }

    /// The stores always have their full size.
    pub proof fn lemma_wf(&self)
        ensures
            self@.wf(),
    {
        self.rom.lemma_len();
        self.vram.lemma_len();
        self.wram.lemma_len();
    }
}

} // verus!
