//! The machine as a whole: the bus, the processor and the picture unit.

use crate::bus::Bus;
use crate::cpu::semantics::{machine, Outcome};
use crate::cpu::{Cpu, CpuView, DecodeError};
use crate::memory::rom::Rom;
use crate::ppu::Ppu;
use vstd::prelude::*;

verus! {

pub struct Gameboy {
    bus: Bus,
    cpu: Cpu,
    ppu: Ppu,
}

impl Gameboy {
    pub closed spec fn wf(&self) -> bool {
        self.cpu.wf()
    }

    /// The processor with the bus it works on.
    pub closed spec fn view(&self) -> crate::cpu::semantics::Machine {
        machine(self.cpu@, self.bus@)
    }

    /// A machine after reset, with the cartridge `rom` on the bus.
    pub fn new(rom: Rom) -> (gb: Gameboy)
        ensures
            gb.wf(),
            gb@.wf(),
            gb@.cpu == CpuView::reset(),
            gb@.bus.rom == rom@,
            gb@.bus.warnings.len() == 0,
    {
        let bus = Bus::new(rom);
        let cpu = Cpu::new();
        proof {
            cpu.lemma_view_wf();
        }
        Gameboy { bus, cpu, ppu: Ppu::new() }
    }

    /// One step of the processor on the bus.
    pub fn cycle(&mut self) -> (result: Result<(), DecodeError>)
        requires
            old(self).wf(),
        ensures
            final(self).wf(),
            old(self)@.step() == (Outcome { machine: final(self)@, result }),
    {
        self.cpu.cycle(&mut self.bus)
    }

    pub fn get_rom(&self) -> (rom: &Rom)
        ensures
            rom@ == self@.bus.rom,
    {
        self.bus.get_rom()
    }

    /// The processor, for inspection.
    pub fn cpu(&self) -> (cpu: &Cpu)
        ensures
            cpu@ == self@.cpu,
            self.wf() ==> cpu.wf(),
    {
        &self.cpu
    }

    /// The bus, for inspection.
    pub fn bus(&self) -> (bus: &Bus)
        ensures
            bus@ == self@.bus,
    {
        &self.bus
    }

    /// The outside wake signal, handed on to the processor.
    pub fn wake(&mut self)
        requires
            old(self).wf(),
        ensures
            final(self).wf(),
            final(self)@ == old(self)@.with_cpu(old(self)@.cpu.wake()),
    {
        self.cpu.wake();
    }
}

} // verus!
