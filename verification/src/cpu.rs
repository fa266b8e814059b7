//! The processor: the register file, the stack it pushes to, and the state
//! machine that runs one instruction per step.

use crate::bits::{high, low, spec_high, spec_low, spec_word, word, wrap16};
use crate::bus::Bus;
use vstd::prelude::*;

pub mod alu;
pub mod laws;
pub mod lookup;
pub mod opcodes;
pub mod registers;
pub mod semantics;
pub mod table;

use opcodes::AddressingMode;
use registers::{Flags, RegisterFile, Registers};
use semantics::{machine, Outcome};

verus! {

/// Bytes of stack memory: one for every value of the stack pointer.
pub const STACK_SIZE: usize = 65536;

/// Whether the processor runs instructions.
#[derive(Clone, Copy, PartialEq, Eq, Structural, Debug)]
pub enum ExecutorState {
    /// Each step runs one instruction.
    Running,
    /// Steps do nothing until the processor is woken.
    Halted,
    /// Steps do nothing, for good.
    Stopped,
}

/// A byte of the base table that stands for no instruction.
#[derive(Clone, Copy, PartialEq, Eq, Structural, Debug)]
pub struct DecodeError {
    pub opcode: u8,
    /// Where the byte was fetched from.
    pub address: u16,
}

/// What the processor holds: the registers, the stack memory and the state.
#[verifier::ext_equal]
pub struct CpuView {
    pub regs: Registers,
    pub stack: Seq<u8>,
    pub state: ExecutorState,
}

impl CpuView {
    pub open spec fn wf(self) -> bool {
        self.stack.len() == STACK_SIZE
    }

    /// The processor after reset: the registers at their reset values, a
    /// zeroed stack, running.
    pub open spec fn reset() -> CpuView {
        CpuView {
            regs: Registers::reset(),
            stack: Seq::new(STACK_SIZE as nat, |i: int| 0u8),
            state: ExecutorState::Running,
        }
    }

    pub open spec fn with_regs(self, regs: Registers) -> CpuView {
        CpuView { regs, ..self }
    }

    pub open spec fn with_state(self, state: ExecutorState) -> CpuView {
        CpuView { state, ..self }
    }

    pub open spec fn with_pc(self, pc: u16) -> CpuView {
        CpuView { regs: Registers { pc, ..self.regs }, ..self }
    }

    /// The stack pointer goes down by one and the high byte is stored there;
    /// it goes down once more and the low byte is stored there.
    pub open spec fn push16(self, value: u16) -> CpuView {
        let first = wrap16(self.regs.sp - 1);
        let second = wrap16(self.regs.sp - 2);
        CpuView {
            regs: Registers { sp: second, ..self.regs },
            stack: self.stack.update(first as int, spec_high(value)).update(
                second as int,
                spec_low(value),
            ),
            ..self
        }
    }

    /// The word on top of the stack: the low byte at the stack pointer, the
    /// high byte above it.
    pub open spec fn top16(self) -> u16 {
        spec_word(self.stack[wrap16(self.regs.sp + 1) as int], self.stack[self.regs.sp as int])
    }

    /// The stack pointer goes up by two; the stack memory stays.
    pub open spec fn pop16(self) -> CpuView {
        CpuView { regs: Registers { sp: wrap16(self.regs.sp + 2), ..self.regs }, ..self }
    }

    /// An outside wake ends a halt and changes nothing else.
    pub open spec fn wake(self) -> CpuView {
        if self.state == ExecutorState::Halted {
            self.with_state(ExecutorState::Running)
        } else {
            self
        }
    }
}

pub struct Cpu {
    regs: RegisterFile,
    stack: [u8; 65536],
    state: ExecutorState,
}

impl View for Cpu {
    type V = CpuView;

    closed spec fn view(&self) -> CpuView {
        CpuView { regs: self.regs@, stack: self.stack@, state: self.state }
    }
}

impl Cpu {
    /// The register file keeps its invariant.
    pub closed spec fn wf(&self) -> bool {
        self.regs.wf()
    }

    pub fn new() -> (cpu: Cpu)
        ensures
            cpu.wf(),
            cpu@ == CpuView::reset(),
    {
        Cpu { regs: RegisterFile::new(), stack: [0u8; 65536], state: ExecutorState::Running }
    }

    /// Runs one instruction, unless the processor is halted or stopped. A
    /// byte without an instruction is reported; the program counter then
    /// stands behind it.
    pub fn cycle(&mut self, bus: &mut Bus) -> (result: Result<(), DecodeError>)
        requires
            old(self).wf(),
        ensures
            final(self).wf(),
            machine(old(self)@, old(bus)@).step() == (Outcome {
                machine: machine(final(self)@, final(bus)@),
                result,
            }),
    {
        match self.state {
            ExecutorState::Running => {
                let instruction: u8 = self.fetch_byte(bus);
                self.execute_instruction(instruction, bus)
            },
            _ => Ok(()),
        }
    }

    /// Reads the byte at the program counter and moves the counter on.
    pub fn fetch_byte(&mut self, bus: &Bus) -> (data: u8)
        requires
            old(self).wf(),
        ensures
            final(self).wf(),
            data == bus@.read(old(self)@.regs.pc),
            final(self)@ == old(self)@.with_pc(wrap16(old(self)@.regs.pc + 1)),
    {
        let data: u8 = bus.read(self.regs.get16(registers::Register16::PC));
        self.increment_pc();
        data
    }

    /// Reads the operand of an instruction at the program counter and moves
    /// the counter behind it: one byte, or two with the low byte first.
    pub fn fetch_data(&mut self, bus: &Bus, addressing_mode: AddressingMode) -> (data: u16)
        requires
            old(self).wf(),
        ensures
            final(self).wf(),
            data == machine(old(self)@, bus@).operand(Some(addressing_mode)),
            machine(final(self)@, bus@) == machine(old(self)@, bus@).after_operand(
                Some(addressing_mode),
            ),
    {
        match addressing_mode {
            AddressingMode::D8 | AddressingMode::A8 | AddressingMode::R8 => {
                let lo: u8 = self.fetch_byte(bus);
                word(0, lo)
            },
            AddressingMode::A16 | AddressingMode::D16 => {
                let lo: u8 = self.fetch_byte(bus);
                let hi: u8 = self.fetch_byte(bus);
                word(hi, lo)
            },
        }
    }

    pub fn push_stack(&mut self, address: u16)
        requires
            old(self).wf(),
        ensures
            final(self).wf(),
            final(self)@ == old(self)@.push16(address),
    {
        let sp: u16 = self.regs.get16(registers::Register16::SP);
        let first: u16 = sp.wrapping_sub(1);
        let second: u16 = first.wrapping_sub(1);
        self.stack[first as usize] = high(address);
        self.stack[second as usize] = low(address);
        self.regs.set16(registers::Register16::SP, second);
    }

    pub fn pop_stack(&mut self) -> (address: u16)
        requires
            old(self).wf(),
        ensures
            final(self).wf(),
            address == old(self)@.top16(),
            final(self)@ == old(self)@.pop16(),
    {
        let sp: u16 = self.regs.get16(registers::Register16::SP);
        let lo: u8 = self.stack[sp as usize];
        let above: u16 = sp.wrapping_add(1);
        let hi: u8 = self.stack[above as usize];
        self.regs.set16(registers::Register16::SP, above.wrapping_add(1));
        word(hi, lo)
    }

    pub fn increment_pc(&mut self)
        requires
            old(self).wf(),
        ensures
            final(self).wf(),
            final(self)@ == old(self)@.with_pc(wrap16(old(self)@.regs.pc + 1)),
    {
        let pc: u16 = self.regs.get16(registers::Register16::PC);
        self.regs.set16(registers::Register16::PC, pc.wrapping_add(1));
    }

    pub fn state(&self) -> (state: ExecutorState)
        ensures
            state == self@.state,
    {
        self.state
    }

    /// The register file, for inspection.
    pub fn registers(&self) -> (regs: &RegisterFile)
        ensures
            regs@ == self@.regs,
            self.wf() ==> regs.wf(),
    {
        &self.regs
    }

    /// The outside wake signal: a halted processor runs again; a running or
    /// stopped one stays as it is.
    pub fn wake(&mut self)
        requires
            old(self).wf(),
        ensures
            final(self).wf(),
            final(self)@ == old(self)@.wake(),
    {
        match self.state {
            ExecutorState::Halted => {
                self.state = ExecutorState::Running;
            },
            _ => {},
        }
    }

    /// The outside stop request: the processor is stopped for good.
    pub fn stop(&mut self)
        requires
            old(self).wf(),
        ensures
            final(self).wf(),
            final(self)@ == old(self)@.with_state(ExecutorState::Stopped),
    {
        self.state = ExecutorState::Stopped;
    }

    /// The stack memory always has `STACK_SIZE` bytes.
    pub proof fn lemma_view_wf(&self)
        ensures
            self@.wf(),
    {
    }
}

} // verus!
