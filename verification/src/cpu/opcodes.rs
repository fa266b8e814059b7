//! Addressing modes and the execution of instructions.

use super::alu::{
    add16, add_offset, alu, daa, dec8, inc8, mask_of_bit, rotate, rotate_a, AluOp, RotOp,
};
use super::lookup::OpcodeTable;
use super::registers::{Flags, Register, Register16};
use super::semantics::{machine, Machine, Outcome};
use super::table::{Class, Condition, Indirect, Opcode, Operand8, Operation, PREFIX};
use super::{Cpu, DecodeError, ExecutorState};
use crate::bits::{high, low, offset, word, wrap16};
use crate::bus::Bus;
use vstd::prelude::*;

verus! {

/// How the bytes that follow an opcode are read.
#[derive(Clone, Copy, PartialEq, Eq, Structural, Debug)]
pub enum AddressingMode {
    /// An immediate byte.
    D8,
    /// An immediate little-endian word.
    D16,
    /// The low byte of an address in page `0xFF00`.
    A8,
    /// A little-endian address.
    A16,
    /// A signed byte, relative to the address behind the instruction.
    R8,
}

impl Cpu {
    /// Runs the instruction that starts with the byte `instruction`, which
    /// was fetched already: the program counter stands behind it. The operand
    /// bytes are always read, whatever a condition says. A byte without an
    /// instruction changes nothing and is reported with its address.
    pub fn execute_instruction(&mut self, instruction: u8, bus: &mut Bus) -> (result: Result<
        (),
        DecodeError,
    >)
        requires
            old(self).wf(),
        ensures
            final(self).wf(),
            machine(old(self)@, old(bus)@).execute_instruction(instruction) == (Outcome {
                machine: machine(final(self)@, final(bus)@),
                result,
            }),
    {
        if instruction == PREFIX {
            let second: u8 = self.fetch_byte(bus);
            self.run(bus, OpcodeTable::lookup_prefixed(second));
            Ok(())
        } else {
            match OpcodeTable::lookup_opcode(instruction) {
                Some(entry) => {
                    self.run(bus, entry);
                    Ok(())
                },
                None => {
                    let pc: u16 = self.get_register16(Register16::PC);
                    Err(DecodeError { opcode: instruction, address: pc.wrapping_sub(1) })
                },
            }
        }
    }

    /// Reads the operand of a table entry and runs its operation.
    pub fn run(&mut self, bus: &mut Bus, entry: Opcode)
        requires
            old(self).wf(),
        ensures
            final(self).wf(),
            machine(final(self)@, final(bus)@) == machine(old(self)@, old(bus)@).run(entry),
    {
        reveal(Machine::run);
        let operand: u16 = match entry.mode {
            None => 0,
            Some(mode) => self.fetch_data(bus, mode),
        };
        self.execute(bus, entry.operation, operand);
    }

    /// Applies an operation, `operand` being what followed the opcode.
    pub fn execute(&mut self, bus: &mut Bus, operation: Operation, operand: u16)
        requires
            old(self).wf(),
        ensures
            final(self).wf(),
            machine(final(self)@, final(bus)@) == machine(old(self)@, old(bus)@).execute(
                operation,
                operand,
            ),
    {
        match operation.class() {
            Class::Load => self.execute_load(bus, operation, operand),
            Class::Load16 => self.execute_load16(bus, operation, operand),
            Class::Arithmetic => self.execute_arithmetic(bus, operation, operand),
            Class::Arithmetic16 => self.execute_arithmetic16(bus, operation, operand),
            Class::Control => self.execute_control(bus, operation, operand),
            Class::Bits => self.execute_bits(bus, operation, operand),
        }
    }

    fn execute_load(&mut self, bus: &mut Bus, operation: Operation, operand: u16)
        requires
            old(self).wf(),
            operation.spec_class() == Class::Load,
        ensures
            final(self).wf(),
            machine(final(self)@, final(bus)@) == machine(old(self)@, old(bus)@).execute_load(
                operation,
                operand,
            ),
    {
        reveal(Machine::execute_load);
        let byte: u8 = low(operand);
        match operation {
            Operation::Ld(dst, src) => self.load(bus, dst, src),
            Operation::LdImm(dst) => self.write_operand(bus, dst, byte),
            Operation::LdAFromIndirect(i) => {
                let address: u16 = self.indirect_address(i);
                self.set_register(Register::A, bus.read(address));
                self.after_indirect(i);
            },
            Operation::LdIndirectFromA(i) => {
                let address: u16 = self.indirect_address(i);
                bus.write(address, self.get_register(Register::A));
                self.after_indirect(i);
            },
            Operation::LdAFromAddr => self.set_register(Register::A, bus.read(operand)),
            Operation::LdAddrFromA => bus.write(operand, self.get_register(Register::A)),
            Operation::LdhAFromImm => self.set_register(Register::A, bus.read(word(0xFF, byte))),
            Operation::LdhImmFromA => bus.write(word(0xFF, byte), self.get_register(Register::A)),
            Operation::LdAFromC => {
                let c: u8 = self.get_register(Register::C);
                self.set_register(Register::A, bus.read(word(0xFF, c)));
            },
            Operation::LdCFromA => {
                let c: u8 = self.get_register(Register::C);
                bus.write(word(0xFF, c), self.get_register(Register::A));
            },
            _ => {},
        }
    }

    fn execute_load16(&mut self, bus: &mut Bus, operation: Operation, operand: u16)
        requires
            old(self).wf(),
            operation.spec_class() == Class::Load16,
        ensures
            final(self).wf(),
            machine(final(self)@, final(bus)@) == machine(old(self)@, old(bus)@).execute_load16(
                operation,
                operand,
            ),
    {
        reveal(Machine::execute_load16);
        match operation {
            Operation::Ld16Imm(pair) => self.set_register16(pair, operand),
            Operation::LdAddrFromSp => self.store_sp(bus, operand),
            Operation::LdSpFromHl => {
                let hl: u16 = self.get_register16(Register16::HL);
                self.set_register16(Register16::SP, hl);
            },
            Operation::LdHlFromSpOffset => self.add_sp(Register16::HL, low(operand)),
            Operation::Push(pair) => self.push(pair),
            Operation::Pop(pair) => self.pop(pair),
            _ => {},
        }
    }

    fn execute_arithmetic(&mut self, bus: &mut Bus, operation: Operation, operand: u16)
        requires
            old(self).wf(),
            operation.spec_class() == Class::Arithmetic,
        ensures
            final(self).wf(),
            machine(final(self)@, final(bus)@) == machine(old(self)@, old(bus)@).execute_arithmetic(
                operation,
                operand,
            ),
    {
        reveal(Machine::execute_arithmetic);
        match operation {
            Operation::Alu(op, src) => {
                let value: u8 = self.read_operand(bus, src);
                self.accumulate(op, value);
            },
            Operation::AluImm(op) => self.accumulate(op, low(operand)),
            Operation::Inc(o) => self.inc(bus, o),
            Operation::Dec(o) => self.dec(bus, o),
            Operation::Daa => self.decimal_adjust(),
            Operation::Cpl => self.complement(),
            Operation::Scf => self.carry_flag(false),
            Operation::Ccf => self.carry_flag(true),
            Operation::Rlca => self.rotate_accumulator(RotOp::Rlc),
            Operation::Rrca => self.rotate_accumulator(RotOp::Rrc),
            Operation::Rla => self.rotate_accumulator(RotOp::Rl),
            Operation::Rra => self.rotate_accumulator(RotOp::Rr),
            _ => {},
        }
    }

    fn execute_arithmetic16(&mut self, bus: &mut Bus, operation: Operation, operand: u16)
        requires
            old(self).wf(),
            operation.spec_class() == Class::Arithmetic16,
        ensures
            final(self).wf(),
            machine(final(self)@, final(bus)@) == machine(old(self)@, old(bus)@).execute_arithmetic16(
                operation,
                operand,
            ),
    {
        reveal(Machine::execute_arithmetic16);
        match operation {
            Operation::AddHl(pair) => self.add_hl(pair),
            Operation::AddSpOffset => self.add_sp(Register16::SP, low(operand)),
            Operation::Inc16(pair) => self.inc16(pair),
            Operation::Dec16(pair) => self.dec16(pair),
            _ => {},
        }
    }

    fn execute_control(&mut self, bus: &mut Bus, operation: Operation, operand: u16)
        requires
            old(self).wf(),
            operation.spec_class() == Class::Control,
        ensures
            final(self).wf(),
            machine(final(self)@, final(bus)@) == machine(old(self)@, old(bus)@).execute_control(
                operation,
                operand,
            ),
    {
        reveal(Machine::execute_control);
        match operation {
            Operation::Halt => {
                self.state = ExecutorState::Halted;
            },
            Operation::Jr(condition) => {
                let pc: u16 = self.get_register16(Register16::PC);
                self.jump(condition, offset(pc, low(operand)));
            },
            Operation::Jp(condition) => self.jump(condition, operand),
            Operation::JpHl => {
                let hl: u16 = self.get_register16(Register16::HL);
                self.set_register16(Register16::PC, hl);
            },
            Operation::Call(condition) => self.call(condition, operand),
            Operation::Ret(condition) => self.ret(condition),
            Operation::Reti => self.ret(None),
            Operation::Rst(target) => self.call(None, target as u16),
            _ => {},
        }
    }

    fn execute_bits(&mut self, bus: &mut Bus, operation: Operation, operand: u16)
        requires
            old(self).wf(),
            operation.spec_class() == Class::Bits,
        ensures
            final(self).wf(),
            machine(final(self)@, final(bus)@) == machine(old(self)@, old(bus)@).execute_bits(
                operation,
                operand,
            ),
    {
        reveal(Machine::execute_bits);
        match operation {
            Operation::Rot(op, o) => self.rotate(bus, op, o),
            Operation::Bit(n, o) => {
                let value: u8 = self.read_operand(bus, o);
                self.test_bit(n, value);
            },
            Operation::Res(n, o) => {
                let value: u8 = self.read_operand(bus, o);
                self.write_operand(bus, o, value & !mask_of_bit(n));
            },
            Operation::SetBit(n, o) => {
                let value: u8 = self.read_operand(bus, o);
                self.write_operand(bus, o, value | mask_of_bit(n));
            },
            _ => {},
        }
    }

    /// The value of an 8-bit operand.
    pub fn read_operand(&self, bus: &Bus, o: Operand8) -> (value: u8)
        requires
            self.wf(),
        ensures
            value == machine(self@, bus@).read_operand(o),
    {
        match o {
            Operand8::Reg(r) => self.get_register(r),
            Operand8::HlIndirect => bus.read(self.get_register16(Register16::HL)),
        }
    }

    /// Stores into an 8-bit operand.
    pub fn write_operand(&mut self, bus: &mut Bus, o: Operand8, value: u8)
        requires
            old(self).wf(),
        ensures
            final(self).wf(),
            machine(final(self)@, final(bus)@) == machine(old(self)@, old(bus)@).write_operand(
                o,
                value,
            ),
    {
        match o {
            Operand8::Reg(r) => self.set_register(r, value),
            Operand8::HlIndirect => bus.write(self.get_register16(Register16::HL), value),
        }
    }

    /// Whether a condition lets a jump, call or return happen.
    pub fn holds(&self, condition: Option<Condition>) -> (taken: bool)
        ensures
            taken == self@.regs.holds(condition),
    {
        match condition {
            None => true,
            Some(Condition::NZ) => !self.flags().z,
            Some(Condition::Z) => self.flags().z,
            Some(Condition::NC) => !self.flags().c,
            Some(Condition::C) => self.flags().c,
        }
    }

    fn indirect_address(&self, i: Indirect) -> (address: u16)
        requires
            self.wf(),
        ensures
            address == self@.regs.indirect_address(i),
    {
        match i {
            Indirect::BC => self.get_register16(Register16::BC),
            Indirect::DE => self.get_register16(Register16::DE),
            Indirect::HLInc | Indirect::HLDec => self.get_register16(Register16::HL),
        }
    }

    fn after_indirect(&mut self, i: Indirect)
        requires
            old(self).wf(),
        ensures
            final(self).wf(),
            final(self)@ == old(self)@.with_regs(old(self)@.regs.after_indirect(i)),
    {
        match i {
            Indirect::BC | Indirect::DE => {},
            Indirect::HLInc => {
                let hl: u16 = self.get_register16(Register16::HL);
                self.set_register16(Register16::HL, hl.wrapping_add(1));
            },
            Indirect::HLDec => {
                let hl: u16 = self.get_register16(Register16::HL);
                self.set_register16(Register16::HL, hl.wrapping_sub(1));
            },
        }
    }

    /// `LD dst,src`
    pub fn load(&mut self, bus: &mut Bus, dst: Operand8, src: Operand8)
        requires
            old(self).wf(),
        ensures
            final(self).wf(),
            machine(final(self)@, final(bus)@) == machine(old(self)@, old(bus)@).write_operand(
                dst,
                machine(old(self)@, old(bus)@).read_operand(src),
            ),
    {
        let value: u8 = self.read_operand(bus, src);
        self.write_operand(bus, dst, value);
    }

    /// An accumulator operation with the operand value `value`.
    pub fn accumulate(&mut self, op: AluOp, value: u8)
        requires
            old(self).wf(),
        ensures
            final(self).wf(),
            final(self)@ == old(self)@.with_regs(old(self)@.regs.accumulate(op, value)),
    {
        let r = alu(op, self.get_register(Register::A), value, self.flags());
        self.set_register(Register::A, r.value);
        self.set_flags(r.flags);
    }

    fn rotate_accumulator(&mut self, op: RotOp)
        requires
            old(self).wf(),
        ensures
            final(self).wf(),
            final(self)@ == old(self)@.with_regs(old(self)@.regs.rotate_a(op)),
    {
        let r = rotate_a(op, self.get_register(Register::A), self.flags());
        self.set_register(Register::A, r.value);
        self.set_flags(r.flags);
    }

    fn add_sp(&mut self, target: Register16, e: u8)
        requires
            old(self).wf(),
        ensures
            final(self).wf(),
            final(self)@ == old(self)@.with_regs(old(self)@.regs.add_sp(target, e)),
    {
        let r = add_offset(self.get_register16(Register16::SP), e);
        self.set_register16(target, r.value);
        self.set_flags(r.flags);
    }

    /// `LD (a16),SP`: the low byte first.
    fn store_sp(&mut self, bus: &mut Bus, address: u16)
        requires
            old(self).wf(),
        ensures
            final(self).wf(),
            machine(final(self)@, final(bus)@) == machine(old(self)@, old(bus)@).store_sp(address),
    {
        let sp: u16 = self.get_register16(Register16::SP);
        bus.write(address, low(sp));
        bus.write(address.wrapping_add(1), high(sp));
    }

    fn push(&mut self, pair: Register16)
        requires
            old(self).wf(),
        ensures
            final(self).wf(),
            final(self)@ == old(self)@.push16(old(self)@.regs.get16(pair)),
    {
        let value: u16 = self.get_register16(pair);
        self.push_stack(value);
    }

    fn pop(&mut self, pair: Register16)
        requires
            old(self).wf(),
        ensures
            final(self).wf(),
            final(self)@ == old(self)@.pop16().with_regs(
                old(self)@.pop16().regs.set16(pair, old(self)@.top16()),
            ),
    {
        let value: u16 = self.pop_stack();
        self.set_register16(pair, value);
    }

    fn decimal_adjust(&mut self)
        requires
            old(self).wf(),
        ensures
            final(self).wf(),
            final(self)@ == old(self)@.with_regs(old(self)@.regs.daa()),
    {
        let r = daa(self.get_register(Register::A), self.flags());
        self.set_register(Register::A, r.value);
        self.set_flags(r.flags);
    }

    fn complement(&mut self)
        requires
            old(self).wf(),
        ensures
            final(self).wf(),
            final(self)@ == old(self)@.with_regs(old(self)@.regs.cpl()),
    {
        let a: u8 = self.get_register(Register::A);
        let flags = self.flags();
        self.set_register(Register::A, !a);
        self.set_flags(Flags { n: true, h: true, ..flags });
    }

    /// `SCF`, or `CCF` where `flip` is set.
    fn carry_flag(&mut self, flip: bool)
        requires
            old(self).wf(),
        ensures
            final(self).wf(),
            final(self)@ == old(self)@.with_regs(
                if flip {
                    old(self)@.regs.ccf()
                } else {
                    old(self)@.regs.scf()
                },
            ),
    {
        let flags = self.flags();
        self.set_flags(Flags { n: false, h: false, c: !(flip && flags.c), ..flags });
    }

    fn add_hl(&mut self, pair: Register16)
        requires
            old(self).wf(),
        ensures
            final(self).wf(),
            final(self)@ == old(self)@.with_regs(old(self)@.regs.add_hl(pair)),
    {
        let r = add16(
            self.get_register16(Register16::HL),
            self.get_register16(pair),
            self.flags(),
        );
        self.set_register16(Register16::HL, r.value);
        self.set_flags(r.flags);
    }

    fn inc16(&mut self, pair: Register16)
        requires
            old(self).wf(),
        ensures
            final(self).wf(),
            final(self)@ == old(self)@.with_regs(old(self)@.regs.inc16(pair)),
    {
        let value: u16 = self.get_register16(pair);
        self.set_register16(pair, value.wrapping_add(1));
    }

    fn dec16(&mut self, pair: Register16)
        requires
            old(self).wf(),
        ensures
            final(self).wf(),
            final(self)@ == old(self)@.with_regs(old(self)@.regs.dec16(pair)),
    {
        let value: u16 = self.get_register16(pair);
        self.set_register16(pair, value.wrapping_sub(1));
    }

    /// A rotation or shift of an 8-bit operand.
    fn rotate(&mut self, bus: &mut Bus, op: RotOp, o: Operand8)
        requires
            old(self).wf(),
        ensures
            final(self).wf(),
            machine(final(self)@, final(bus)@) == machine(old(self)@, old(bus)@).rotate(op, o),
    {
        let r = rotate(op, self.read_operand(bus, o), self.flags());
        self.write_operand(bus, o, r.value);
        self.set_flags(r.flags);
    }

    /// `BIT n` on the value `value`.
    fn test_bit(&mut self, n: u8, value: u8)
        requires
            old(self).wf(),
        ensures
            final(self).wf(),
            final(self)@ == old(self)@.with_regs(old(self)@.regs.test_bit(n, value)),
    {
        let flags = self.flags();
        self.set_flags(Flags { z: value & mask_of_bit(n) == 0, n: false, h: true, c: flags.c });
    }

    /// `INC` of an 8-bit operand.
    pub fn inc(&mut self, bus: &mut Bus, o: Operand8)
        requires
            old(self).wf(),
        ensures
            final(self).wf(),
            machine(final(self)@, final(bus)@) == machine(old(self)@, old(bus)@).inc(o),
    {
        let r = inc8(self.read_operand(bus, o), self.flags());
        self.write_operand(bus, o, r.value);
        self.set_flags(r.flags);
    }

    /// `DEC` of an 8-bit operand.
    pub fn dec(&mut self, bus: &mut Bus, o: Operand8)
        requires
            old(self).wf(),
        ensures
            final(self).wf(),
            machine(final(self)@, final(bus)@) == machine(old(self)@, old(bus)@).dec(o),
    {
        let r = dec8(self.read_operand(bus, o), self.flags());
        self.write_operand(bus, o, r.value);
        self.set_flags(r.flags);
    }

    /// Sets the program counter where the condition holds.
    pub fn jump(&mut self, condition: Option<Condition>, target: u16)
        requires
            old(self).wf(),
        ensures
            final(self).wf(),
            final(self)@ == old(self)@.jump(condition, target),
    {
        if self.holds(condition) {
            self.set_register16(Register16::PC, target);
        }
    }

    /// Where the condition holds, pushes the program counter, which stands
    /// behind the call, and jumps.
    pub fn call(&mut self, condition: Option<Condition>, target: u16)
        requires
            old(self).wf(),
        ensures
            final(self).wf(),
            final(self)@ == old(self)@.call(condition, target),
    {
        if self.holds(condition) {
            let pc: u16 = self.get_register16(Register16::PC);
            self.push_stack(pc);
            self.set_register16(Register16::PC, target);
        }
    }

    /// Where the condition holds, pops the program counter.
    pub fn ret(&mut self, condition: Option<Condition>)
        requires
            old(self).wf(),
        ensures
            final(self).wf(),
            final(self)@ == old(self)@.ret(condition),
    {
        if self.holds(condition) {
            let address: u16 = self.pop_stack();
            self.set_register16(Register16::PC, address);
        }
    }
}

} // verus!
