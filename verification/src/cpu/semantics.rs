//! What an instruction does to the machine: the processor together with the
//! bus it works on.

use super::alu::{
    bit_mask, spec_add16, spec_add_offset, spec_alu, spec_daa, spec_dec, spec_inc, spec_rotate,
    spec_rotate_a, AluOp, RotOp,
};
use super::opcodes::AddressingMode;
use super::registers::{Flags, Register, Register16, Registers};
use super::table::{
    spec_lookup, spec_lookup_prefixed, Class, Condition, Indirect, Opcode, Operand8, Operation,
    PREFIX,
};
use super::{CpuView, DecodeError, ExecutorState};
use crate::bits::{spec_high, spec_low, spec_offset, spec_word, wrap16};
use crate::bus::BusView;
use vstd::prelude::*;

verus! {

/// The processor and the bus.
#[verifier::ext_equal]
pub struct Machine {
    pub cpu: CpuView,
    pub bus: BusView,
}

/// The machine after a step, and whether the step found an instruction.
#[verifier::ext_equal]
pub struct Outcome {
    pub machine: Machine,
    pub result: Result<(), DecodeError>,
}

pub open spec fn machine(cpu: CpuView, bus: BusView) -> Machine {
    Machine { cpu, bus }
}

/// The address `0xFF00 + low`.
pub open spec fn high_page(low: u8) -> u16 {
    spec_word(0xFF, low)
}

impl Registers {
    /// Whether a condition lets a jump, call or return happen; no condition
    /// always does.
    pub open spec fn holds(self, condition: Option<Condition>) -> bool {
        match condition {
            None => true,
            Some(Condition::NZ) => !self.flags.z,
            Some(Condition::Z) => self.flags.z,
            Some(Condition::NC) => !self.flags.c,
            Some(Condition::C) => self.flags.c,
        }
    }

    /// The address that an indirect accumulator access uses.
    pub open spec fn indirect_address(self, i: Indirect) -> u16 {
        match i {
            Indirect::BC => self.get16(Register16::BC),
            Indirect::DE => self.get16(Register16::DE),
            Indirect::HLInc | Indirect::HLDec => self.get16(Register16::HL),
        }
    }

    /// `HL` moves after an access through `(HL+)` or `(HL-)`.
    pub open spec fn after_indirect(self, i: Indirect) -> Registers {
        match i {
            Indirect::BC | Indirect::DE => self,
            Indirect::HLInc => self.set16(Register16::HL, wrap16(self.get16(Register16::HL) + 1)),
            Indirect::HLDec => self.set16(Register16::HL, wrap16(self.get16(Register16::HL) - 1)),
        }
    }

    /// An accumulator operation with the operand value `v`.
    pub open spec fn accumulate(self, op: AluOp, v: u8) -> Registers {
        let r = spec_alu(op, self.a, v, self.flags);
        self.set8(Register::A, r.value).with_flags(r.flags)
    }

    /// A rotation of the accumulator from the base table.
    pub open spec fn rotate_a(self, op: RotOp) -> Registers {
        let r = spec_rotate_a(op, self.a, self.flags);
        self.set8(Register::A, r.value).with_flags(r.flags)
    }

    pub open spec fn daa(self) -> Registers {
        let r = spec_daa(self.a, self.flags);
        self.set8(Register::A, r.value).with_flags(r.flags)
    }

    pub open spec fn cpl(self) -> Registers {
        self.set8(Register::A, !self.a).with_flags(Flags { n: true, h: true, ..self.flags })
    }

    pub open spec fn scf(self) -> Registers {
        self.with_flags(Flags { n: false, h: false, c: true, ..self.flags })
    }

    pub open spec fn ccf(self) -> Registers {
        self.with_flags(Flags { n: false, h: false, c: !self.flags.c, ..self.flags })
    }

    /// `ADD HL,pair`
    pub open spec fn add_hl(self, pair: Register16) -> Registers {
        let r = spec_add16(self.get16(Register16::HL), self.get16(pair), self.flags);
        self.set16(Register16::HL, r.value).with_flags(r.flags)
    }

    /// The stack pointer plus a signed byte goes to `target`.
    pub open spec fn add_sp(self, target: Register16, e: u8) -> Registers {
        let r = spec_add_offset(self.sp, e);
        self.set16(target, r.value).with_flags(r.flags)
    }

    pub open spec fn inc16(self, pair: Register16) -> Registers {
        self.set16(pair, wrap16(self.get16(pair) + 1))
    }

    pub open spec fn dec16(self, pair: Register16) -> Registers {
        self.set16(pair, wrap16(self.get16(pair) - 1))
    }

    /// The flags after `BIT n` on the value `v`.
    pub open spec fn test_bit(self, n: u8, v: u8) -> Registers {
        self.with_flags(Flags { z: v & bit_mask(n) == 0, n: false, h: true, c: self.flags.c })
    }
}

impl CpuView {
    pub open spec fn jump(self, condition: Option<Condition>, target: u16) -> CpuView {
        if self.regs.holds(condition) {
            self.with_pc(target)
        } else {
            self
        }
    }

    /// The return address is the program counter, which stands behind the
    /// call.
    pub open spec fn call(self, condition: Option<Condition>, target: u16) -> CpuView {
        if self.regs.holds(condition) {
            self.push16(self.regs.pc).with_pc(target)
        } else {
            self
        }
    }

    pub open spec fn ret(self, condition: Option<Condition>) -> CpuView {
        if self.regs.holds(condition) {
            self.pop16().with_pc(self.top16())
        } else {
            self
        }
    }
}

impl Machine {
    pub open spec fn wf(self) -> bool {
        self.cpu.wf() && self.bus.wf()
    }

    pub open spec fn flags(self) -> Flags {
        self.cpu.regs.flags
    }

    pub open spec fn with_regs(self, regs: Registers) -> Machine {
        Machine { cpu: self.cpu.with_regs(regs), ..self }
    }

    pub open spec fn set8(self, r: Register, v: u8) -> Machine {
        self.with_regs(self.cpu.regs.set8(r, v))
    }

    pub open spec fn set16(self, r: Register16, v: u16) -> Machine {
        self.with_regs(self.cpu.regs.set16(r, v))
    }

    pub open spec fn with_flags(self, flags: Flags) -> Machine {
        self.with_regs(self.cpu.regs.with_flags(flags))
    }

    pub open spec fn with_pc(self, pc: u16) -> Machine {
        Machine { cpu: self.cpu.with_pc(pc), ..self }
    }

    pub open spec fn with_state(self, state: ExecutorState) -> Machine {
        Machine { cpu: self.cpu.with_state(state), ..self }
    }

    pub open spec fn write(self, address: u16, v: u8) -> Machine {
        Machine { bus: self.bus.write(address, v), ..self }
    }

    pub open spec fn push16(self, v: u16) -> Machine {
        Machine { cpu: self.cpu.push16(v), ..self }
    }

    pub open spec fn pop16(self) -> Machine {
        Machine { cpu: self.cpu.pop16(), ..self }
    }

    pub open spec fn read_operand(self, o: Operand8) -> u8 {
        match o {
            Operand8::Reg(r) => self.cpu.regs.get8(r),
            Operand8::HlIndirect => self.bus.read(self.cpu.regs.get16(Register16::HL)),
        }
    }

    pub open spec fn write_operand(self, o: Operand8, v: u8) -> Machine {
        match o {
            Operand8::Reg(r) => self.set8(r, v),
            Operand8::HlIndirect => self.write(self.cpu.regs.get16(Register16::HL), v),
        }
    }

    /// The operand that stands at the program counter: nothing, one byte, or
    /// two bytes with the low byte first.
    pub open spec fn operand(self, mode: Option<AddressingMode>) -> u16 {
        let pc = self.cpu.regs.pc;
        match mode {
            None => 0,
            Some(AddressingMode::D8) | Some(AddressingMode::A8) | Some(AddressingMode::R8) => {
                self.bus.read(pc) as u16
            },
            Some(AddressingMode::D16) | Some(AddressingMode::A16) => spec_word(
                self.bus.read(wrap16(pc + 1)),
                self.bus.read(pc),
            ),
        }
    }

    /// The program counter moves behind the operand.
    pub open spec fn after_operand(self, mode: Option<AddressingMode>) -> Machine {
        let pc = self.cpu.regs.pc;
        match mode {
            None => self,
            Some(AddressingMode::D8) | Some(AddressingMode::A8) | Some(AddressingMode::R8) => {
                self.with_pc(wrap16(pc + 1))
            },
            Some(AddressingMode::D16) | Some(AddressingMode::A16) => self.with_pc(wrap16(pc + 2)),
        }
    }

    pub open spec fn with_cpu(self, cpu: CpuView) -> Machine {
        Machine { cpu, ..self }
    }

    /// `INC` of an 8-bit operand.
    pub open spec fn inc(self, o: Operand8) -> Machine {
        let r = spec_inc(self.read_operand(o), self.cpu.regs.flags);
        self.write_operand(o, r.value).with_flags(r.flags)
    }

    /// `DEC` of an 8-bit operand.
    pub open spec fn dec(self, o: Operand8) -> Machine {
        let r = spec_dec(self.read_operand(o), self.cpu.regs.flags);
        self.write_operand(o, r.value).with_flags(r.flags)
    }

    /// A rotation or shift of an 8-bit operand.
    pub open spec fn rotate(self, op: RotOp, o: Operand8) -> Machine {
        let r = spec_rotate(op, self.read_operand(o), self.cpu.regs.flags);
        self.write_operand(o, r.value).with_flags(r.flags)
    }

    /// `LD (a16),SP`: the low byte first.
    pub open spec fn store_sp(self, address: u16) -> Machine {
        self.write(address, spec_low(self.cpu.regs.sp)).write(
            wrap16(address + 1),
            spec_high(self.cpu.regs.sp),
        )
    }

    /// The 8-bit loads and stores.
    #[verifier::opaque]
    pub open spec fn execute_load(self, operation: Operation, operand: u16) -> Machine {
        let regs = self.cpu.regs;
        let byte = spec_low(operand);
        match operation {
            Operation::Ld(dst, src) => self.write_operand(dst, self.read_operand(src)),
            Operation::LdImm(dst) => self.write_operand(dst, byte),
            Operation::LdAFromIndirect(i) => self.with_regs(
                regs.set8(Register::A, self.bus.read(regs.indirect_address(i))).after_indirect(i),
            ),
            Operation::LdIndirectFromA(i) => self.write(regs.indirect_address(i), regs.a).with_regs(
                regs.after_indirect(i),
            ),
            Operation::LdAFromAddr => self.set8(Register::A, self.bus.read(operand)),
            Operation::LdAddrFromA => self.write(operand, regs.a),
            Operation::LdhAFromImm => self.set8(Register::A, self.bus.read(high_page(byte))),
            Operation::LdhImmFromA => self.write(high_page(byte), regs.a),
            Operation::LdAFromC => self.set8(Register::A, self.bus.read(high_page(regs.c))),
            Operation::LdCFromA => self.write(high_page(regs.c), regs.a),
            _ => self,
        }
    }

    /// The 16-bit loads, the pushes and the pops.
    #[verifier::opaque]
    pub open spec fn execute_load16(self, operation: Operation, operand: u16) -> Machine {
        let regs = self.cpu.regs;
        match operation {
            Operation::Ld16Imm(pair) => self.set16(pair, operand),
            Operation::LdAddrFromSp => self.store_sp(operand),
            Operation::LdSpFromHl => self.set16(Register16::SP, regs.get16(Register16::HL)),
            Operation::LdHlFromSpOffset => self.with_regs(
                regs.add_sp(Register16::HL, spec_low(operand)),
            ),
            Operation::Push(pair) => self.push16(regs.get16(pair)),
            Operation::Pop(pair) => self.pop16().set16(pair, self.cpu.top16()),
            _ => self,
        }
    }

    /// The 8-bit arithmetic and logic.
    #[verifier::opaque]
    pub open spec fn execute_arithmetic(self, operation: Operation, operand: u16) -> Machine {
        let regs = self.cpu.regs;
        match operation {
            Operation::Alu(op, src) => self.with_regs(regs.accumulate(op, self.read_operand(src))),
            Operation::AluImm(op) => self.with_regs(regs.accumulate(op, spec_low(operand))),
            Operation::Inc(o) => self.inc(o),
            Operation::Dec(o) => self.dec(o),
            Operation::Daa => self.with_regs(regs.daa()),
            Operation::Cpl => self.with_regs(regs.cpl()),
            Operation::Scf => self.with_regs(regs.scf()),
            Operation::Ccf => self.with_regs(regs.ccf()),
            Operation::Rlca => self.with_regs(regs.rotate_a(RotOp::Rlc)),
            Operation::Rrca => self.with_regs(regs.rotate_a(RotOp::Rrc)),
            Operation::Rla => self.with_regs(regs.rotate_a(RotOp::Rl)),
            Operation::Rra => self.with_regs(regs.rotate_a(RotOp::Rr)),
            _ => self,
        }
    }

    /// The 16-bit arithmetic.
    #[verifier::opaque]
    pub open spec fn execute_arithmetic16(self, operation: Operation, operand: u16) -> Machine {
        let regs = self.cpu.regs;
        match operation {
            Operation::AddHl(pair) => self.with_regs(regs.add_hl(pair)),
            Operation::AddSpOffset => self.with_regs(
                regs.add_sp(Register16::SP, spec_low(operand)),
            ),
            Operation::Inc16(pair) => self.with_regs(regs.inc16(pair)),
            Operation::Dec16(pair) => self.with_regs(regs.dec16(pair)),
            _ => self,
        }
    }

    /// Jumps, calls and returns, and the operations on the processor itself.
    /// A relative jump counts from the program counter, which stands behind
    /// the instruction. `STOP`, `DI` and `EI` change nothing that the
    /// machine holds.
    #[verifier::opaque]
    pub open spec fn execute_control(self, operation: Operation, operand: u16) -> Machine {
        let regs = self.cpu.regs;
        match operation {
            Operation::Halt => self.with_state(ExecutorState::Halted),
            Operation::Jr(condition) => self.with_cpu(
                self.cpu.jump(condition, spec_offset(regs.pc, spec_low(operand))),
            ),
            Operation::Jp(condition) => self.with_cpu(self.cpu.jump(condition, operand)),
            Operation::JpHl => self.with_pc(regs.get16(Register16::HL)),
            Operation::Call(condition) => self.with_cpu(self.cpu.call(condition, operand)),
            Operation::Ret(condition) => self.with_cpu(self.cpu.ret(condition)),
            Operation::Reti => self.with_cpu(self.cpu.ret(None)),
            Operation::Rst(target) => self.with_cpu(self.cpu.call(None, target as u16)),
            _ => self,
        }
    }

    /// The operations of the prefixed table.
    #[verifier::opaque]
    pub open spec fn execute_bits(self, operation: Operation, operand: u16) -> Machine {
        let regs = self.cpu.regs;
        match operation {
            Operation::Rot(op, o) => self.rotate(op, o),
            Operation::Bit(n, o) => self.with_regs(regs.test_bit(n, self.read_operand(o))),
            Operation::Res(n, o) => self.write_operand(o, self.read_operand(o) & !bit_mask(n)),
            Operation::SetBit(n, o) => self.write_operand(o, self.read_operand(o) | bit_mask(n)),
            _ => self,
        }
    }

    /// What the operation does, `operand` being what followed the opcode. The
    /// program counter stands behind the instruction.
    pub open spec fn execute(self, operation: Operation, operand: u16) -> Machine {
        match operation.spec_class() {
            Class::Load => self.execute_load(operation, operand),
            Class::Load16 => self.execute_load16(operation, operand),
            Class::Arithmetic => self.execute_arithmetic(operation, operand),
            Class::Arithmetic16 => self.execute_arithmetic16(operation, operand),
            Class::Control => self.execute_control(operation, operand),
            Class::Bits => self.execute_bits(operation, operand),
        }
    }

    /// Reads the operand of the table entry and runs its operation.
    #[verifier::opaque]
    pub open spec fn run(self, entry: Opcode) -> Machine {
        self.after_operand(entry.mode).execute(entry.operation, self.operand(entry.mode))
    }

    /// What the instruction that starts with the byte `instruction` does, the
    /// program counter standing behind that byte. The prefix byte takes the
    /// next byte as an opcode of the prefixed table. A byte without an
    /// instruction changes nothing and is reported with its address.
    pub open spec fn execute_instruction(self, instruction: u8) -> Outcome {
        let pc = self.cpu.regs.pc;
        if instruction == PREFIX {
            Outcome {
                machine: self.with_pc(wrap16(pc + 1)).run(
                    spec_lookup_prefixed(self.bus.read(pc)),
                ),
                result: Ok(()),
            }
        } else {
            match spec_lookup(instruction) {
                Some(entry) => Outcome { machine: self.run(entry), result: Ok(()) },
                None => Outcome {
                    machine: self,
                    result: Err(DecodeError { opcode: instruction, address: wrap16(pc - 1) }),
                },
            }
        }
    }

    /// One step: nothing unless the processor is running; else the
    /// instruction at the program counter.
    pub open spec fn step(self) -> Outcome {
        let pc = self.cpu.regs.pc;
        if self.cpu.state == ExecutorState::Running {
            self.with_pc(wrap16(pc + 1)).execute_instruction(self.bus.read(pc))
        } else {
            Outcome { machine: self, result: Ok(()) }
        }
    }
}

} // verus!
