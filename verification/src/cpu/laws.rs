//! What holds of the processor in every state.

use super::registers::{Flags, Register, Register16};
use super::semantics::{Machine, Outcome};
use super::table::{
    spec_decode, spec_decode_prefixed, spec_lookup, spec_lookup_prefixed, Class, FlagEffect,
    FlagEffects, Opcode, Operand8, Operation, PREFIX,
};
use super::{CpuView, ExecutorState};
use crate::bits::wrap16;
use vstd::prelude::*;

verus! {

impl FlagEffect {
    /// Whether a flag that was `before` and is `after` went as the effect
    /// says. A computed flag may end either way.
    pub open spec fn respected(self, before: bool, after: bool) -> bool {
        match self {
            FlagEffect::SetOn => after,
            FlagEffect::Clear => !after,
            FlagEffect::Computed => true,
            FlagEffect::Unaffected => after == before,
        }
    }
}

impl FlagEffects {
    /// Whether each of the four flags went as its effect says.
    pub open spec fn respected(self, before: Flags, after: Flags) -> bool {
        &&& self.z.respected(before.z, after.z)
        &&& self.n.respected(before.n, after.n)
        &&& self.h.respected(before.h, after.h)
        &&& self.c.respected(before.c, after.c)
    }
}

/// An operand that is not the flags register.
pub open spec fn plain(o: Operand8) -> bool {
    o != Operand8::Reg(Register::F)
}

impl Operation {
    /// The operation stores into neither `F` nor `AF`, but for `POP AF`.
    pub open spec fn spares_flags(self) -> bool {
        match self {
            Operation::Ld(dst, _) => plain(dst),
            Operation::LdImm(dst) => plain(dst),
            Operation::Inc(o) | Operation::Dec(o) => plain(o),
            Operation::Rot(_, o) | Operation::Res(_, o) | Operation::SetBit(_, o) => plain(o),
            Operation::Ld16Imm(pair) | Operation::Inc16(pair) | Operation::Dec16(pair) => pair
                != Register16::AF,
            _ => true,
        }
    }
}

/// The table entry that a step runs: that of the byte at the program
/// counter, or, behind the prefix byte, that of the next byte in the
/// prefixed table.
pub open spec fn entry_at_pc(m: Machine) -> Option<Opcode> {
    let pc = m.cpu.regs.pc;
    if m.bus.read(pc) == PREFIX {
        Some(spec_lookup_prefixed(m.bus.read(wrap16(pc + 1))))
    } else {
        spec_lookup(m.bus.read(pc))
    }
}

/// No opcode of either table stores into `F` or `AF`, but for `POP AF`.
pub proof fn lemma_table_spares_flags(byte: u8)
    ensures
        spec_decode(byte) matches Some(operation) ==> operation.spares_flags(),
        spec_decode_prefixed(byte).spares_flags(),
{
}

proof fn lemma_load_flags(m: Machine, operation: Operation, operand: u16)
    requires
        operation.spares_flags(),
        operation.spec_class() == Class::Load || operation.spec_class() == Class::Load16,
    ensures
        operation.effects().respected(m.flags(), m.execute(operation, operand).flags()),
{
    reveal(Machine::execute_load);
    reveal(Machine::execute_load16);
}

proof fn lemma_arithmetic_flags(m: Machine, operation: Operation, operand: u16)
    requires
        operation.spares_flags(),
        operation.spec_class() == Class::Arithmetic || operation.spec_class()
            == Class::Arithmetic16,
    ensures
        operation.effects().respected(m.flags(), m.execute(operation, operand).flags()),
{
    reveal(Machine::execute_arithmetic);
    reveal(Machine::execute_arithmetic16);
}

proof fn lemma_control_flags(m: Machine, operation: Operation, operand: u16)
    requires
        operation.spec_class() == Class::Control,
    ensures
        operation.effects().respected(m.flags(), m.execute(operation, operand).flags()),
{
    reveal(Machine::execute_control);
}

proof fn lemma_bits_flags(m: Machine, operation: Operation, operand: u16)
    requires
        operation.spares_flags(),
        operation.spec_class() == Class::Bits,
    ensures
        operation.effects().respected(m.flags(), m.execute(operation, operand).flags()),
{
    reveal(Machine::execute_bits);
}

/// Every operation leaves each flag as its table entry says: a flag marked
/// set ends set, one marked clear ends clear, one marked unaffected keeps its
/// value.
pub proof fn lemma_execute_flags(m: Machine, operation: Operation, operand: u16)
    requires
        operation.spares_flags(),
    ensures
        operation.effects().respected(m.flags(), m.execute(operation, operand).flags()),
{
    match operation.spec_class() {
        Class::Load | Class::Load16 => lemma_load_flags(m, operation, operand),
        Class::Arithmetic | Class::Arithmetic16 => lemma_arithmetic_flags(m, operation, operand),
        Class::Control => lemma_control_flags(m, operation, operand),
        Class::Bits => lemma_bits_flags(m, operation, operand),
    }
}

/// A step of a running processor on an opcode of the table leaves each flag
/// as the entry of that opcode says, whatever the state before.
pub proof fn lemma_step_flags(m: Machine)
    requires
        m.cpu.state == ExecutorState::Running,
        entry_at_pc(m) is Some,
    ensures
        entry_at_pc(m).unwrap().flags.respected(m.flags(), m.step().machine.flags()),
        m.step().result is Ok,
{
    reveal(spec_lookup);
    reveal(spec_lookup_prefixed);
    reveal(Machine::run);
    let pc = m.cpu.regs.pc;
    let first = m.bus.read(pc);
    let fetched = m.with_pc(wrap16(pc + 1));
    let entry = entry_at_pc(m).unwrap();
    lemma_table_spares_flags(first);
    lemma_table_spares_flags(m.bus.read(wrap16(pc + 1)));
    if first == PREFIX {
        let ready = fetched.with_pc(wrap16(fetched.cpu.regs.pc + 1));
        lemma_execute_flags(
            ready.after_operand(entry.mode),
            entry.operation,
            ready.operand(entry.mode),
        );
    } else {
        lemma_execute_flags(
            fetched.after_operand(entry.mode),
            entry.operation,
            fetched.operand(entry.mode),
        );
    }
}

/// A word that was pushed is the word that is popped, and the pop puts the
/// stack pointer back where it was before the push.
pub proof fn lemma_push_pop(cpu: CpuView, value: u16)
    requires
        cpu.wf(),
    ensures
        cpu.push16(value).top16() == value,
        cpu.push16(value).pop16().regs == cpu.regs,
        cpu.push16(value).pop16().wf(),
{
}

/// A call followed by a return comes back behind the call, with the stack
/// pointer where it was.
pub proof fn lemma_call_ret(cpu: CpuView, target: u16)
    requires
        cpu.wf(),
    ensures
        cpu.call(None, target).regs.pc == target,
        cpu.call(None, target).top16() == cpu.regs.pc,
        cpu.call(None, target).ret(None).regs == cpu.regs,
{
    lemma_push_pop(cpu, cpu.regs.pc);
}

/// A step of a processor that is halted or stopped changes nothing.
pub proof fn lemma_idle_step(m: Machine)
    requires
        m.cpu.state != ExecutorState::Running,
    ensures
        m.step() == (Outcome { machine: m, result: Ok(()) }),
{
}

/// `HALT` halts: after the step the processor is halted, the program counter
/// stands behind the opcode, and nothing else has changed.
pub proof fn lemma_halt(m: Machine)
    requires
        m.cpu.state == ExecutorState::Running,
        m.bus.read(m.cpu.regs.pc) == 0x76,
    ensures
        m.step() == (Outcome {
            machine: m.with_pc(wrap16(m.cpu.regs.pc + 1)).with_state(ExecutorState::Halted),
            result: Ok(()),
        }),
        m.step().machine.step() == m.step(),
        m.step().machine.cpu.wake().state == ExecutorState::Running,
{
    reveal(spec_lookup);
    reveal(Machine::run);
    reveal(Machine::execute_control);
}

/// A byte without an instruction leaves the machine as it was, but for the
/// program counter, which stands behind the byte; the error names the byte
/// and where it was fetched from.
pub proof fn lemma_undefined_opcode(m: Machine)
    requires
        m.cpu.state == ExecutorState::Running,
        entry_at_pc(m) is None,
    ensures
        m.step() == (Outcome {
            machine: m.with_pc(wrap16(m.cpu.regs.pc + 1)),
            result: Err(
                super::DecodeError { opcode: m.bus.read(m.cpu.regs.pc), address: m.cpu.regs.pc },
            ),
        }),
{
}

} // verus!
