//! The two instruction tables, row by row.

use super::alu::{AluOp, RotOp};
use super::opcodes::AddressingMode;
use super::registers::{Register, Register16};
use super::table::{
    spec_lookup, spec_lookup_prefixed, spec_operand_bytes, Condition, FlagEffect, FlagEffects,
    Indirect, Mnemonic, Opcode, Operand8, Operation,
};
use vstd::prelude::*;

verus! {

/// Bytes that an addressing mode reads after the opcode.
pub fn operand_bytes(mode: Option<AddressingMode>) -> (n: u8)
    ensures
        n == spec_operand_bytes(mode),
{
    match mode {
        None => 0,
        Some(AddressingMode::D8) | Some(AddressingMode::A8) | Some(AddressingMode::R8) => 1,
        Some(AddressingMode::D16) | Some(AddressingMode::A16) => 2,
    }
}

fn effects(z: FlagEffect, n: FlagEffect, h: FlagEffect, c: FlagEffect) -> (f: FlagEffects)
    ensures
        f == (FlagEffects { z, n, h, c }),
{
    FlagEffects { z, n, h, c }
}

fn untouched() -> (f: FlagEffects)
    ensures
        f == (FlagEffects {
            z: FlagEffect::Unaffected,
            n: FlagEffect::Unaffected,
            h: FlagEffect::Unaffected,
            c: FlagEffect::Unaffected,
        }),
{
    effects(
        FlagEffect::Unaffected,
        FlagEffect::Unaffected,
        FlagEffect::Unaffected,
        FlagEffect::Unaffected,
    )
}

fn row(
    mnemonic: Mnemonic,
    operation: Operation,
    mode: Option<AddressingMode>,
    cycles: u8,
    flags: FlagEffects,
) -> (entry: Opcode)
    ensures
        entry == (Opcode {
            mnemonic,
            operation,
            mode,
            operand_bytes: spec_operand_bytes(mode),
            cycles,
            flags,
        }),
{
    Opcode { mnemonic, operation, mode, operand_bytes: operand_bytes(mode), cycles, flags }
}

/// Rows `0x00..=0x0F` of the base table.
fn base_00(byte: u8) -> (entry: Option<Opcode>)
    requires
        0x00 <= byte <= 0x0F,
    ensures
        entry == spec_lookup(byte),
{
    reveal(spec_lookup);
    match byte {
        0x00 => Some(row(Mnemonic::Nop, Operation::Nop, None, 4, untouched())),
        0x01 => Some(row(Mnemonic::Ld, Operation::Ld16Imm(Register16::BC), Some(AddressingMode::D16), 12,
            untouched())),
        0x02 => Some(row(Mnemonic::Ld, Operation::LdIndirectFromA(Indirect::BC), None, 8,
            untouched())),
        0x03 => Some(row(Mnemonic::Inc, Operation::Inc16(Register16::BC), None, 8, untouched())),
        0x04 => Some(row(Mnemonic::Inc, Operation::Inc(Operand8::Reg(Register::B)), None, 4,
            effects(FlagEffect::Computed, FlagEffect::Clear, FlagEffect::Computed, FlagEffect::Unaffected))),
        0x05 => Some(row(Mnemonic::Dec, Operation::Dec(Operand8::Reg(Register::B)), None, 4,
            effects(FlagEffect::Computed, FlagEffect::SetOn, FlagEffect::Computed, FlagEffect::Unaffected))),
        0x06 => Some(row(Mnemonic::Ld, Operation::LdImm(Operand8::Reg(Register::B)), Some(AddressingMode::D8), 8,
            untouched())),
        0x07 => Some(row(Mnemonic::Rlca, Operation::Rlca, None, 4,
            effects(FlagEffect::Clear, FlagEffect::Clear, FlagEffect::Clear, FlagEffect::Computed))),
        0x08 => Some(row(Mnemonic::Ld, Operation::LdAddrFromSp, Some(AddressingMode::A16), 20,
            untouched())),
        0x09 => Some(row(Mnemonic::Add, Operation::AddHl(Register16::BC), None, 8,
            effects(FlagEffect::Unaffected, FlagEffect::Clear, FlagEffect::Computed, FlagEffect::Computed))),
        0x0A => Some(row(Mnemonic::Ld, Operation::LdAFromIndirect(Indirect::BC), None, 8,
            untouched())),
        0x0B => Some(row(Mnemonic::Dec, Operation::Dec16(Register16::BC), None, 8, untouched())),
        0x0C => Some(row(Mnemonic::Inc, Operation::Inc(Operand8::Reg(Register::C)), None, 4,
            effects(FlagEffect::Computed, FlagEffect::Clear, FlagEffect::Computed, FlagEffect::Unaffected))),
        0x0D => Some(row(Mnemonic::Dec, Operation::Dec(Operand8::Reg(Register::C)), None, 4,
            effects(FlagEffect::Computed, FlagEffect::SetOn, FlagEffect::Computed, FlagEffect::Unaffected))),
        0x0E => Some(row(Mnemonic::Ld, Operation::LdImm(Operand8::Reg(Register::C)), Some(AddressingMode::D8), 8,
            untouched())),
        _ => Some(row(Mnemonic::Rrca, Operation::Rrca, None, 4,
            effects(FlagEffect::Clear, FlagEffect::Clear, FlagEffect::Clear, FlagEffect::Computed))),
    }
}

/// Rows `0x10..=0x1F` of the base table.
fn base_10(byte: u8) -> (entry: Option<Opcode>)
    requires
        0x10 <= byte <= 0x1F,
    ensures
        entry == spec_lookup(byte),
{
    reveal(spec_lookup);
    match byte {
        0x10 => Some(row(Mnemonic::Stop, Operation::Stop, Some(AddressingMode::D8), 4,
            untouched())),
        0x11 => Some(row(Mnemonic::Ld, Operation::Ld16Imm(Register16::DE), Some(AddressingMode::D16), 12,
            untouched())),
        0x12 => Some(row(Mnemonic::Ld, Operation::LdIndirectFromA(Indirect::DE), None, 8,
            untouched())),
        0x13 => Some(row(Mnemonic::Inc, Operation::Inc16(Register16::DE), None, 8, untouched())),
        0x14 => Some(row(Mnemonic::Inc, Operation::Inc(Operand8::Reg(Register::D)), None, 4,
            effects(FlagEffect::Computed, FlagEffect::Clear, FlagEffect::Computed, FlagEffect::Unaffected))),
        0x15 => Some(row(Mnemonic::Dec, Operation::Dec(Operand8::Reg(Register::D)), None, 4,
            effects(FlagEffect::Computed, FlagEffect::SetOn, FlagEffect::Computed, FlagEffect::Unaffected))),
        0x16 => Some(row(Mnemonic::Ld, Operation::LdImm(Operand8::Reg(Register::D)), Some(AddressingMode::D8), 8,
            untouched())),
        0x17 => Some(row(Mnemonic::Rla, Operation::Rla, None, 4,
            effects(FlagEffect::Clear, FlagEffect::Clear, FlagEffect::Clear, FlagEffect::Computed))),
        0x18 => Some(row(Mnemonic::Jr, Operation::Jr(None), Some(AddressingMode::R8), 12,
            untouched())),
        0x19 => Some(row(Mnemonic::Add, Operation::AddHl(Register16::DE), None, 8,
            effects(FlagEffect::Unaffected, FlagEffect::Clear, FlagEffect::Computed, FlagEffect::Computed))),
        0x1A => Some(row(Mnemonic::Ld, Operation::LdAFromIndirect(Indirect::DE), None, 8,
            untouched())),
        0x1B => Some(row(Mnemonic::Dec, Operation::Dec16(Register16::DE), None, 8, untouched())),
        0x1C => Some(row(Mnemonic::Inc, Operation::Inc(Operand8::Reg(Register::E)), None, 4,
            effects(FlagEffect::Computed, FlagEffect::Clear, FlagEffect::Computed, FlagEffect::Unaffected))),
        0x1D => Some(row(Mnemonic::Dec, Operation::Dec(Operand8::Reg(Register::E)), None, 4,
            effects(FlagEffect::Computed, FlagEffect::SetOn, FlagEffect::Computed, FlagEffect::Unaffected))),
        0x1E => Some(row(Mnemonic::Ld, Operation::LdImm(Operand8::Reg(Register::E)), Some(AddressingMode::D8), 8,
            untouched())),
        _ => Some(row(Mnemonic::Rra, Operation::Rra, None, 4,
            effects(FlagEffect::Clear, FlagEffect::Clear, FlagEffect::Clear, FlagEffect::Computed))),
    }
}

/// Rows `0x20..=0x2F` of the base table.
fn base_20(byte: u8) -> (entry: Option<Opcode>)
    requires
        0x20 <= byte <= 0x2F,
    ensures
        entry == spec_lookup(byte),
{
    reveal(spec_lookup);
    match byte {
        0x20 => Some(row(Mnemonic::Jr, Operation::Jr(Some(Condition::NZ)), Some(AddressingMode::R8), 8,
            untouched())),
        0x21 => Some(row(Mnemonic::Ld, Operation::Ld16Imm(Register16::HL), Some(AddressingMode::D16), 12,
            untouched())),
        0x22 => Some(row(Mnemonic::Ld, Operation::LdIndirectFromA(Indirect::HLInc), None, 8,
            untouched())),
        0x23 => Some(row(Mnemonic::Inc, Operation::Inc16(Register16::HL), None, 8, untouched())),
        0x24 => Some(row(Mnemonic::Inc, Operation::Inc(Operand8::Reg(Register::H)), None, 4,
            effects(FlagEffect::Computed, FlagEffect::Clear, FlagEffect::Computed, FlagEffect::Unaffected))),
        0x25 => Some(row(Mnemonic::Dec, Operation::Dec(Operand8::Reg(Register::H)), None, 4,
            effects(FlagEffect::Computed, FlagEffect::SetOn, FlagEffect::Computed, FlagEffect::Unaffected))),
        0x26 => Some(row(Mnemonic::Ld, Operation::LdImm(Operand8::Reg(Register::H)), Some(AddressingMode::D8), 8,
            untouched())),
        0x27 => Some(row(Mnemonic::Daa, Operation::Daa, None, 4,
            effects(FlagEffect::Computed, FlagEffect::Unaffected, FlagEffect::Clear, FlagEffect::Computed))),
        0x28 => Some(row(Mnemonic::Jr, Operation::Jr(Some(Condition::Z)), Some(AddressingMode::R8), 8,
            untouched())),
        0x29 => Some(row(Mnemonic::Add, Operation::AddHl(Register16::HL), None, 8,
            effects(FlagEffect::Unaffected, FlagEffect::Clear, FlagEffect::Computed, FlagEffect::Computed))),
        0x2A => Some(row(Mnemonic::Ld, Operation::LdAFromIndirect(Indirect::HLInc), None, 8,
            untouched())),
        0x2B => Some(row(Mnemonic::Dec, Operation::Dec16(Register16::HL), None, 8, untouched())),
        0x2C => Some(row(Mnemonic::Inc, Operation::Inc(Operand8::Reg(Register::L)), None, 4,
            effects(FlagEffect::Computed, FlagEffect::Clear, FlagEffect::Computed, FlagEffect::Unaffected))),
        0x2D => Some(row(Mnemonic::Dec, Operation::Dec(Operand8::Reg(Register::L)), None, 4,
            effects(FlagEffect::Computed, FlagEffect::SetOn, FlagEffect::Computed, FlagEffect::Unaffected))),
        0x2E => Some(row(Mnemonic::Ld, Operation::LdImm(Operand8::Reg(Register::L)), Some(AddressingMode::D8), 8,
            untouched())),
        _ => Some(row(Mnemonic::Cpl, Operation::Cpl, None, 4,
            effects(FlagEffect::Unaffected, FlagEffect::SetOn, FlagEffect::SetOn, FlagEffect::Unaffected))),
    }
}

/// Rows `0x30..=0x3F` of the base table.
fn base_30(byte: u8) -> (entry: Option<Opcode>)
    requires
        0x30 <= byte <= 0x3F,
    ensures
        entry == spec_lookup(byte),
{
    reveal(spec_lookup);
    match byte {
        0x30 => Some(row(Mnemonic::Jr, Operation::Jr(Some(Condition::NC)), Some(AddressingMode::R8), 8,
            untouched())),
        0x31 => Some(row(Mnemonic::Ld, Operation::Ld16Imm(Register16::SP), Some(AddressingMode::D16), 12,
            untouched())),
        0x32 => Some(row(Mnemonic::Ld, Operation::LdIndirectFromA(Indirect::HLDec), None, 8,
            untouched())),
        0x33 => Some(row(Mnemonic::Inc, Operation::Inc16(Register16::SP), None, 8, untouched())),
        0x34 => Some(row(Mnemonic::Inc, Operation::Inc(Operand8::HlIndirect), None, 12,
            effects(FlagEffect::Computed, FlagEffect::Clear, FlagEffect::Computed, FlagEffect::Unaffected))),
        0x35 => Some(row(Mnemonic::Dec, Operation::Dec(Operand8::HlIndirect), None, 12,
            effects(FlagEffect::Computed, FlagEffect::SetOn, FlagEffect::Computed, FlagEffect::Unaffected))),
        0x36 => Some(row(Mnemonic::Ld, Operation::LdImm(Operand8::HlIndirect), Some(AddressingMode::D8), 12,
            untouched())),
        0x37 => Some(row(Mnemonic::Scf, Operation::Scf, None, 4,
            effects(FlagEffect::Unaffected, FlagEffect::Clear, FlagEffect::Clear, FlagEffect::SetOn))),
        0x38 => Some(row(Mnemonic::Jr, Operation::Jr(Some(Condition::C)), Some(AddressingMode::R8), 8,
            untouched())),
        0x39 => Some(row(Mnemonic::Add, Operation::AddHl(Register16::SP), None, 8,
            effects(FlagEffect::Unaffected, FlagEffect::Clear, FlagEffect::Computed, FlagEffect::Computed))),
        0x3A => Some(row(Mnemonic::Ld, Operation::LdAFromIndirect(Indirect::HLDec), None, 8,
            untouched())),
        0x3B => Some(row(Mnemonic::Dec, Operation::Dec16(Register16::SP), None, 8, untouched())),
        0x3C => Some(row(Mnemonic::Inc, Operation::Inc(Operand8::Reg(Register::A)), None, 4,
            effects(FlagEffect::Computed, FlagEffect::Clear, FlagEffect::Computed, FlagEffect::Unaffected))),
        0x3D => Some(row(Mnemonic::Dec, Operation::Dec(Operand8::Reg(Register::A)), None, 4,
            effects(FlagEffect::Computed, FlagEffect::SetOn, FlagEffect::Computed, FlagEffect::Unaffected))),
        0x3E => Some(row(Mnemonic::Ld, Operation::LdImm(Operand8::Reg(Register::A)), Some(AddressingMode::D8), 8,
            untouched())),
        _ => Some(row(Mnemonic::Ccf, Operation::Ccf, None, 4,
            effects(FlagEffect::Unaffected, FlagEffect::Clear, FlagEffect::Clear, FlagEffect::Computed))),
    }
}

/// Rows `0x40..=0x4F` of the base table.
fn base_40(byte: u8) -> (entry: Option<Opcode>)
    requires
        0x40 <= byte <= 0x4F,
    ensures
        entry == spec_lookup(byte),
{
    reveal(spec_lookup);
    match byte {
        0x40 => Some(row(Mnemonic::Ld, Operation::Ld(Operand8::Reg(Register::B), Operand8::Reg(Register::B)), None, 4,
            untouched())),
        0x41 => Some(row(Mnemonic::Ld, Operation::Ld(Operand8::Reg(Register::B), Operand8::Reg(Register::C)), None, 4,
            untouched())),
        0x42 => Some(row(Mnemonic::Ld, Operation::Ld(Operand8::Reg(Register::B), Operand8::Reg(Register::D)), None, 4,
            untouched())),
        0x43 => Some(row(Mnemonic::Ld, Operation::Ld(Operand8::Reg(Register::B), Operand8::Reg(Register::E)), None, 4,
            untouched())),
        0x44 => Some(row(Mnemonic::Ld, Operation::Ld(Operand8::Reg(Register::B), Operand8::Reg(Register::H)), None, 4,
            untouched())),
        0x45 => Some(row(Mnemonic::Ld, Operation::Ld(Operand8::Reg(Register::B), Operand8::Reg(Register::L)), None, 4,
            untouched())),
        0x46 => Some(row(Mnemonic::Ld, Operation::Ld(Operand8::Reg(Register::B), Operand8::HlIndirect), None, 8,
            untouched())),
        0x47 => Some(row(Mnemonic::Ld, Operation::Ld(Operand8::Reg(Register::B), Operand8::Reg(Register::A)), None, 4,
            untouched())),
        0x48 => Some(row(Mnemonic::Ld, Operation::Ld(Operand8::Reg(Register::C), Operand8::Reg(Register::B)), None, 4,
            untouched())),
        0x49 => Some(row(Mnemonic::Ld, Operation::Ld(Operand8::Reg(Register::C), Operand8::Reg(Register::C)), None, 4,
            untouched())),
        0x4A => Some(row(Mnemonic::Ld, Operation::Ld(Operand8::Reg(Register::C), Operand8::Reg(Register::D)), None, 4,
            untouched())),
        0x4B => Some(row(Mnemonic::Ld, Operation::Ld(Operand8::Reg(Register::C), Operand8::Reg(Register::E)), None, 4,
            untouched())),
        0x4C => Some(row(Mnemonic::Ld, Operation::Ld(Operand8::Reg(Register::C), Operand8::Reg(Register::H)), None, 4,
            untouched())),
        0x4D => Some(row(Mnemonic::Ld, Operation::Ld(Operand8::Reg(Register::C), Operand8::Reg(Register::L)), None, 4,
            untouched())),
        0x4E => Some(row(Mnemonic::Ld, Operation::Ld(Operand8::Reg(Register::C), Operand8::HlIndirect), None, 8,
            untouched())),
        _ => Some(row(Mnemonic::Ld, Operation::Ld(Operand8::Reg(Register::C), Operand8::Reg(Register::A)), None, 4,
            untouched())),
    }
}

/// Rows `0x50..=0x5F` of the base table.
fn base_50(byte: u8) -> (entry: Option<Opcode>)
    requires
        0x50 <= byte <= 0x5F,
    ensures
        entry == spec_lookup(byte),
{
    reveal(spec_lookup);
    match byte {
        0x50 => Some(row(Mnemonic::Ld, Operation::Ld(Operand8::Reg(Register::D), Operand8::Reg(Register::B)), None, 4,
            untouched())),
        0x51 => Some(row(Mnemonic::Ld, Operation::Ld(Operand8::Reg(Register::D), Operand8::Reg(Register::C)), None, 4,
            untouched())),
        0x52 => Some(row(Mnemonic::Ld, Operation::Ld(Operand8::Reg(Register::D), Operand8::Reg(Register::D)), None, 4,
            untouched())),
        0x53 => Some(row(Mnemonic::Ld, Operation::Ld(Operand8::Reg(Register::D), Operand8::Reg(Register::E)), None, 4,
            untouched())),
        0x54 => Some(row(Mnemonic::Ld, Operation::Ld(Operand8::Reg(Register::D), Operand8::Reg(Register::H)), None, 4,
            untouched())),
        0x55 => Some(row(Mnemonic::Ld, Operation::Ld(Operand8::Reg(Register::D), Operand8::Reg(Register::L)), None, 4,
            untouched())),
        0x56 => Some(row(Mnemonic::Ld, Operation::Ld(Operand8::Reg(Register::D), Operand8::HlIndirect), None, 8,
            untouched())),
        0x57 => Some(row(Mnemonic::Ld, Operation::Ld(Operand8::Reg(Register::D), Operand8::Reg(Register::A)), None, 4,
            untouched())),
        0x58 => Some(row(Mnemonic::Ld, Operation::Ld(Operand8::Reg(Register::E), Operand8::Reg(Register::B)), None, 4,
            untouched())),
        0x59 => Some(row(Mnemonic::Ld, Operation::Ld(Operand8::Reg(Register::E), Operand8::Reg(Register::C)), None, 4,
            untouched())),
        0x5A => Some(row(Mnemonic::Ld, Operation::Ld(Operand8::Reg(Register::E), Operand8::Reg(Register::D)), None, 4,
            untouched())),
        0x5B => Some(row(Mnemonic::Ld, Operation::Ld(Operand8::Reg(Register::E), Operand8::Reg(Register::E)), None, 4,
            untouched())),
        0x5C => Some(row(Mnemonic::Ld, Operation::Ld(Operand8::Reg(Register::E), Operand8::Reg(Register::H)), None, 4,
            untouched())),
        0x5D => Some(row(Mnemonic::Ld, Operation::Ld(Operand8::Reg(Register::E), Operand8::Reg(Register::L)), None, 4,
            untouched())),
        0x5E => Some(row(Mnemonic::Ld, Operation::Ld(Operand8::Reg(Register::E), Operand8::HlIndirect), None, 8,
            untouched())),
        _ => Some(row(Mnemonic::Ld, Operation::Ld(Operand8::Reg(Register::E), Operand8::Reg(Register::A)), None, 4,
            untouched())),
    }
}

/// Rows `0x60..=0x6F` of the base table.
fn base_60(byte: u8) -> (entry: Option<Opcode>)
    requires
        0x60 <= byte <= 0x6F,
    ensures
        entry == spec_lookup(byte),
{
    reveal(spec_lookup);
    match byte {
        0x60 => Some(row(Mnemonic::Ld, Operation::Ld(Operand8::Reg(Register::H), Operand8::Reg(Register::B)), None, 4,
            untouched())),
        0x61 => Some(row(Mnemonic::Ld, Operation::Ld(Operand8::Reg(Register::H), Operand8::Reg(Register::C)), None, 4,
            untouched())),
        0x62 => Some(row(Mnemonic::Ld, Operation::Ld(Operand8::Reg(Register::H), Operand8::Reg(Register::D)), None, 4,
            untouched())),
        0x63 => Some(row(Mnemonic::Ld, Operation::Ld(Operand8::Reg(Register::H), Operand8::Reg(Register::E)), None, 4,
            untouched())),
        0x64 => Some(row(Mnemonic::Ld, Operation::Ld(Operand8::Reg(Register::H), Operand8::Reg(Register::H)), None, 4,
            untouched())),
        0x65 => Some(row(Mnemonic::Ld, Operation::Ld(Operand8::Reg(Register::H), Operand8::Reg(Register::L)), None, 4,
            untouched())),
        0x66 => Some(row(Mnemonic::Ld, Operation::Ld(Operand8::Reg(Register::H), Operand8::HlIndirect), None, 8,
            untouched())),
        0x67 => Some(row(Mnemonic::Ld, Operation::Ld(Operand8::Reg(Register::H), Operand8::Reg(Register::A)), None, 4,
            untouched())),
        0x68 => Some(row(Mnemonic::Ld, Operation::Ld(Operand8::Reg(Register::L), Operand8::Reg(Register::B)), None, 4,
            untouched())),
        0x69 => Some(row(Mnemonic::Ld, Operation::Ld(Operand8::Reg(Register::L), Operand8::Reg(Register::C)), None, 4,
            untouched())),
        0x6A => Some(row(Mnemonic::Ld, Operation::Ld(Operand8::Reg(Register::L), Operand8::Reg(Register::D)), None, 4,
            untouched())),
        0x6B => Some(row(Mnemonic::Ld, Operation::Ld(Operand8::Reg(Register::L), Operand8::Reg(Register::E)), None, 4,
            untouched())),
        0x6C => Some(row(Mnemonic::Ld, Operation::Ld(Operand8::Reg(Register::L), Operand8::Reg(Register::H)), None, 4,
            untouched())),
        0x6D => Some(row(Mnemonic::Ld, Operation::Ld(Operand8::Reg(Register::L), Operand8::Reg(Register::L)), None, 4,
            untouched())),
        0x6E => Some(row(Mnemonic::Ld, Operation::Ld(Operand8::Reg(Register::L), Operand8::HlIndirect), None, 8,
            untouched())),
        _ => Some(row(Mnemonic::Ld, Operation::Ld(Operand8::Reg(Register::L), Operand8::Reg(Register::A)), None, 4,
            untouched())),
    }
}

/// Rows `0x70..=0x7F` of the base table.
fn base_70(byte: u8) -> (entry: Option<Opcode>)
    requires
        0x70 <= byte <= 0x7F,
    ensures
        entry == spec_lookup(byte),
{
    reveal(spec_lookup);
    match byte {
        0x70 => Some(row(Mnemonic::Ld, Operation::Ld(Operand8::HlIndirect, Operand8::Reg(Register::B)), None, 8,
            untouched())),
        0x71 => Some(row(Mnemonic::Ld, Operation::Ld(Operand8::HlIndirect, Operand8::Reg(Register::C)), None, 8,
            untouched())),
        0x72 => Some(row(Mnemonic::Ld, Operation::Ld(Operand8::HlIndirect, Operand8::Reg(Register::D)), None, 8,
            untouched())),
        0x73 => Some(row(Mnemonic::Ld, Operation::Ld(Operand8::HlIndirect, Operand8::Reg(Register::E)), None, 8,
            untouched())),
        0x74 => Some(row(Mnemonic::Ld, Operation::Ld(Operand8::HlIndirect, Operand8::Reg(Register::H)), None, 8,
            untouched())),
        0x75 => Some(row(Mnemonic::Ld, Operation::Ld(Operand8::HlIndirect, Operand8::Reg(Register::L)), None, 8,
            untouched())),
        0x76 => Some(row(Mnemonic::Halt, Operation::Halt, None, 4, untouched())),
        0x77 => Some(row(Mnemonic::Ld, Operation::Ld(Operand8::HlIndirect, Operand8::Reg(Register::A)), None, 8,
            untouched())),
        0x78 => Some(row(Mnemonic::Ld, Operation::Ld(Operand8::Reg(Register::A), Operand8::Reg(Register::B)), None, 4,
            untouched())),
        0x79 => Some(row(Mnemonic::Ld, Operation::Ld(Operand8::Reg(Register::A), Operand8::Reg(Register::C)), None, 4,
            untouched())),
        0x7A => Some(row(Mnemonic::Ld, Operation::Ld(Operand8::Reg(Register::A), Operand8::Reg(Register::D)), None, 4,
            untouched())),
        0x7B => Some(row(Mnemonic::Ld, Operation::Ld(Operand8::Reg(Register::A), Operand8::Reg(Register::E)), None, 4,
            untouched())),
        0x7C => Some(row(Mnemonic::Ld, Operation::Ld(Operand8::Reg(Register::A), Operand8::Reg(Register::H)), None, 4,
            untouched())),
        0x7D => Some(row(Mnemonic::Ld, Operation::Ld(Operand8::Reg(Register::A), Operand8::Reg(Register::L)), None, 4,
            untouched())),
        0x7E => Some(row(Mnemonic::Ld, Operation::Ld(Operand8::Reg(Register::A), Operand8::HlIndirect), None, 8,
            untouched())),
        _ => Some(row(Mnemonic::Ld, Operation::Ld(Operand8::Reg(Register::A), Operand8::Reg(Register::A)), None, 4,
            untouched())),
    }
}

/// Rows `0x80..=0x8F` of the base table.
fn base_80(byte: u8) -> (entry: Option<Opcode>)
    requires
        0x80 <= byte <= 0x8F,
    ensures
        entry == spec_lookup(byte),
{
    reveal(spec_lookup);
    match byte {
        0x80 => Some(row(Mnemonic::Add, Operation::Alu(AluOp::Add, Operand8::Reg(Register::B)), None, 4,
            effects(FlagEffect::Computed, FlagEffect::Clear, FlagEffect::Computed, FlagEffect::Computed))),
        0x81 => Some(row(Mnemonic::Add, Operation::Alu(AluOp::Add, Operand8::Reg(Register::C)), None, 4,
            effects(FlagEffect::Computed, FlagEffect::Clear, FlagEffect::Computed, FlagEffect::Computed))),
        0x82 => Some(row(Mnemonic::Add, Operation::Alu(AluOp::Add, Operand8::Reg(Register::D)), None, 4,
            effects(FlagEffect::Computed, FlagEffect::Clear, FlagEffect::Computed, FlagEffect::Computed))),
        0x83 => Some(row(Mnemonic::Add, Operation::Alu(AluOp::Add, Operand8::Reg(Register::E)), None, 4,
            effects(FlagEffect::Computed, FlagEffect::Clear, FlagEffect::Computed, FlagEffect::Computed))),
        0x84 => Some(row(Mnemonic::Add, Operation::Alu(AluOp::Add, Operand8::Reg(Register::H)), None, 4,
            effects(FlagEffect::Computed, FlagEffect::Clear, FlagEffect::Computed, FlagEffect::Computed))),
        0x85 => Some(row(Mnemonic::Add, Operation::Alu(AluOp::Add, Operand8::Reg(Register::L)), None, 4,
            effects(FlagEffect::Computed, FlagEffect::Clear, FlagEffect::Computed, FlagEffect::Computed))),
        0x86 => Some(row(Mnemonic::Add, Operation::Alu(AluOp::Add, Operand8::HlIndirect), None, 8,
            effects(FlagEffect::Computed, FlagEffect::Clear, FlagEffect::Computed, FlagEffect::Computed))),
        0x87 => Some(row(Mnemonic::Add, Operation::Alu(AluOp::Add, Operand8::Reg(Register::A)), None, 4,
            effects(FlagEffect::Computed, FlagEffect::Clear, FlagEffect::Computed, FlagEffect::Computed))),
        0x88 => Some(row(Mnemonic::Adc, Operation::Alu(AluOp::Adc, Operand8::Reg(Register::B)), None, 4,
            effects(FlagEffect::Computed, FlagEffect::Clear, FlagEffect::Computed, FlagEffect::Computed))),
        0x89 => Some(row(Mnemonic::Adc, Operation::Alu(AluOp::Adc, Operand8::Reg(Register::C)), None, 4,
            effects(FlagEffect::Computed, FlagEffect::Clear, FlagEffect::Computed, FlagEffect::Computed))),
        0x8A => Some(row(Mnemonic::Adc, Operation::Alu(AluOp::Adc, Operand8::Reg(Register::D)), None, 4,
            effects(FlagEffect::Computed, FlagEffect::Clear, FlagEffect::Computed, FlagEffect::Computed))),
        0x8B => Some(row(Mnemonic::Adc, Operation::Alu(AluOp::Adc, Operand8::Reg(Register::E)), None, 4,
            effects(FlagEffect::Computed, FlagEffect::Clear, FlagEffect::Computed, FlagEffect::Computed))),
        0x8C => Some(row(Mnemonic::Adc, Operation::Alu(AluOp::Adc, Operand8::Reg(Register::H)), None, 4,
            effects(FlagEffect::Computed, FlagEffect::Clear, FlagEffect::Computed, FlagEffect::Computed))),
        0x8D => Some(row(Mnemonic::Adc, Operation::Alu(AluOp::Adc, Operand8::Reg(Register::L)), None, 4,
            effects(FlagEffect::Computed, FlagEffect::Clear, FlagEffect::Computed, FlagEffect::Computed))),
        0x8E => Some(row(Mnemonic::Adc, Operation::Alu(AluOp::Adc, Operand8::HlIndirect), None, 8,
            effects(FlagEffect::Computed, FlagEffect::Clear, FlagEffect::Computed, FlagEffect::Computed))),
        _ => Some(row(Mnemonic::Adc, Operation::Alu(AluOp::Adc, Operand8::Reg(Register::A)), None, 4,
            effects(FlagEffect::Computed, FlagEffect::Clear, FlagEffect::Computed, FlagEffect::Computed))),
    }
}

/// Rows `0x90..=0x9F` of the base table.
fn base_90(byte: u8) -> (entry: Option<Opcode>)
    requires
        0x90 <= byte <= 0x9F,
    ensures
        entry == spec_lookup(byte),
{
    reveal(spec_lookup);
    match byte {
        0x90 => Some(row(Mnemonic::Sub, Operation::Alu(AluOp::Sub, Operand8::Reg(Register::B)), None, 4,
            effects(FlagEffect::Computed, FlagEffect::SetOn, FlagEffect::Computed, FlagEffect::Computed))),
        0x91 => Some(row(Mnemonic::Sub, Operation::Alu(AluOp::Sub, Operand8::Reg(Register::C)), None, 4,
            effects(FlagEffect::Computed, FlagEffect::SetOn, FlagEffect::Computed, FlagEffect::Computed))),
        0x92 => Some(row(Mnemonic::Sub, Operation::Alu(AluOp::Sub, Operand8::Reg(Register::D)), None, 4,
            effects(FlagEffect::Computed, FlagEffect::SetOn, FlagEffect::Computed, FlagEffect::Computed))),
        0x93 => Some(row(Mnemonic::Sub, Operation::Alu(AluOp::Sub, Operand8::Reg(Register::E)), None, 4,
            effects(FlagEffect::Computed, FlagEffect::SetOn, FlagEffect::Computed, FlagEffect::Computed))),
        0x94 => Some(row(Mnemonic::Sub, Operation::Alu(AluOp::Sub, Operand8::Reg(Register::H)), None, 4,
            effects(FlagEffect::Computed, FlagEffect::SetOn, FlagEffect::Computed, FlagEffect::Computed))),
        0x95 => Some(row(Mnemonic::Sub, Operation::Alu(AluOp::Sub, Operand8::Reg(Register::L)), None, 4,
            effects(FlagEffect::Computed, FlagEffect::SetOn, FlagEffect::Computed, FlagEffect::Computed))),
        0x96 => Some(row(Mnemonic::Sub, Operation::Alu(AluOp::Sub, Operand8::HlIndirect), None, 8,
            effects(FlagEffect::Computed, FlagEffect::SetOn, FlagEffect::Computed, FlagEffect::Computed))),
        0x97 => Some(row(Mnemonic::Sub, Operation::Alu(AluOp::Sub, Operand8::Reg(Register::A)), None, 4,
            effects(FlagEffect::Computed, FlagEffect::SetOn, FlagEffect::Computed, FlagEffect::Computed))),
        0x98 => Some(row(Mnemonic::Sbc, Operation::Alu(AluOp::Sbc, Operand8::Reg(Register::B)), None, 4,
            effects(FlagEffect::Computed, FlagEffect::SetOn, FlagEffect::Computed, FlagEffect::Computed))),
        0x99 => Some(row(Mnemonic::Sbc, Operation::Alu(AluOp::Sbc, Operand8::Reg(Register::C)), None, 4,
            effects(FlagEffect::Computed, FlagEffect::SetOn, FlagEffect::Computed, FlagEffect::Computed))),
        0x9A => Some(row(Mnemonic::Sbc, Operation::Alu(AluOp::Sbc, Operand8::Reg(Register::D)), None, 4,
            effects(FlagEffect::Computed, FlagEffect::SetOn, FlagEffect::Computed, FlagEffect::Computed))),
        0x9B => Some(row(Mnemonic::Sbc, Operation::Alu(AluOp::Sbc, Operand8::Reg(Register::E)), None, 4,
            effects(FlagEffect::Computed, FlagEffect::SetOn, FlagEffect::Computed, FlagEffect::Computed))),
        0x9C => Some(row(Mnemonic::Sbc, Operation::Alu(AluOp::Sbc, Operand8::Reg(Register::H)), None, 4,
            effects(FlagEffect::Computed, FlagEffect::SetOn, FlagEffect::Computed, FlagEffect::Computed))),
        0x9D => Some(row(Mnemonic::Sbc, Operation::Alu(AluOp::Sbc, Operand8::Reg(Register::L)), None, 4,
            effects(FlagEffect::Computed, FlagEffect::SetOn, FlagEffect::Computed, FlagEffect::Computed))),
        0x9E => Some(row(Mnemonic::Sbc, Operation::Alu(AluOp::Sbc, Operand8::HlIndirect), None, 8,
            effects(FlagEffect::Computed, FlagEffect::SetOn, FlagEffect::Computed, FlagEffect::Computed))),
        _ => Some(row(Mnemonic::Sbc, Operation::Alu(AluOp::Sbc, Operand8::Reg(Register::A)), None, 4,
            effects(FlagEffect::Computed, FlagEffect::SetOn, FlagEffect::Computed, FlagEffect::Computed))),
    }
}

/// Rows `0xA0..=0xAF` of the base table.
fn base_a0(byte: u8) -> (entry: Option<Opcode>)
    requires
        0xA0 <= byte <= 0xAF,
    ensures
        entry == spec_lookup(byte),
{
    reveal(spec_lookup);
    match byte {
        0xA0 => Some(row(Mnemonic::And, Operation::Alu(AluOp::And, Operand8::Reg(Register::B)), None, 4,
            effects(FlagEffect::Computed, FlagEffect::Clear, FlagEffect::SetOn, FlagEffect::Clear))),
        0xA1 => Some(row(Mnemonic::And, Operation::Alu(AluOp::And, Operand8::Reg(Register::C)), None, 4,
            effects(FlagEffect::Computed, FlagEffect::Clear, FlagEffect::SetOn, FlagEffect::Clear))),
        0xA2 => Some(row(Mnemonic::And, Operation::Alu(AluOp::And, Operand8::Reg(Register::D)), None, 4,
            effects(FlagEffect::Computed, FlagEffect::Clear, FlagEffect::SetOn, FlagEffect::Clear))),
        0xA3 => Some(row(Mnemonic::And, Operation::Alu(AluOp::And, Operand8::Reg(Register::E)), None, 4,
            effects(FlagEffect::Computed, FlagEffect::Clear, FlagEffect::SetOn, FlagEffect::Clear))),
        0xA4 => Some(row(Mnemonic::And, Operation::Alu(AluOp::And, Operand8::Reg(Register::H)), None, 4,
            effects(FlagEffect::Computed, FlagEffect::Clear, FlagEffect::SetOn, FlagEffect::Clear))),
        0xA5 => Some(row(Mnemonic::And, Operation::Alu(AluOp::And, Operand8::Reg(Register::L)), None, 4,
            effects(FlagEffect::Computed, FlagEffect::Clear, FlagEffect::SetOn, FlagEffect::Clear))),
        0xA6 => Some(row(Mnemonic::And, Operation::Alu(AluOp::And, Operand8::HlIndirect), None, 8,
            effects(FlagEffect::Computed, FlagEffect::Clear, FlagEffect::SetOn, FlagEffect::Clear))),
        0xA7 => Some(row(Mnemonic::And, Operation::Alu(AluOp::And, Operand8::Reg(Register::A)), None, 4,
            effects(FlagEffect::Computed, FlagEffect::Clear, FlagEffect::SetOn, FlagEffect::Clear))),
        0xA8 => Some(row(Mnemonic::Xor, Operation::Alu(AluOp::Xor, Operand8::Reg(Register::B)), None, 4,
            effects(FlagEffect::Computed, FlagEffect::Clear, FlagEffect::Clear, FlagEffect::Clear))),
        0xA9 => Some(row(Mnemonic::Xor, Operation::Alu(AluOp::Xor, Operand8::Reg(Register::C)), None, 4,
            effects(FlagEffect::Computed, FlagEffect::Clear, FlagEffect::Clear, FlagEffect::Clear))),
        0xAA => Some(row(Mnemonic::Xor, Operation::Alu(AluOp::Xor, Operand8::Reg(Register::D)), None, 4,
            effects(FlagEffect::Computed, FlagEffect::Clear, FlagEffect::Clear, FlagEffect::Clear))),
        0xAB => Some(row(Mnemonic::Xor, Operation::Alu(AluOp::Xor, Operand8::Reg(Register::E)), None, 4,
            effects(FlagEffect::Computed, FlagEffect::Clear, FlagEffect::Clear, FlagEffect::Clear))),
        0xAC => Some(row(Mnemonic::Xor, Operation::Alu(AluOp::Xor, Operand8::Reg(Register::H)), None, 4,
            effects(FlagEffect::Computed, FlagEffect::Clear, FlagEffect::Clear, FlagEffect::Clear))),
        0xAD => Some(row(Mnemonic::Xor, Operation::Alu(AluOp::Xor, Operand8::Reg(Register::L)), None, 4,
            effects(FlagEffect::Computed, FlagEffect::Clear, FlagEffect::Clear, FlagEffect::Clear))),
        0xAE => Some(row(Mnemonic::Xor, Operation::Alu(AluOp::Xor, Operand8::HlIndirect), None, 8,
            effects(FlagEffect::Computed, FlagEffect::Clear, FlagEffect::Clear, FlagEffect::Clear))),
        _ => Some(row(Mnemonic::Xor, Operation::Alu(AluOp::Xor, Operand8::Reg(Register::A)), None, 4,
            effects(FlagEffect::Computed, FlagEffect::Clear, FlagEffect::Clear, FlagEffect::Clear))),
    }
}

/// Rows `0xB0..=0xBF` of the base table.
fn base_b0(byte: u8) -> (entry: Option<Opcode>)
    requires
        0xB0 <= byte <= 0xBF,
    ensures
        entry == spec_lookup(byte),
{
    reveal(spec_lookup);
    match byte {
        0xB0 => Some(row(Mnemonic::Or, Operation::Alu(AluOp::Or, Operand8::Reg(Register::B)), None, 4,
            effects(FlagEffect::Computed, FlagEffect::Clear, FlagEffect::Clear, FlagEffect::Clear))),
        0xB1 => Some(row(Mnemonic::Or, Operation::Alu(AluOp::Or, Operand8::Reg(Register::C)), None, 4,
            effects(FlagEffect::Computed, FlagEffect::Clear, FlagEffect::Clear, FlagEffect::Clear))),
        0xB2 => Some(row(Mnemonic::Or, Operation::Alu(AluOp::Or, Operand8::Reg(Register::D)), None, 4,
            effects(FlagEffect::Computed, FlagEffect::Clear, FlagEffect::Clear, FlagEffect::Clear))),
        0xB3 => Some(row(Mnemonic::Or, Operation::Alu(AluOp::Or, Operand8::Reg(Register::E)), None, 4,
            effects(FlagEffect::Computed, FlagEffect::Clear, FlagEffect::Clear, FlagEffect::Clear))),
        0xB4 => Some(row(Mnemonic::Or, Operation::Alu(AluOp::Or, Operand8::Reg(Register::H)), None, 4,
            effects(FlagEffect::Computed, FlagEffect::Clear, FlagEffect::Clear, FlagEffect::Clear))),
        0xB5 => Some(row(Mnemonic::Or, Operation::Alu(AluOp::Or, Operand8::Reg(Register::L)), None, 4,
            effects(FlagEffect::Computed, FlagEffect::Clear, FlagEffect::Clear, FlagEffect::Clear))),
        0xB6 => Some(row(Mnemonic::Or, Operation::Alu(AluOp::Or, Operand8::HlIndirect), None, 8,
            effects(FlagEffect::Computed, FlagEffect::Clear, FlagEffect::Clear, FlagEffect::Clear))),
        0xB7 => Some(row(Mnemonic::Or, Operation::Alu(AluOp::Or, Operand8::Reg(Register::A)), None, 4,
            effects(FlagEffect::Computed, FlagEffect::Clear, FlagEffect::Clear, FlagEffect::Clear))),
        0xB8 => Some(row(Mnemonic::Cp, Operation::Alu(AluOp::Cp, Operand8::Reg(Register::B)), None, 4,
            effects(FlagEffect::Computed, FlagEffect::SetOn, FlagEffect::Computed, FlagEffect::Computed))),
        0xB9 => Some(row(Mnemonic::Cp, Operation::Alu(AluOp::Cp, Operand8::Reg(Register::C)), None, 4,
            effects(FlagEffect::Computed, FlagEffect::SetOn, FlagEffect::Computed, FlagEffect::Computed))),
        0xBA => Some(row(Mnemonic::Cp, Operation::Alu(AluOp::Cp, Operand8::Reg(Register::D)), None, 4,
            effects(FlagEffect::Computed, FlagEffect::SetOn, FlagEffect::Computed, FlagEffect::Computed))),
        0xBB => Some(row(Mnemonic::Cp, Operation::Alu(AluOp::Cp, Operand8::Reg(Register::E)), None, 4,
            effects(FlagEffect::Computed, FlagEffect::SetOn, FlagEffect::Computed, FlagEffect::Computed))),
        0xBC => Some(row(Mnemonic::Cp, Operation::Alu(AluOp::Cp, Operand8::Reg(Register::H)), None, 4,
            effects(FlagEffect::Computed, FlagEffect::SetOn, FlagEffect::Computed, FlagEffect::Computed))),
        0xBD => Some(row(Mnemonic::Cp, Operation::Alu(AluOp::Cp, Operand8::Reg(Register::L)), None, 4,
            effects(FlagEffect::Computed, FlagEffect::SetOn, FlagEffect::Computed, FlagEffect::Computed))),
        0xBE => Some(row(Mnemonic::Cp, Operation::Alu(AluOp::Cp, Operand8::HlIndirect), None, 8,
            effects(FlagEffect::Computed, FlagEffect::SetOn, FlagEffect::Computed, FlagEffect::Computed))),
        _ => Some(row(Mnemonic::Cp, Operation::Alu(AluOp::Cp, Operand8::Reg(Register::A)), None, 4,
            effects(FlagEffect::Computed, FlagEffect::SetOn, FlagEffect::Computed, FlagEffect::Computed))),
    }
}

/// Rows `0xC0..=0xCF` of the base table.
fn base_c0(byte: u8) -> (entry: Option<Opcode>)
    requires
        0xC0 <= byte <= 0xCF,
    ensures
        entry == spec_lookup(byte),
{
    reveal(spec_lookup);
    match byte {
        0xC0 => Some(row(Mnemonic::Ret, Operation::Ret(Some(Condition::NZ)), None, 8, untouched())),
        0xC1 => Some(row(Mnemonic::Pop, Operation::Pop(Register16::BC), None, 12, untouched())),
        0xC2 => Some(row(Mnemonic::Jp, Operation::Jp(Some(Condition::NZ)), Some(AddressingMode::A16), 12,
            untouched())),
        0xC3 => Some(row(Mnemonic::Jp, Operation::Jp(None), Some(AddressingMode::A16), 16,
            untouched())),
        0xC4 => Some(row(Mnemonic::Call, Operation::Call(Some(Condition::NZ)), Some(AddressingMode::A16), 12,
            untouched())),
        0xC5 => Some(row(Mnemonic::Push, Operation::Push(Register16::BC), None, 16, untouched())),
        0xC6 => Some(row(Mnemonic::Add, Operation::AluImm(AluOp::Add), Some(AddressingMode::D8), 8,
            effects(FlagEffect::Computed, FlagEffect::Clear, FlagEffect::Computed, FlagEffect::Computed))),
        0xC7 => Some(row(Mnemonic::Rst, Operation::Rst(0x00), None, 16, untouched())),
        0xC8 => Some(row(Mnemonic::Ret, Operation::Ret(Some(Condition::Z)), None, 8, untouched())),
        0xC9 => Some(row(Mnemonic::Ret, Operation::Ret(None), None, 16, untouched())),
        0xCA => Some(row(Mnemonic::Jp, Operation::Jp(Some(Condition::Z)), Some(AddressingMode::A16), 12,
            untouched())),
        0xCB => None,
        0xCC => Some(row(Mnemonic::Call, Operation::Call(Some(Condition::Z)), Some(AddressingMode::A16), 12,
            untouched())),
        0xCD => Some(row(Mnemonic::Call, Operation::Call(None), Some(AddressingMode::A16), 24,
            untouched())),
        0xCE => Some(row(Mnemonic::Adc, Operation::AluImm(AluOp::Adc), Some(AddressingMode::D8), 8,
            effects(FlagEffect::Computed, FlagEffect::Clear, FlagEffect::Computed, FlagEffect::Computed))),
        _ => Some(row(Mnemonic::Rst, Operation::Rst(0x08), None, 16, untouched())),
    }
}

/// Rows `0xD0..=0xDF` of the base table.
fn base_d0(byte: u8) -> (entry: Option<Opcode>)
    requires
        0xD0 <= byte <= 0xDF,
    ensures
        entry == spec_lookup(byte),
{
    reveal(spec_lookup);
    match byte {
        0xD0 => Some(row(Mnemonic::Ret, Operation::Ret(Some(Condition::NC)), None, 8, untouched())),
        0xD1 => Some(row(Mnemonic::Pop, Operation::Pop(Register16::DE), None, 12, untouched())),
        0xD2 => Some(row(Mnemonic::Jp, Operation::Jp(Some(Condition::NC)), Some(AddressingMode::A16), 12,
            untouched())),
        0xD3 => None,
        0xD4 => Some(row(Mnemonic::Call, Operation::Call(Some(Condition::NC)), Some(AddressingMode::A16), 12,
            untouched())),
        0xD5 => Some(row(Mnemonic::Push, Operation::Push(Register16::DE), None, 16, untouched())),
        0xD6 => Some(row(Mnemonic::Sub, Operation::AluImm(AluOp::Sub), Some(AddressingMode::D8), 8,
            effects(FlagEffect::Computed, FlagEffect::SetOn, FlagEffect::Computed, FlagEffect::Computed))),
        0xD7 => Some(row(Mnemonic::Rst, Operation::Rst(0x10), None, 16, untouched())),
        0xD8 => Some(row(Mnemonic::Ret, Operation::Ret(Some(Condition::C)), None, 8, untouched())),
        0xD9 => Some(row(Mnemonic::Reti, Operation::Reti, None, 16, untouched())),
        0xDA => Some(row(Mnemonic::Jp, Operation::Jp(Some(Condition::C)), Some(AddressingMode::A16), 12,
            untouched())),
        0xDB => None,
        0xDC => Some(row(Mnemonic::Call, Operation::Call(Some(Condition::C)), Some(AddressingMode::A16), 12,
            untouched())),
        0xDD => None,
        0xDE => Some(row(Mnemonic::Sbc, Operation::AluImm(AluOp::Sbc), Some(AddressingMode::D8), 8,
            effects(FlagEffect::Computed, FlagEffect::SetOn, FlagEffect::Computed, FlagEffect::Computed))),
        _ => Some(row(Mnemonic::Rst, Operation::Rst(0x18), None, 16, untouched())),
    }
}

/// Rows `0xE0..=0xEF` of the base table.
fn base_e0(byte: u8) -> (entry: Option<Opcode>)
    requires
        0xE0 <= byte <= 0xEF,
    ensures
        entry == spec_lookup(byte),
{
    reveal(spec_lookup);
    match byte {
        0xE0 => Some(row(Mnemonic::Ldh, Operation::LdhImmFromA, Some(AddressingMode::A8), 12,
            untouched())),
        0xE1 => Some(row(Mnemonic::Pop, Operation::Pop(Register16::HL), None, 12, untouched())),
        0xE2 => Some(row(Mnemonic::Ld, Operation::LdCFromA, None, 8, untouched())),
        0xE3 => None,
        0xE4 => None,
        0xE5 => Some(row(Mnemonic::Push, Operation::Push(Register16::HL), None, 16, untouched())),
        0xE6 => Some(row(Mnemonic::And, Operation::AluImm(AluOp::And), Some(AddressingMode::D8), 8,
            effects(FlagEffect::Computed, FlagEffect::Clear, FlagEffect::SetOn, FlagEffect::Clear))),
        0xE7 => Some(row(Mnemonic::Rst, Operation::Rst(0x20), None, 16, untouched())),
        0xE8 => Some(row(Mnemonic::Add, Operation::AddSpOffset, Some(AddressingMode::R8), 16,
            effects(FlagEffect::Clear, FlagEffect::Clear, FlagEffect::Computed, FlagEffect::Computed))),
        0xE9 => Some(row(Mnemonic::Jp, Operation::JpHl, None, 4, untouched())),
        0xEA => Some(row(Mnemonic::Ld, Operation::LdAddrFromA, Some(AddressingMode::A16), 16,
            untouched())),
        0xEB => None,
        0xEC => None,
        0xED => None,
        0xEE => Some(row(Mnemonic::Xor, Operation::AluImm(AluOp::Xor), Some(AddressingMode::D8), 8,
            effects(FlagEffect::Computed, FlagEffect::Clear, FlagEffect::Clear, FlagEffect::Clear))),
        _ => Some(row(Mnemonic::Rst, Operation::Rst(0x28), None, 16, untouched())),
    }
}

/// Rows `0xF0..=0xFF` of the base table.
fn base_f0(byte: u8) -> (entry: Option<Opcode>)
    requires
        0xF0 <= byte <= 0xFF,
    ensures
        entry == spec_lookup(byte),
{
    reveal(spec_lookup);
    match byte {
        0xF0 => Some(row(Mnemonic::Ldh, Operation::LdhAFromImm, Some(AddressingMode::A8), 12,
            untouched())),
        0xF1 => Some(row(Mnemonic::Pop, Operation::Pop(Register16::AF), None, 12,
            effects(FlagEffect::Computed, FlagEffect::Computed, FlagEffect::Computed, FlagEffect::Computed))),
        0xF2 => Some(row(Mnemonic::Ld, Operation::LdAFromC, None, 8, untouched())),
        0xF3 => Some(row(Mnemonic::Di, Operation::Di, None, 4, untouched())),
        0xF4 => None,
        0xF5 => Some(row(Mnemonic::Push, Operation::Push(Register16::AF), None, 16, untouched())),
        0xF6 => Some(row(Mnemonic::Or, Operation::AluImm(AluOp::Or), Some(AddressingMode::D8), 8,
            effects(FlagEffect::Computed, FlagEffect::Clear, FlagEffect::Clear, FlagEffect::Clear))),
        0xF7 => Some(row(Mnemonic::Rst, Operation::Rst(0x30), None, 16, untouched())),
        0xF8 => Some(row(Mnemonic::Ld, Operation::LdHlFromSpOffset, Some(AddressingMode::R8), 12,
            effects(FlagEffect::Clear, FlagEffect::Clear, FlagEffect::Computed, FlagEffect::Computed))),
        0xF9 => Some(row(Mnemonic::Ld, Operation::LdSpFromHl, None, 8, untouched())),
        0xFA => Some(row(Mnemonic::Ld, Operation::LdAFromAddr, Some(AddressingMode::A16), 16,
            untouched())),
        0xFB => Some(row(Mnemonic::Ei, Operation::Ei, None, 4, untouched())),
        0xFC => None,
        0xFD => None,
        0xFE => Some(row(Mnemonic::Cp, Operation::AluImm(AluOp::Cp), Some(AddressingMode::D8), 8,
            effects(FlagEffect::Computed, FlagEffect::SetOn, FlagEffect::Computed, FlagEffect::Computed))),
        _ => Some(row(Mnemonic::Rst, Operation::Rst(0x38), None, 16, untouched())),
    }
}

/// Rows `0x00..=0x0F` of the prefixed table.
fn prefixed_00(byte: u8) -> (entry: Opcode)
    requires
        0x00 <= byte <= 0x0F,
    ensures
        entry == spec_lookup_prefixed(byte),
{
    reveal(spec_lookup_prefixed);
    match byte {
        0x00 => row(Mnemonic::Rlc, Operation::Rot(RotOp::Rlc, Operand8::Reg(Register::B)), None, 8,
            effects(FlagEffect::Computed, FlagEffect::Clear, FlagEffect::Clear, FlagEffect::Computed)),
        0x01 => row(Mnemonic::Rlc, Operation::Rot(RotOp::Rlc, Operand8::Reg(Register::C)), None, 8,
            effects(FlagEffect::Computed, FlagEffect::Clear, FlagEffect::Clear, FlagEffect::Computed)),
        0x02 => row(Mnemonic::Rlc, Operation::Rot(RotOp::Rlc, Operand8::Reg(Register::D)), None, 8,
            effects(FlagEffect::Computed, FlagEffect::Clear, FlagEffect::Clear, FlagEffect::Computed)),
        0x03 => row(Mnemonic::Rlc, Operation::Rot(RotOp::Rlc, Operand8::Reg(Register::E)), None, 8,
            effects(FlagEffect::Computed, FlagEffect::Clear, FlagEffect::Clear, FlagEffect::Computed)),
        0x04 => row(Mnemonic::Rlc, Operation::Rot(RotOp::Rlc, Operand8::Reg(Register::H)), None, 8,
            effects(FlagEffect::Computed, FlagEffect::Clear, FlagEffect::Clear, FlagEffect::Computed)),
        0x05 => row(Mnemonic::Rlc, Operation::Rot(RotOp::Rlc, Operand8::Reg(Register::L)), None, 8,
            effects(FlagEffect::Computed, FlagEffect::Clear, FlagEffect::Clear, FlagEffect::Computed)),
        0x06 => row(Mnemonic::Rlc, Operation::Rot(RotOp::Rlc, Operand8::HlIndirect), None, 16,
            effects(FlagEffect::Computed, FlagEffect::Clear, FlagEffect::Clear, FlagEffect::Computed)),
        0x07 => row(Mnemonic::Rlc, Operation::Rot(RotOp::Rlc, Operand8::Reg(Register::A)), None, 8,
            effects(FlagEffect::Computed, FlagEffect::Clear, FlagEffect::Clear, FlagEffect::Computed)),
        0x08 => row(Mnemonic::Rrc, Operation::Rot(RotOp::Rrc, Operand8::Reg(Register::B)), None, 8,
            effects(FlagEffect::Computed, FlagEffect::Clear, FlagEffect::Clear, FlagEffect::Computed)),
        0x09 => row(Mnemonic::Rrc, Operation::Rot(RotOp::Rrc, Operand8::Reg(Register::C)), None, 8,
            effects(FlagEffect::Computed, FlagEffect::Clear, FlagEffect::Clear, FlagEffect::Computed)),
        0x0A => row(Mnemonic::Rrc, Operation::Rot(RotOp::Rrc, Operand8::Reg(Register::D)), None, 8,
            effects(FlagEffect::Computed, FlagEffect::Clear, FlagEffect::Clear, FlagEffect::Computed)),
        0x0B => row(Mnemonic::Rrc, Operation::Rot(RotOp::Rrc, Operand8::Reg(Register::E)), None, 8,
            effects(FlagEffect::Computed, FlagEffect::Clear, FlagEffect::Clear, FlagEffect::Computed)),
        0x0C => row(Mnemonic::Rrc, Operation::Rot(RotOp::Rrc, Operand8::Reg(Register::H)), None, 8,
            effects(FlagEffect::Computed, FlagEffect::Clear, FlagEffect::Clear, FlagEffect::Computed)),
        0x0D => row(Mnemonic::Rrc, Operation::Rot(RotOp::Rrc, Operand8::Reg(Register::L)), None, 8,
            effects(FlagEffect::Computed, FlagEffect::Clear, FlagEffect::Clear, FlagEffect::Computed)),
        0x0E => row(Mnemonic::Rrc, Operation::Rot(RotOp::Rrc, Operand8::HlIndirect), None, 16,
            effects(FlagEffect::Computed, FlagEffect::Clear, FlagEffect::Clear, FlagEffect::Computed)),
        _ => row(Mnemonic::Rrc, Operation::Rot(RotOp::Rrc, Operand8::Reg(Register::A)), None, 8,
            effects(FlagEffect::Computed, FlagEffect::Clear, FlagEffect::Clear, FlagEffect::Computed)),
    }
}

/// Rows `0x10..=0x1F` of the prefixed table.
fn prefixed_10(byte: u8) -> (entry: Opcode)
    requires
        0x10 <= byte <= 0x1F,
    ensures
        entry == spec_lookup_prefixed(byte),
{
    reveal(spec_lookup_prefixed);
    match byte {
        0x10 => row(Mnemonic::Rl, Operation::Rot(RotOp::Rl, Operand8::Reg(Register::B)), None, 8,
            effects(FlagEffect::Computed, FlagEffect::Clear, FlagEffect::Clear, FlagEffect::Computed)),
        0x11 => row(Mnemonic::Rl, Operation::Rot(RotOp::Rl, Operand8::Reg(Register::C)), None, 8,
            effects(FlagEffect::Computed, FlagEffect::Clear, FlagEffect::Clear, FlagEffect::Computed)),
        0x12 => row(Mnemonic::Rl, Operation::Rot(RotOp::Rl, Operand8::Reg(Register::D)), None, 8,
            effects(FlagEffect::Computed, FlagEffect::Clear, FlagEffect::Clear, FlagEffect::Computed)),
        0x13 => row(Mnemonic::Rl, Operation::Rot(RotOp::Rl, Operand8::Reg(Register::E)), None, 8,
            effects(FlagEffect::Computed, FlagEffect::Clear, FlagEffect::Clear, FlagEffect::Computed)),
        0x14 => row(Mnemonic::Rl, Operation::Rot(RotOp::Rl, Operand8::Reg(Register::H)), None, 8,
            effects(FlagEffect::Computed, FlagEffect::Clear, FlagEffect::Clear, FlagEffect::Computed)),
        0x15 => row(Mnemonic::Rl, Operation::Rot(RotOp::Rl, Operand8::Reg(Register::L)), None, 8,
            effects(FlagEffect::Computed, FlagEffect::Clear, FlagEffect::Clear, FlagEffect::Computed)),
        0x16 => row(Mnemonic::Rl, Operation::Rot(RotOp::Rl, Operand8::HlIndirect), None, 16,
            effects(FlagEffect::Computed, FlagEffect::Clear, FlagEffect::Clear, FlagEffect::Computed)),
        0x17 => row(Mnemonic::Rl, Operation::Rot(RotOp::Rl, Operand8::Reg(Register::A)), None, 8,
            effects(FlagEffect::Computed, FlagEffect::Clear, FlagEffect::Clear, FlagEffect::Computed)),
        0x18 => row(Mnemonic::Rr, Operation::Rot(RotOp::Rr, Operand8::Reg(Register::B)), None, 8,
            effects(FlagEffect::Computed, FlagEffect::Clear, FlagEffect::Clear, FlagEffect::Computed)),
        0x19 => row(Mnemonic::Rr, Operation::Rot(RotOp::Rr, Operand8::Reg(Register::C)), None, 8,
            effects(FlagEffect::Computed, FlagEffect::Clear, FlagEffect::Clear, FlagEffect::Computed)),
        0x1A => row(Mnemonic::Rr, Operation::Rot(RotOp::Rr, Operand8::Reg(Register::D)), None, 8,
            effects(FlagEffect::Computed, FlagEffect::Clear, FlagEffect::Clear, FlagEffect::Computed)),
        0x1B => row(Mnemonic::Rr, Operation::Rot(RotOp::Rr, Operand8::Reg(Register::E)), None, 8,
            effects(FlagEffect::Computed, FlagEffect::Clear, FlagEffect::Clear, FlagEffect::Computed)),
        0x1C => row(Mnemonic::Rr, Operation::Rot(RotOp::Rr, Operand8::Reg(Register::H)), None, 8,
            effects(FlagEffect::Computed, FlagEffect::Clear, FlagEffect::Clear, FlagEffect::Computed)),
        0x1D => row(Mnemonic::Rr, Operation::Rot(RotOp::Rr, Operand8::Reg(Register::L)), None, 8,
            effects(FlagEffect::Computed, FlagEffect::Clear, FlagEffect::Clear, FlagEffect::Computed)),
        0x1E => row(Mnemonic::Rr, Operation::Rot(RotOp::Rr, Operand8::HlIndirect), None, 16,
            effects(FlagEffect::Computed, FlagEffect::Clear, FlagEffect::Clear, FlagEffect::Computed)),
        _ => row(Mnemonic::Rr, Operation::Rot(RotOp::Rr, Operand8::Reg(Register::A)), None, 8,
            effects(FlagEffect::Computed, FlagEffect::Clear, FlagEffect::Clear, FlagEffect::Computed)),
    }
}

/// Rows `0x20..=0x2F` of the prefixed table.
fn prefixed_20(byte: u8) -> (entry: Opcode)
    requires
        0x20 <= byte <= 0x2F,
    ensures
        entry == spec_lookup_prefixed(byte),
{
    reveal(spec_lookup_prefixed);
    match byte {
        0x20 => row(Mnemonic::Sla, Operation::Rot(RotOp::Sla, Operand8::Reg(Register::B)), None, 8,
            effects(FlagEffect::Computed, FlagEffect::Clear, FlagEffect::Clear, FlagEffect::Computed)),
        0x21 => row(Mnemonic::Sla, Operation::Rot(RotOp::Sla, Operand8::Reg(Register::C)), None, 8,
            effects(FlagEffect::Computed, FlagEffect::Clear, FlagEffect::Clear, FlagEffect::Computed)),
        0x22 => row(Mnemonic::Sla, Operation::Rot(RotOp::Sla, Operand8::Reg(Register::D)), None, 8,
            effects(FlagEffect::Computed, FlagEffect::Clear, FlagEffect::Clear, FlagEffect::Computed)),
        0x23 => row(Mnemonic::Sla, Operation::Rot(RotOp::Sla, Operand8::Reg(Register::E)), None, 8,
            effects(FlagEffect::Computed, FlagEffect::Clear, FlagEffect::Clear, FlagEffect::Computed)),
        0x24 => row(Mnemonic::Sla, Operation::Rot(RotOp::Sla, Operand8::Reg(Register::H)), None, 8,
            effects(FlagEffect::Computed, FlagEffect::Clear, FlagEffect::Clear, FlagEffect::Computed)),
        0x25 => row(Mnemonic::Sla, Operation::Rot(RotOp::Sla, Operand8::Reg(Register::L)), None, 8,
            effects(FlagEffect::Computed, FlagEffect::Clear, FlagEffect::Clear, FlagEffect::Computed)),
        0x26 => row(Mnemonic::Sla, Operation::Rot(RotOp::Sla, Operand8::HlIndirect), None, 16,
            effects(FlagEffect::Computed, FlagEffect::Clear, FlagEffect::Clear, FlagEffect::Computed)),
        0x27 => row(Mnemonic::Sla, Operation::Rot(RotOp::Sla, Operand8::Reg(Register::A)), None, 8,
            effects(FlagEffect::Computed, FlagEffect::Clear, FlagEffect::Clear, FlagEffect::Computed)),
        0x28 => row(Mnemonic::Sra, Operation::Rot(RotOp::Sra, Operand8::Reg(Register::B)), None, 8,
            effects(FlagEffect::Computed, FlagEffect::Clear, FlagEffect::Clear, FlagEffect::Computed)),
        0x29 => row(Mnemonic::Sra, Operation::Rot(RotOp::Sra, Operand8::Reg(Register::C)), None, 8,
            effects(FlagEffect::Computed, FlagEffect::Clear, FlagEffect::Clear, FlagEffect::Computed)),
        0x2A => row(Mnemonic::Sra, Operation::Rot(RotOp::Sra, Operand8::Reg(Register::D)), None, 8,
            effects(FlagEffect::Computed, FlagEffect::Clear, FlagEffect::Clear, FlagEffect::Computed)),
        0x2B => row(Mnemonic::Sra, Operation::Rot(RotOp::Sra, Operand8::Reg(Register::E)), None, 8,
            effects(FlagEffect::Computed, FlagEffect::Clear, FlagEffect::Clear, FlagEffect::Computed)),
        0x2C => row(Mnemonic::Sra, Operation::Rot(RotOp::Sra, Operand8::Reg(Register::H)), None, 8,
            effects(FlagEffect::Computed, FlagEffect::Clear, FlagEffect::Clear, FlagEffect::Computed)),
        0x2D => row(Mnemonic::Sra, Operation::Rot(RotOp::Sra, Operand8::Reg(Register::L)), None, 8,
            effects(FlagEffect::Computed, FlagEffect::Clear, FlagEffect::Clear, FlagEffect::Computed)),
        0x2E => row(Mnemonic::Sra, Operation::Rot(RotOp::Sra, Operand8::HlIndirect), None, 16,
            effects(FlagEffect::Computed, FlagEffect::Clear, FlagEffect::Clear, FlagEffect::Computed)),
        _ => row(Mnemonic::Sra, Operation::Rot(RotOp::Sra, Operand8::Reg(Register::A)), None, 8,
            effects(FlagEffect::Computed, FlagEffect::Clear, FlagEffect::Clear, FlagEffect::Computed)),
    }
}

/// Rows `0x30..=0x3F` of the prefixed table.
fn prefixed_30(byte: u8) -> (entry: Opcode)
    requires
        0x30 <= byte <= 0x3F,
    ensures
        entry == spec_lookup_prefixed(byte),
{
    reveal(spec_lookup_prefixed);
    match byte {
        0x30 => row(Mnemonic::Swap, Operation::Rot(RotOp::Swap, Operand8::Reg(Register::B)), None, 8,
            effects(FlagEffect::Computed, FlagEffect::Clear, FlagEffect::Clear, FlagEffect::Clear)),
        0x31 => row(Mnemonic::Swap, Operation::Rot(RotOp::Swap, Operand8::Reg(Register::C)), None, 8,
            effects(FlagEffect::Computed, FlagEffect::Clear, FlagEffect::Clear, FlagEffect::Clear)),
        0x32 => row(Mnemonic::Swap, Operation::Rot(RotOp::Swap, Operand8::Reg(Register::D)), None, 8,
            effects(FlagEffect::Computed, FlagEffect::Clear, FlagEffect::Clear, FlagEffect::Clear)),
        0x33 => row(Mnemonic::Swap, Operation::Rot(RotOp::Swap, Operand8::Reg(Register::E)), None, 8,
            effects(FlagEffect::Computed, FlagEffect::Clear, FlagEffect::Clear, FlagEffect::Clear)),
        0x34 => row(Mnemonic::Swap, Operation::Rot(RotOp::Swap, Operand8::Reg(Register::H)), None, 8,
            effects(FlagEffect::Computed, FlagEffect::Clear, FlagEffect::Clear, FlagEffect::Clear)),
        0x35 => row(Mnemonic::Swap, Operation::Rot(RotOp::Swap, Operand8::Reg(Register::L)), None, 8,
            effects(FlagEffect::Computed, FlagEffect::Clear, FlagEffect::Clear, FlagEffect::Clear)),
        0x36 => row(Mnemonic::Swap, Operation::Rot(RotOp::Swap, Operand8::HlIndirect), None, 16,
            effects(FlagEffect::Computed, FlagEffect::Clear, FlagEffect::Clear, FlagEffect::Clear)),
        0x37 => row(Mnemonic::Swap, Operation::Rot(RotOp::Swap, Operand8::Reg(Register::A)), None, 8,
            effects(FlagEffect::Computed, FlagEffect::Clear, FlagEffect::Clear, FlagEffect::Clear)),
        0x38 => row(Mnemonic::Srl, Operation::Rot(RotOp::Srl, Operand8::Reg(Register::B)), None, 8,
            effects(FlagEffect::Computed, FlagEffect::Clear, FlagEffect::Clear, FlagEffect::Computed)),
        0x39 => row(Mnemonic::Srl, Operation::Rot(RotOp::Srl, Operand8::Reg(Register::C)), None, 8,
            effects(FlagEffect::Computed, FlagEffect::Clear, FlagEffect::Clear, FlagEffect::Computed)),
        0x3A => row(Mnemonic::Srl, Operation::Rot(RotOp::Srl, Operand8::Reg(Register::D)), None, 8,
            effects(FlagEffect::Computed, FlagEffect::Clear, FlagEffect::Clear, FlagEffect::Computed)),
        0x3B => row(Mnemonic::Srl, Operation::Rot(RotOp::Srl, Operand8::Reg(Register::E)), None, 8,
            effects(FlagEffect::Computed, FlagEffect::Clear, FlagEffect::Clear, FlagEffect::Computed)),
        0x3C => row(Mnemonic::Srl, Operation::Rot(RotOp::Srl, Operand8::Reg(Register::H)), None, 8,
            effects(FlagEffect::Computed, FlagEffect::Clear, FlagEffect::Clear, FlagEffect::Computed)),
        0x3D => row(Mnemonic::Srl, Operation::Rot(RotOp::Srl, Operand8::Reg(Register::L)), None, 8,
            effects(FlagEffect::Computed, FlagEffect::Clear, FlagEffect::Clear, FlagEffect::Computed)),
        0x3E => row(Mnemonic::Srl, Operation::Rot(RotOp::Srl, Operand8::HlIndirect), None, 16,
            effects(FlagEffect::Computed, FlagEffect::Clear, FlagEffect::Clear, FlagEffect::Computed)),
        _ => row(Mnemonic::Srl, Operation::Rot(RotOp::Srl, Operand8::Reg(Register::A)), None, 8,
            effects(FlagEffect::Computed, FlagEffect::Clear, FlagEffect::Clear, FlagEffect::Computed)),
    }
}

/// Rows `0x40..=0x4F` of the prefixed table.
fn prefixed_40(byte: u8) -> (entry: Opcode)
    requires
        0x40 <= byte <= 0x4F,
    ensures
        entry == spec_lookup_prefixed(byte),
{
    reveal(spec_lookup_prefixed);
    match byte {
        0x40 => row(Mnemonic::Bit, Operation::Bit(0, Operand8::Reg(Register::B)), None, 8,
            effects(FlagEffect::Computed, FlagEffect::Clear, FlagEffect::SetOn, FlagEffect::Unaffected)),
        0x41 => row(Mnemonic::Bit, Operation::Bit(0, Operand8::Reg(Register::C)), None, 8,
            effects(FlagEffect::Computed, FlagEffect::Clear, FlagEffect::SetOn, FlagEffect::Unaffected)),
        0x42 => row(Mnemonic::Bit, Operation::Bit(0, Operand8::Reg(Register::D)), None, 8,
            effects(FlagEffect::Computed, FlagEffect::Clear, FlagEffect::SetOn, FlagEffect::Unaffected)),
        0x43 => row(Mnemonic::Bit, Operation::Bit(0, Operand8::Reg(Register::E)), None, 8,
            effects(FlagEffect::Computed, FlagEffect::Clear, FlagEffect::SetOn, FlagEffect::Unaffected)),
        0x44 => row(Mnemonic::Bit, Operation::Bit(0, Operand8::Reg(Register::H)), None, 8,
            effects(FlagEffect::Computed, FlagEffect::Clear, FlagEffect::SetOn, FlagEffect::Unaffected)),
        0x45 => row(Mnemonic::Bit, Operation::Bit(0, Operand8::Reg(Register::L)), None, 8,
            effects(FlagEffect::Computed, FlagEffect::Clear, FlagEffect::SetOn, FlagEffect::Unaffected)),
        0x46 => row(Mnemonic::Bit, Operation::Bit(0, Operand8::HlIndirect), None, 12,
            effects(FlagEffect::Computed, FlagEffect::Clear, FlagEffect::SetOn, FlagEffect::Unaffected)),
        0x47 => row(Mnemonic::Bit, Operation::Bit(0, Operand8::Reg(Register::A)), None, 8,
            effects(FlagEffect::Computed, FlagEffect::Clear, FlagEffect::SetOn, FlagEffect::Unaffected)),
        0x48 => row(Mnemonic::Bit, Operation::Bit(1, Operand8::Reg(Register::B)), None, 8,
            effects(FlagEffect::Computed, FlagEffect::Clear, FlagEffect::SetOn, FlagEffect::Unaffected)),
        0x49 => row(Mnemonic::Bit, Operation::Bit(1, Operand8::Reg(Register::C)), None, 8,
            effects(FlagEffect::Computed, FlagEffect::Clear, FlagEffect::SetOn, FlagEffect::Unaffected)),
        0x4A => row(Mnemonic::Bit, Operation::Bit(1, Operand8::Reg(Register::D)), None, 8,
            effects(FlagEffect::Computed, FlagEffect::Clear, FlagEffect::SetOn, FlagEffect::Unaffected)),
        0x4B => row(Mnemonic::Bit, Operation::Bit(1, Operand8::Reg(Register::E)), None, 8,
            effects(FlagEffect::Computed, FlagEffect::Clear, FlagEffect::SetOn, FlagEffect::Unaffected)),
        0x4C => row(Mnemonic::Bit, Operation::Bit(1, Operand8::Reg(Register::H)), None, 8,
            effects(FlagEffect::Computed, FlagEffect::Clear, FlagEffect::SetOn, FlagEffect::Unaffected)),
        0x4D => row(Mnemonic::Bit, Operation::Bit(1, Operand8::Reg(Register::L)), None, 8,
            effects(FlagEffect::Computed, FlagEffect::Clear, FlagEffect::SetOn, FlagEffect::Unaffected)),
        0x4E => row(Mnemonic::Bit, Operation::Bit(1, Operand8::HlIndirect), None, 12,
            effects(FlagEffect::Computed, FlagEffect::Clear, FlagEffect::SetOn, FlagEffect::Unaffected)),
        _ => row(Mnemonic::Bit, Operation::Bit(1, Operand8::Reg(Register::A)), None, 8,
            effects(FlagEffect::Computed, FlagEffect::Clear, FlagEffect::SetOn, FlagEffect::Unaffected)),
    }
}

/// Rows `0x50..=0x5F` of the prefixed table.
fn prefixed_50(byte: u8) -> (entry: Opcode)
    requires
        0x50 <= byte <= 0x5F,
    ensures
        entry == spec_lookup_prefixed(byte),
{
    reveal(spec_lookup_prefixed);
    match byte {
        0x50 => row(Mnemonic::Bit, Operation::Bit(2, Operand8::Reg(Register::B)), None, 8,
            effects(FlagEffect::Computed, FlagEffect::Clear, FlagEffect::SetOn, FlagEffect::Unaffected)),
        0x51 => row(Mnemonic::Bit, Operation::Bit(2, Operand8::Reg(Register::C)), None, 8,
            effects(FlagEffect::Computed, FlagEffect::Clear, FlagEffect::SetOn, FlagEffect::Unaffected)),
        0x52 => row(Mnemonic::Bit, Operation::Bit(2, Operand8::Reg(Register::D)), None, 8,
            effects(FlagEffect::Computed, FlagEffect::Clear, FlagEffect::SetOn, FlagEffect::Unaffected)),
        0x53 => row(Mnemonic::Bit, Operation::Bit(2, Operand8::Reg(Register::E)), None, 8,
            effects(FlagEffect::Computed, FlagEffect::Clear, FlagEffect::SetOn, FlagEffect::Unaffected)),
        0x54 => row(Mnemonic::Bit, Operation::Bit(2, Operand8::Reg(Register::H)), None, 8,
            effects(FlagEffect::Computed, FlagEffect::Clear, FlagEffect::SetOn, FlagEffect::Unaffected)),
        0x55 => row(Mnemonic::Bit, Operation::Bit(2, Operand8::Reg(Register::L)), None, 8,
            effects(FlagEffect::Computed, FlagEffect::Clear, FlagEffect::SetOn, FlagEffect::Unaffected)),
        0x56 => row(Mnemonic::Bit, Operation::Bit(2, Operand8::HlIndirect), None, 12,
            effects(FlagEffect::Computed, FlagEffect::Clear, FlagEffect::SetOn, FlagEffect::Unaffected)),
        0x57 => row(Mnemonic::Bit, Operation::Bit(2, Operand8::Reg(Register::A)), None, 8,
            effects(FlagEffect::Computed, FlagEffect::Clear, FlagEffect::SetOn, FlagEffect::Unaffected)),
        0x58 => row(Mnemonic::Bit, Operation::Bit(3, Operand8::Reg(Register::B)), None, 8,
            effects(FlagEffect::Computed, FlagEffect::Clear, FlagEffect::SetOn, FlagEffect::Unaffected)),
        0x59 => row(Mnemonic::Bit, Operation::Bit(3, Operand8::Reg(Register::C)), None, 8,
            effects(FlagEffect::Computed, FlagEffect::Clear, FlagEffect::SetOn, FlagEffect::Unaffected)),
        0x5A => row(Mnemonic::Bit, Operation::Bit(3, Operand8::Reg(Register::D)), None, 8,
            effects(FlagEffect::Computed, FlagEffect::Clear, FlagEffect::SetOn, FlagEffect::Unaffected)),
        0x5B => row(Mnemonic::Bit, Operation::Bit(3, Operand8::Reg(Register::E)), None, 8,
            effects(FlagEffect::Computed, FlagEffect::Clear, FlagEffect::SetOn, FlagEffect::Unaffected)),
        0x5C => row(Mnemonic::Bit, Operation::Bit(3, Operand8::Reg(Register::H)), None, 8,
            effects(FlagEffect::Computed, FlagEffect::Clear, FlagEffect::SetOn, FlagEffect::Unaffected)),
        0x5D => row(Mnemonic::Bit, Operation::Bit(3, Operand8::Reg(Register::L)), None, 8,
            effects(FlagEffect::Computed, FlagEffect::Clear, FlagEffect::SetOn, FlagEffect::Unaffected)),
        0x5E => row(Mnemonic::Bit, Operation::Bit(3, Operand8::HlIndirect), None, 12,
            effects(FlagEffect::Computed, FlagEffect::Clear, FlagEffect::SetOn, FlagEffect::Unaffected)),
        _ => row(Mnemonic::Bit, Operation::Bit(3, Operand8::Reg(Register::A)), None, 8,
            effects(FlagEffect::Computed, FlagEffect::Clear, FlagEffect::SetOn, FlagEffect::Unaffected)),
    }
}

/// Rows `0x60..=0x6F` of the prefixed table.
fn prefixed_60(byte: u8) -> (entry: Opcode)
    requires
        0x60 <= byte <= 0x6F,
    ensures
        entry == spec_lookup_prefixed(byte),
{
    reveal(spec_lookup_prefixed);
    match byte {
        0x60 => row(Mnemonic::Bit, Operation::Bit(4, Operand8::Reg(Register::B)), None, 8,
            effects(FlagEffect::Computed, FlagEffect::Clear, FlagEffect::SetOn, FlagEffect::Unaffected)),
        0x61 => row(Mnemonic::Bit, Operation::Bit(4, Operand8::Reg(Register::C)), None, 8,
            effects(FlagEffect::Computed, FlagEffect::Clear, FlagEffect::SetOn, FlagEffect::Unaffected)),
        0x62 => row(Mnemonic::Bit, Operation::Bit(4, Operand8::Reg(Register::D)), None, 8,
            effects(FlagEffect::Computed, FlagEffect::Clear, FlagEffect::SetOn, FlagEffect::Unaffected)),
        0x63 => row(Mnemonic::Bit, Operation::Bit(4, Operand8::Reg(Register::E)), None, 8,
            effects(FlagEffect::Computed, FlagEffect::Clear, FlagEffect::SetOn, FlagEffect::Unaffected)),
        0x64 => row(Mnemonic::Bit, Operation::Bit(4, Operand8::Reg(Register::H)), None, 8,
            effects(FlagEffect::Computed, FlagEffect::Clear, FlagEffect::SetOn, FlagEffect::Unaffected)),
        0x65 => row(Mnemonic::Bit, Operation::Bit(4, Operand8::Reg(Register::L)), None, 8,
            effects(FlagEffect::Computed, FlagEffect::Clear, FlagEffect::SetOn, FlagEffect::Unaffected)),
        0x66 => row(Mnemonic::Bit, Operation::Bit(4, Operand8::HlIndirect), None, 12,
            effects(FlagEffect::Computed, FlagEffect::Clear, FlagEffect::SetOn, FlagEffect::Unaffected)),
        0x67 => row(Mnemonic::Bit, Operation::Bit(4, Operand8::Reg(Register::A)), None, 8,
            effects(FlagEffect::Computed, FlagEffect::Clear, FlagEffect::SetOn, FlagEffect::Unaffected)),
        0x68 => row(Mnemonic::Bit, Operation::Bit(5, Operand8::Reg(Register::B)), None, 8,
            effects(FlagEffect::Computed, FlagEffect::Clear, FlagEffect::SetOn, FlagEffect::Unaffected)),
        0x69 => row(Mnemonic::Bit, Operation::Bit(5, Operand8::Reg(Register::C)), None, 8,
            effects(FlagEffect::Computed, FlagEffect::Clear, FlagEffect::SetOn, FlagEffect::Unaffected)),
        0x6A => row(Mnemonic::Bit, Operation::Bit(5, Operand8::Reg(Register::D)), None, 8,
            effects(FlagEffect::Computed, FlagEffect::Clear, FlagEffect::SetOn, FlagEffect::Unaffected)),
        0x6B => row(Mnemonic::Bit, Operation::Bit(5, Operand8::Reg(Register::E)), None, 8,
            effects(FlagEffect::Computed, FlagEffect::Clear, FlagEffect::SetOn, FlagEffect::Unaffected)),
        0x6C => row(Mnemonic::Bit, Operation::Bit(5, Operand8::Reg(Register::H)), None, 8,
            effects(FlagEffect::Computed, FlagEffect::Clear, FlagEffect::SetOn, FlagEffect::Unaffected)),
        0x6D => row(Mnemonic::Bit, Operation::Bit(5, Operand8::Reg(Register::L)), None, 8,
            effects(FlagEffect::Computed, FlagEffect::Clear, FlagEffect::SetOn, FlagEffect::Unaffected)),
        0x6E => row(Mnemonic::Bit, Operation::Bit(5, Operand8::HlIndirect), None, 12,
            effects(FlagEffect::Computed, FlagEffect::Clear, FlagEffect::SetOn, FlagEffect::Unaffected)),
        _ => row(Mnemonic::Bit, Operation::Bit(5, Operand8::Reg(Register::A)), None, 8,
            effects(FlagEffect::Computed, FlagEffect::Clear, FlagEffect::SetOn, FlagEffect::Unaffected)),
    }
}

/// Rows `0x70..=0x7F` of the prefixed table.
fn prefixed_70(byte: u8) -> (entry: Opcode)
    requires
        0x70 <= byte <= 0x7F,
    ensures
        entry == spec_lookup_prefixed(byte),
{
    reveal(spec_lookup_prefixed);
    match byte {
        0x70 => row(Mnemonic::Bit, Operation::Bit(6, Operand8::Reg(Register::B)), None, 8,
            effects(FlagEffect::Computed, FlagEffect::Clear, FlagEffect::SetOn, FlagEffect::Unaffected)),
        0x71 => row(Mnemonic::Bit, Operation::Bit(6, Operand8::Reg(Register::C)), None, 8,
            effects(FlagEffect::Computed, FlagEffect::Clear, FlagEffect::SetOn, FlagEffect::Unaffected)),
        0x72 => row(Mnemonic::Bit, Operation::Bit(6, Operand8::Reg(Register::D)), None, 8,
            effects(FlagEffect::Computed, FlagEffect::Clear, FlagEffect::SetOn, FlagEffect::Unaffected)),
        0x73 => row(Mnemonic::Bit, Operation::Bit(6, Operand8::Reg(Register::E)), None, 8,
            effects(FlagEffect::Computed, FlagEffect::Clear, FlagEffect::SetOn, FlagEffect::Unaffected)),
        0x74 => row(Mnemonic::Bit, Operation::Bit(6, Operand8::Reg(Register::H)), None, 8,
            effects(FlagEffect::Computed, FlagEffect::Clear, FlagEffect::SetOn, FlagEffect::Unaffected)),
        0x75 => row(Mnemonic::Bit, Operation::Bit(6, Operand8::Reg(Register::L)), None, 8,
            effects(FlagEffect::Computed, FlagEffect::Clear, FlagEffect::SetOn, FlagEffect::Unaffected)),
        0x76 => row(Mnemonic::Bit, Operation::Bit(6, Operand8::HlIndirect), None, 12,
            effects(FlagEffect::Computed, FlagEffect::Clear, FlagEffect::SetOn, FlagEffect::Unaffected)),
        0x77 => row(Mnemonic::Bit, Operation::Bit(6, Operand8::Reg(Register::A)), None, 8,
            effects(FlagEffect::Computed, FlagEffect::Clear, FlagEffect::SetOn, FlagEffect::Unaffected)),
        0x78 => row(Mnemonic::Bit, Operation::Bit(7, Operand8::Reg(Register::B)), None, 8,
            effects(FlagEffect::Computed, FlagEffect::Clear, FlagEffect::SetOn, FlagEffect::Unaffected)),
        0x79 => row(Mnemonic::Bit, Operation::Bit(7, Operand8::Reg(Register::C)), None, 8,
            effects(FlagEffect::Computed, FlagEffect::Clear, FlagEffect::SetOn, FlagEffect::Unaffected)),
        0x7A => row(Mnemonic::Bit, Operation::Bit(7, Operand8::Reg(Register::D)), None, 8,
            effects(FlagEffect::Computed, FlagEffect::Clear, FlagEffect::SetOn, FlagEffect::Unaffected)),
        0x7B => row(Mnemonic::Bit, Operation::Bit(7, Operand8::Reg(Register::E)), None, 8,
            effects(FlagEffect::Computed, FlagEffect::Clear, FlagEffect::SetOn, FlagEffect::Unaffected)),
        0x7C => row(Mnemonic::Bit, Operation::Bit(7, Operand8::Reg(Register::H)), None, 8,
            effects(FlagEffect::Computed, FlagEffect::Clear, FlagEffect::SetOn, FlagEffect::Unaffected)),
        0x7D => row(Mnemonic::Bit, Operation::Bit(7, Operand8::Reg(Register::L)), None, 8,
            effects(FlagEffect::Computed, FlagEffect::Clear, FlagEffect::SetOn, FlagEffect::Unaffected)),
        0x7E => row(Mnemonic::Bit, Operation::Bit(7, Operand8::HlIndirect), None, 12,
            effects(FlagEffect::Computed, FlagEffect::Clear, FlagEffect::SetOn, FlagEffect::Unaffected)),
        _ => row(Mnemonic::Bit, Operation::Bit(7, Operand8::Reg(Register::A)), None, 8,
            effects(FlagEffect::Computed, FlagEffect::Clear, FlagEffect::SetOn, FlagEffect::Unaffected)),
    }
}

/// Rows `0x80..=0x8F` of the prefixed table.
fn prefixed_80(byte: u8) -> (entry: Opcode)
    requires
        0x80 <= byte <= 0x8F,
    ensures
        entry == spec_lookup_prefixed(byte),
{
    reveal(spec_lookup_prefixed);
    match byte {
        0x80 => row(Mnemonic::Res, Operation::Res(0, Operand8::Reg(Register::B)), None, 8,
            untouched()),
        0x81 => row(Mnemonic::Res, Operation::Res(0, Operand8::Reg(Register::C)), None, 8,
            untouched()),
        0x82 => row(Mnemonic::Res, Operation::Res(0, Operand8::Reg(Register::D)), None, 8,
            untouched()),
        0x83 => row(Mnemonic::Res, Operation::Res(0, Operand8::Reg(Register::E)), None, 8,
            untouched()),
        0x84 => row(Mnemonic::Res, Operation::Res(0, Operand8::Reg(Register::H)), None, 8,
            untouched()),
        0x85 => row(Mnemonic::Res, Operation::Res(0, Operand8::Reg(Register::L)), None, 8,
            untouched()),
        0x86 => row(Mnemonic::Res, Operation::Res(0, Operand8::HlIndirect), None, 16, untouched()),
        0x87 => row(Mnemonic::Res, Operation::Res(0, Operand8::Reg(Register::A)), None, 8,
            untouched()),
        0x88 => row(Mnemonic::Res, Operation::Res(1, Operand8::Reg(Register::B)), None, 8,
            untouched()),
        0x89 => row(Mnemonic::Res, Operation::Res(1, Operand8::Reg(Register::C)), None, 8,
            untouched()),
        0x8A => row(Mnemonic::Res, Operation::Res(1, Operand8::Reg(Register::D)), None, 8,
            untouched()),
        0x8B => row(Mnemonic::Res, Operation::Res(1, Operand8::Reg(Register::E)), None, 8,
            untouched()),
        0x8C => row(Mnemonic::Res, Operation::Res(1, Operand8::Reg(Register::H)), None, 8,
            untouched()),
        0x8D => row(Mnemonic::Res, Operation::Res(1, Operand8::Reg(Register::L)), None, 8,
            untouched()),
        0x8E => row(Mnemonic::Res, Operation::Res(1, Operand8::HlIndirect), None, 16, untouched()),
        _ => row(Mnemonic::Res, Operation::Res(1, Operand8::Reg(Register::A)), None, 8,
            untouched()),
    }
}

/// Rows `0x90..=0x9F` of the prefixed table.
fn prefixed_90(byte: u8) -> (entry: Opcode)
    requires
        0x90 <= byte <= 0x9F,
    ensures
        entry == spec_lookup_prefixed(byte),
{
    reveal(spec_lookup_prefixed);
    match byte {
        0x90 => row(Mnemonic::Res, Operation::Res(2, Operand8::Reg(Register::B)), None, 8,
            untouched()),
        0x91 => row(Mnemonic::Res, Operation::Res(2, Operand8::Reg(Register::C)), None, 8,
            untouched()),
        0x92 => row(Mnemonic::Res, Operation::Res(2, Operand8::Reg(Register::D)), None, 8,
            untouched()),
        0x93 => row(Mnemonic::Res, Operation::Res(2, Operand8::Reg(Register::E)), None, 8,
            untouched()),
        0x94 => row(Mnemonic::Res, Operation::Res(2, Operand8::Reg(Register::H)), None, 8,
            untouched()),
        0x95 => row(Mnemonic::Res, Operation::Res(2, Operand8::Reg(Register::L)), None, 8,
            untouched()),
        0x96 => row(Mnemonic::Res, Operation::Res(2, Operand8::HlIndirect), None, 16, untouched()),
        0x97 => row(Mnemonic::Res, Operation::Res(2, Operand8::Reg(Register::A)), None, 8,
            untouched()),
        0x98 => row(Mnemonic::Res, Operation::Res(3, Operand8::Reg(Register::B)), None, 8,
            untouched()),
        0x99 => row(Mnemonic::Res, Operation::Res(3, Operand8::Reg(Register::C)), None, 8,
            untouched()),
        0x9A => row(Mnemonic::Res, Operation::Res(3, Operand8::Reg(Register::D)), None, 8,
            untouched()),
        0x9B => row(Mnemonic::Res, Operation::Res(3, Operand8::Reg(Register::E)), None, 8,
            untouched()),
        0x9C => row(Mnemonic::Res, Operation::Res(3, Operand8::Reg(Register::H)), None, 8,
            untouched()),
        0x9D => row(Mnemonic::Res, Operation::Res(3, Operand8::Reg(Register::L)), None, 8,
            untouched()),
        0x9E => row(Mnemonic::Res, Operation::Res(3, Operand8::HlIndirect), None, 16, untouched()),
        _ => row(Mnemonic::Res, Operation::Res(3, Operand8::Reg(Register::A)), None, 8,
            untouched()),
    }
}

/// Rows `0xA0..=0xAF` of the prefixed table.
fn prefixed_a0(byte: u8) -> (entry: Opcode)
    requires
        0xA0 <= byte <= 0xAF,
    ensures
        entry == spec_lookup_prefixed(byte),
{
    reveal(spec_lookup_prefixed);
    match byte {
        0xA0 => row(Mnemonic::Res, Operation::Res(4, Operand8::Reg(Register::B)), None, 8,
            untouched()),
        0xA1 => row(Mnemonic::Res, Operation::Res(4, Operand8::Reg(Register::C)), None, 8,
            untouched()),
        0xA2 => row(Mnemonic::Res, Operation::Res(4, Operand8::Reg(Register::D)), None, 8,
            untouched()),
        0xA3 => row(Mnemonic::Res, Operation::Res(4, Operand8::Reg(Register::E)), None, 8,
            untouched()),
        0xA4 => row(Mnemonic::Res, Operation::Res(4, Operand8::Reg(Register::H)), None, 8,
            untouched()),
        0xA5 => row(Mnemonic::Res, Operation::Res(4, Operand8::Reg(Register::L)), None, 8,
            untouched()),
        0xA6 => row(Mnemonic::Res, Operation::Res(4, Operand8::HlIndirect), None, 16, untouched()),
        0xA7 => row(Mnemonic::Res, Operation::Res(4, Operand8::Reg(Register::A)), None, 8,
            untouched()),
        0xA8 => row(Mnemonic::Res, Operation::Res(5, Operand8::Reg(Register::B)), None, 8,
            untouched()),
        0xA9 => row(Mnemonic::Res, Operation::Res(5, Operand8::Reg(Register::C)), None, 8,
            untouched()),
        0xAA => row(Mnemonic::Res, Operation::Res(5, Operand8::Reg(Register::D)), None, 8,
            untouched()),
        0xAB => row(Mnemonic::Res, Operation::Res(5, Operand8::Reg(Register::E)), None, 8,
            untouched()),
        0xAC => row(Mnemonic::Res, Operation::Res(5, Operand8::Reg(Register::H)), None, 8,
            untouched()),
        0xAD => row(Mnemonic::Res, Operation::Res(5, Operand8::Reg(Register::L)), None, 8,
            untouched()),
        0xAE => row(Mnemonic::Res, Operation::Res(5, Operand8::HlIndirect), None, 16, untouched()),
        _ => row(Mnemonic::Res, Operation::Res(5, Operand8::Reg(Register::A)), None, 8,
            untouched()),
    }
}

/// Rows `0xB0..=0xBF` of the prefixed table.
fn prefixed_b0(byte: u8) -> (entry: Opcode)
    requires
        0xB0 <= byte <= 0xBF,
    ensures
        entry == spec_lookup_prefixed(byte),
{
    reveal(spec_lookup_prefixed);
    match byte {
        0xB0 => row(Mnemonic::Res, Operation::Res(6, Operand8::Reg(Register::B)), None, 8,
            untouched()),
        0xB1 => row(Mnemonic::Res, Operation::Res(6, Operand8::Reg(Register::C)), None, 8,
            untouched()),
        0xB2 => row(Mnemonic::Res, Operation::Res(6, Operand8::Reg(Register::D)), None, 8,
            untouched()),
        0xB3 => row(Mnemonic::Res, Operation::Res(6, Operand8::Reg(Register::E)), None, 8,
            untouched()),
        0xB4 => row(Mnemonic::Res, Operation::Res(6, Operand8::Reg(Register::H)), None, 8,
            untouched()),
        0xB5 => row(Mnemonic::Res, Operation::Res(6, Operand8::Reg(Register::L)), None, 8,
            untouched()),
        0xB6 => row(Mnemonic::Res, Operation::Res(6, Operand8::HlIndirect), None, 16, untouched()),
        0xB7 => row(Mnemonic::Res, Operation::Res(6, Operand8::Reg(Register::A)), None, 8,
            untouched()),
        0xB8 => row(Mnemonic::Res, Operation::Res(7, Operand8::Reg(Register::B)), None, 8,
            untouched()),
        0xB9 => row(Mnemonic::Res, Operation::Res(7, Operand8::Reg(Register::C)), None, 8,
            untouched()),
        0xBA => row(Mnemonic::Res, Operation::Res(7, Operand8::Reg(Register::D)), None, 8,
            untouched()),
        0xBB => row(Mnemonic::Res, Operation::Res(7, Operand8::Reg(Register::E)), None, 8,
            untouched()),
        0xBC => row(Mnemonic::Res, Operation::Res(7, Operand8::Reg(Register::H)), None, 8,
            untouched()),
        0xBD => row(Mnemonic::Res, Operation::Res(7, Operand8::Reg(Register::L)), None, 8,
            untouched()),
        0xBE => row(Mnemonic::Res, Operation::Res(7, Operand8::HlIndirect), None, 16, untouched()),
        _ => row(Mnemonic::Res, Operation::Res(7, Operand8::Reg(Register::A)), None, 8,
            untouched()),
    }
}

/// Rows `0xC0..=0xCF` of the prefixed table.
fn prefixed_c0(byte: u8) -> (entry: Opcode)
    requires
        0xC0 <= byte <= 0xCF,
    ensures
        entry == spec_lookup_prefixed(byte),
{
    reveal(spec_lookup_prefixed);
    match byte {
        0xC0 => row(Mnemonic::SetBit, Operation::SetBit(0, Operand8::Reg(Register::B)), None, 8,
            untouched()),
        0xC1 => row(Mnemonic::SetBit, Operation::SetBit(0, Operand8::Reg(Register::C)), None, 8,
            untouched()),
        0xC2 => row(Mnemonic::SetBit, Operation::SetBit(0, Operand8::Reg(Register::D)), None, 8,
            untouched()),
        0xC3 => row(Mnemonic::SetBit, Operation::SetBit(0, Operand8::Reg(Register::E)), None, 8,
            untouched()),
        0xC4 => row(Mnemonic::SetBit, Operation::SetBit(0, Operand8::Reg(Register::H)), None, 8,
            untouched()),
        0xC5 => row(Mnemonic::SetBit, Operation::SetBit(0, Operand8::Reg(Register::L)), None, 8,
            untouched()),
        0xC6 => row(Mnemonic::SetBit, Operation::SetBit(0, Operand8::HlIndirect), None, 16,
            untouched()),
        0xC7 => row(Mnemonic::SetBit, Operation::SetBit(0, Operand8::Reg(Register::A)), None, 8,
            untouched()),
        0xC8 => row(Mnemonic::SetBit, Operation::SetBit(1, Operand8::Reg(Register::B)), None, 8,
            untouched()),
        0xC9 => row(Mnemonic::SetBit, Operation::SetBit(1, Operand8::Reg(Register::C)), None, 8,
            untouched()),
        0xCA => row(Mnemonic::SetBit, Operation::SetBit(1, Operand8::Reg(Register::D)), None, 8,
            untouched()),
        0xCB => row(Mnemonic::SetBit, Operation::SetBit(1, Operand8::Reg(Register::E)), None, 8,
            untouched()),
        0xCC => row(Mnemonic::SetBit, Operation::SetBit(1, Operand8::Reg(Register::H)), None, 8,
            untouched()),
        0xCD => row(Mnemonic::SetBit, Operation::SetBit(1, Operand8::Reg(Register::L)), None, 8,
            untouched()),
        0xCE => row(Mnemonic::SetBit, Operation::SetBit(1, Operand8::HlIndirect), None, 16,
            untouched()),
        _ => row(Mnemonic::SetBit, Operation::SetBit(1, Operand8::Reg(Register::A)), None, 8,
            untouched()),
    }
}

/// Rows `0xD0..=0xDF` of the prefixed table.
fn prefixed_d0(byte: u8) -> (entry: Opcode)
    requires
        0xD0 <= byte <= 0xDF,
    ensures
        entry == spec_lookup_prefixed(byte),
{
    reveal(spec_lookup_prefixed);
    match byte {
        0xD0 => row(Mnemonic::SetBit, Operation::SetBit(2, Operand8::Reg(Register::B)), None, 8,
            untouched()),
        0xD1 => row(Mnemonic::SetBit, Operation::SetBit(2, Operand8::Reg(Register::C)), None, 8,
            untouched()),
        0xD2 => row(Mnemonic::SetBit, Operation::SetBit(2, Operand8::Reg(Register::D)), None, 8,
            untouched()),
        0xD3 => row(Mnemonic::SetBit, Operation::SetBit(2, Operand8::Reg(Register::E)), None, 8,
            untouched()),
        0xD4 => row(Mnemonic::SetBit, Operation::SetBit(2, Operand8::Reg(Register::H)), None, 8,
            untouched()),
        0xD5 => row(Mnemonic::SetBit, Operation::SetBit(2, Operand8::Reg(Register::L)), None, 8,
            untouched()),
        0xD6 => row(Mnemonic::SetBit, Operation::SetBit(2, Operand8::HlIndirect), None, 16,
            untouched()),
        0xD7 => row(Mnemonic::SetBit, Operation::SetBit(2, Operand8::Reg(Register::A)), None, 8,
            untouched()),
        0xD8 => row(Mnemonic::SetBit, Operation::SetBit(3, Operand8::Reg(Register::B)), None, 8,
            untouched()),
        0xD9 => row(Mnemonic::SetBit, Operation::SetBit(3, Operand8::Reg(Register::C)), None, 8,
            untouched()),
        0xDA => row(Mnemonic::SetBit, Operation::SetBit(3, Operand8::Reg(Register::D)), None, 8,
            untouched()),
        0xDB => row(Mnemonic::SetBit, Operation::SetBit(3, Operand8::Reg(Register::E)), None, 8,
            untouched()),
        0xDC => row(Mnemonic::SetBit, Operation::SetBit(3, Operand8::Reg(Register::H)), None, 8,
            untouched()),
        0xDD => row(Mnemonic::SetBit, Operation::SetBit(3, Operand8::Reg(Register::L)), None, 8,
            untouched()),
        0xDE => row(Mnemonic::SetBit, Operation::SetBit(3, Operand8::HlIndirect), None, 16,
            untouched()),
        _ => row(Mnemonic::SetBit, Operation::SetBit(3, Operand8::Reg(Register::A)), None, 8,
            untouched()),
    }
}

/// Rows `0xE0..=0xEF` of the prefixed table.
fn prefixed_e0(byte: u8) -> (entry: Opcode)
    requires
        0xE0 <= byte <= 0xEF,
    ensures
        entry == spec_lookup_prefixed(byte),
{
    reveal(spec_lookup_prefixed);
    match byte {
        0xE0 => row(Mnemonic::SetBit, Operation::SetBit(4, Operand8::Reg(Register::B)), None, 8,
            untouched()),
        0xE1 => row(Mnemonic::SetBit, Operation::SetBit(4, Operand8::Reg(Register::C)), None, 8,
            untouched()),
        0xE2 => row(Mnemonic::SetBit, Operation::SetBit(4, Operand8::Reg(Register::D)), None, 8,
            untouched()),
        0xE3 => row(Mnemonic::SetBit, Operation::SetBit(4, Operand8::Reg(Register::E)), None, 8,
            untouched()),
        0xE4 => row(Mnemonic::SetBit, Operation::SetBit(4, Operand8::Reg(Register::H)), None, 8,
            untouched()),
        0xE5 => row(Mnemonic::SetBit, Operation::SetBit(4, Operand8::Reg(Register::L)), None, 8,
            untouched()),
        0xE6 => row(Mnemonic::SetBit, Operation::SetBit(4, Operand8::HlIndirect), None, 16,
            untouched()),
        0xE7 => row(Mnemonic::SetBit, Operation::SetBit(4, Operand8::Reg(Register::A)), None, 8,
            untouched()),
        0xE8 => row(Mnemonic::SetBit, Operation::SetBit(5, Operand8::Reg(Register::B)), None, 8,
            untouched()),
        0xE9 => row(Mnemonic::SetBit, Operation::SetBit(5, Operand8::Reg(Register::C)), None, 8,
            untouched()),
        0xEA => row(Mnemonic::SetBit, Operation::SetBit(5, Operand8::Reg(Register::D)), None, 8,
            untouched()),
        0xEB => row(Mnemonic::SetBit, Operation::SetBit(5, Operand8::Reg(Register::E)), None, 8,
            untouched()),
        0xEC => row(Mnemonic::SetBit, Operation::SetBit(5, Operand8::Reg(Register::H)), None, 8,
            untouched()),
        0xED => row(Mnemonic::SetBit, Operation::SetBit(5, Operand8::Reg(Register::L)), None, 8,
            untouched()),
        0xEE => row(Mnemonic::SetBit, Operation::SetBit(5, Operand8::HlIndirect), None, 16,
            untouched()),
        _ => row(Mnemonic::SetBit, Operation::SetBit(5, Operand8::Reg(Register::A)), None, 8,
            untouched()),
    }
}

/// Rows `0xF0..=0xFF` of the prefixed table.
fn prefixed_f0(byte: u8) -> (entry: Opcode)
    requires
        0xF0 <= byte <= 0xFF,
    ensures
        entry == spec_lookup_prefixed(byte),
{
    reveal(spec_lookup_prefixed);
    match byte {
        0xF0 => row(Mnemonic::SetBit, Operation::SetBit(6, Operand8::Reg(Register::B)), None, 8,
            untouched()),
        0xF1 => row(Mnemonic::SetBit, Operation::SetBit(6, Operand8::Reg(Register::C)), None, 8,
            untouched()),
        0xF2 => row(Mnemonic::SetBit, Operation::SetBit(6, Operand8::Reg(Register::D)), None, 8,
            untouched()),
        0xF3 => row(Mnemonic::SetBit, Operation::SetBit(6, Operand8::Reg(Register::E)), None, 8,
            untouched()),
        0xF4 => row(Mnemonic::SetBit, Operation::SetBit(6, Operand8::Reg(Register::H)), None, 8,
            untouched()),
        0xF5 => row(Mnemonic::SetBit, Operation::SetBit(6, Operand8::Reg(Register::L)), None, 8,
            untouched()),
        0xF6 => row(Mnemonic::SetBit, Operation::SetBit(6, Operand8::HlIndirect), None, 16,
            untouched()),
        0xF7 => row(Mnemonic::SetBit, Operation::SetBit(6, Operand8::Reg(Register::A)), None, 8,
            untouched()),
        0xF8 => row(Mnemonic::SetBit, Operation::SetBit(7, Operand8::Reg(Register::B)), None, 8,
            untouched()),
        0xF9 => row(Mnemonic::SetBit, Operation::SetBit(7, Operand8::Reg(Register::C)), None, 8,
            untouched()),
        0xFA => row(Mnemonic::SetBit, Operation::SetBit(7, Operand8::Reg(Register::D)), None, 8,
            untouched()),
        0xFB => row(Mnemonic::SetBit, Operation::SetBit(7, Operand8::Reg(Register::E)), None, 8,
            untouched()),
        0xFC => row(Mnemonic::SetBit, Operation::SetBit(7, Operand8::Reg(Register::H)), None, 8,
            untouched()),
        0xFD => row(Mnemonic::SetBit, Operation::SetBit(7, Operand8::Reg(Register::L)), None, 8,
            untouched()),
        0xFE => row(Mnemonic::SetBit, Operation::SetBit(7, Operand8::HlIndirect), None, 16,
            untouched()),
        _ => row(Mnemonic::SetBit, Operation::SetBit(7, Operand8::Reg(Register::A)), None, 8,
            untouched()),
    }
}

/// The instruction table: the base table and the table behind the prefix
/// byte.
pub struct OpcodeTable {}

impl OpcodeTable {
    /// The entry of the base table for `byte`; `None` for the eleven bytes
    /// without an instruction and for the prefix byte.
    pub fn lookup_opcode(byte: u8) -> (entry: Option<Opcode>)
        ensures
            entry == spec_lookup(byte),
    {
        if byte < 0x10 {
            base_00(byte)
        } else if byte < 0x20 {
            base_10(byte)
        } else if byte < 0x30 {
            base_20(byte)
        } else if byte < 0x40 {
            base_30(byte)
        } else if byte < 0x50 {
            base_40(byte)
        } else if byte < 0x60 {
            base_50(byte)
        } else if byte < 0x70 {
            base_60(byte)
        } else if byte < 0x80 {
            base_70(byte)
        } else if byte < 0x90 {
            base_80(byte)
        } else if byte < 0xA0 {
            base_90(byte)
        } else if byte < 0xB0 {
            base_a0(byte)
        } else if byte < 0xC0 {
            base_b0(byte)
        } else if byte < 0xD0 {
            base_c0(byte)
        } else if byte < 0xE0 {
            base_d0(byte)
        } else if byte < 0xF0 {
            base_e0(byte)
        } else {
            base_f0(byte)
        }
    }

    /// The entry of the prefixed table for `byte`.
    pub fn lookup_prefixed(byte: u8) -> (entry: Opcode)
        ensures
            entry == spec_lookup_prefixed(byte),
    {
        if byte < 0x10 {
            prefixed_00(byte)
        } else if byte < 0x20 {
            prefixed_10(byte)
        } else if byte < 0x30 {
            prefixed_20(byte)
        } else if byte < 0x40 {
            prefixed_30(byte)
        } else if byte < 0x50 {
            prefixed_40(byte)
        } else if byte < 0x60 {
            prefixed_50(byte)
        } else if byte < 0x70 {
            prefixed_60(byte)
        } else if byte < 0x80 {
            prefixed_70(byte)
        } else if byte < 0x90 {
            prefixed_80(byte)
        } else if byte < 0xA0 {
            prefixed_90(byte)
        } else if byte < 0xB0 {
            prefixed_a0(byte)
        } else if byte < 0xC0 {
            prefixed_b0(byte)
        } else if byte < 0xD0 {
            prefixed_c0(byte)
        } else if byte < 0xE0 {
            prefixed_d0(byte)
        } else if byte < 0xF0 {
            prefixed_e0(byte)
        } else {
            prefixed_f0(byte)
        }
    }
}

} // verus!
