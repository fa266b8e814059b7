//! The instruction table: what each opcode of the base table and of the
//! prefixed table stands for, how many operand bytes follow it, and what it
//! does to each flag.

use super::alu::{AluOp, RotOp};
use super::opcodes::AddressingMode;
use super::registers::{Register, Register16};
use vstd::prelude::*;

verus! {

/// The byte that selects the prefixed table.
pub const PREFIX: u8 = 0xCB;

/// An 8-bit operand: a register, or the byte that `HL` points at.
#[derive(Clone, Copy, PartialEq, Eq, Structural, Debug)]
pub enum Operand8 {
    Reg(Register),
    HlIndirect,
}

/// The flag tests of conditional jumps, calls and returns.
#[derive(Clone, Copy, PartialEq, Eq, Structural, Debug)]
pub enum Condition {
    NZ,
    Z,
    NC,
    C,
}

/// The register that holds the address of an accumulator load or store;
/// `HLInc` and `HLDec` move `HL` after the access.
#[derive(Clone, Copy, PartialEq, Eq, Structural, Debug)]
pub enum Indirect {
    BC,
    DE,
    HLInc,
    HLDec,
}

/// What an instruction does to one flag.
#[derive(Clone, Copy, PartialEq, Eq, Structural, Debug)]
pub enum FlagEffect {
    /// Forced to one.
    SetOn,
    /// Forced to zero.
    Clear,
    /// Taken from the result.
    Computed,
    /// Left as it was.
    Unaffected,
}

/// What an instruction does to each of the four flags.
#[derive(Clone, Copy, PartialEq, Eq, Structural, Debug)]
pub struct FlagEffects {
    pub z: FlagEffect,
    pub n: FlagEffect,
    pub h: FlagEffect,
    pub c: FlagEffect,
}

#[derive(Clone, Copy, PartialEq, Eq, Structural, Debug)]
pub enum Mnemonic {
    Nop,
    Stop,
    Halt,
    Di,
    Ei,
    Ld,
    Ldh,
    Push,
    Pop,
    Add,
    Adc,
    Sub,
    Sbc,
    And,
    Xor,
    Or,
    Cp,
    Inc,
    Dec,
    Daa,
    Cpl,
    Scf,
    Ccf,
    Rlca,
    Rrca,
    Rla,
    Rra,
    Jr,
    Jp,
    Call,
    Ret,
    Reti,
    Rst,
    Rlc,
    Rrc,
    Rl,
    Rr,
    Sla,
    Sra,
    Swap,
    Srl,
    Bit,
    Res,
    SetBit,
}

/// What an instruction does, with the operands that its opcode fixes.
#[derive(Clone, Copy, PartialEq, Eq, Structural, Debug)]
pub enum Operation {
    Nop,
    Stop,
    Halt,
    Di,
    Ei,
    /// `LD dst,src`
    Ld(Operand8, Operand8),
    /// `LD dst,d8`
    LdImm(Operand8),
    /// `LD A,(BC)`, `LD A,(DE)`, `LD A,(HL+)`, `LD A,(HL-)`
    LdAFromIndirect(Indirect),
    /// `LD (BC),A`, `LD (DE),A`, `LD (HL+),A`, `LD (HL-),A`
    LdIndirectFromA(Indirect),
    /// `LD A,(a16)`
    LdAFromAddr,
    /// `LD (a16),A`
    LdAddrFromA,
    /// `LDH A,(a8)`
    LdhAFromImm,
    /// `LDH (a8),A`
    LdhImmFromA,
    /// `LD A,(C)`
    LdAFromC,
    /// `LD (C),A`
    LdCFromA,
    /// `LD rr,d16`
    Ld16Imm(Register16),
    /// `LD (a16),SP`
    LdAddrFromSp,
    /// `LD SP,HL`
    LdSpFromHl,
    /// `LD HL,SP+r8`
    LdHlFromSpOffset,
    Push(Register16),
    Pop(Register16),
    /// An accumulator operation with a register or `(HL)`.
    Alu(AluOp, Operand8),
    /// An accumulator operation with `d8`.
    AluImm(AluOp),
    Inc(Operand8),
    Dec(Operand8),
    Daa,
    Cpl,
    Scf,
    Ccf,
    Rlca,
    Rrca,
    Rla,
    Rra,
    /// `ADD HL,rr`
    AddHl(Register16),
    /// `ADD SP,r8`
    AddSpOffset,
    Inc16(Register16),
    Dec16(Register16),
    /// `JR r8` and `JR cc,r8`
    Jr(Option<Condition>),
    /// `JP a16` and `JP cc,a16`
    Jp(Option<Condition>),
    /// `JP HL`
    JpHl,
    /// `CALL a16` and `CALL cc,a16`
    Call(Option<Condition>),
    /// `RET` and `RET cc`
    Ret(Option<Condition>),
    Reti,
    /// `RST` to the given address.
    Rst(u8),
    /// A rotation or shift from the prefixed table.
    Rot(RotOp, Operand8),
    /// `BIT n,operand`
    Bit(u8, Operand8),
    /// `RES n,operand`
    Res(u8, Operand8),
    /// `SET n,operand`
    SetBit(u8, Operand8),
}

/// The groups of operations.
#[derive(Clone, Copy, PartialEq, Eq, Structural, Debug)]
pub enum Class {
    /// 8-bit loads and stores.
    Load,
    /// 16-bit loads, pushes and pops.
    Load16,
    /// 8-bit arithmetic and logic.
    Arithmetic,
    /// 16-bit arithmetic.
    Arithmetic16,
    /// Jumps, calls, returns and the operations on the processor itself.
    Control,
    /// The operations of the prefixed table.
    Bits,
}

/// An entry of the instruction table.
#[derive(Clone, Copy, PartialEq, Eq, Structural, Debug)]
pub struct Opcode {
    pub mnemonic: Mnemonic,
    pub operation: Operation,
    /// How the operand bytes are read; `None` where none follow.
    pub mode: Option<AddressingMode>,
    /// Bytes that follow the opcode (and the prefix).
    pub operand_bytes: u8,
    /// Clock cycles; for a conditional instruction, those of the path on
    /// which the condition fails.
    pub cycles: u8,
    pub flags: FlagEffects,
}

/// The operand that a 3-bit register field selects.
pub open spec fn field_operand(z: int) -> Operand8 {
    if z == 0 {
        Operand8::Reg(Register::B)
    } else if z == 1 {
        Operand8::Reg(Register::C)
    } else if z == 2 {
        Operand8::Reg(Register::D)
    } else if z == 3 {
        Operand8::Reg(Register::E)
    } else if z == 4 {
        Operand8::Reg(Register::H)
    } else if z == 5 {
        Operand8::Reg(Register::L)
    } else if z == 6 {
        Operand8::HlIndirect
    } else {
        Operand8::Reg(Register::A)
    }
}

/// The pair that a 2-bit field selects, with `SP` last.
pub open spec fn field_pair(p: int) -> Register16 {
    if p == 0 {
        Register16::BC
    } else if p == 1 {
        Register16::DE
    } else if p == 2 {
        Register16::HL
    } else {
        Register16::SP
    }
}

/// The pair that a 2-bit field selects, with `AF` last.
pub open spec fn field_stack_pair(p: int) -> Register16 {
    if p == 0 {
        Register16::BC
    } else if p == 1 {
        Register16::DE
    } else if p == 2 {
        Register16::HL
    } else {
        Register16::AF
    }
}

/// The address register that a 2-bit field selects.
pub open spec fn field_indirect(p: int) -> Indirect {
    if p == 0 {
        Indirect::BC
    } else if p == 1 {
        Indirect::DE
    } else if p == 2 {
        Indirect::HLInc
    } else {
        Indirect::HLDec
    }
}

/// The condition that a 2-bit field selects.
pub open spec fn field_condition(y: int) -> Condition {
    if y == 0 {
        Condition::NZ
    } else if y == 1 {
        Condition::Z
    } else if y == 2 {
        Condition::NC
    } else {
        Condition::C
    }
}

/// The accumulator operation that a 3-bit field selects.
pub open spec fn field_alu(y: int) -> AluOp {
    if y == 0 {
        AluOp::Add
    } else if y == 1 {
        AluOp::Adc
    } else if y == 2 {
        AluOp::Sub
    } else if y == 3 {
        AluOp::Sbc
    } else if y == 4 {
        AluOp::And
    } else if y == 5 {
        AluOp::Xor
    } else if y == 6 {
        AluOp::Or
    } else {
        AluOp::Cp
    }
}

/// The rotation or shift that a 3-bit field selects.
pub open spec fn field_rot(y: int) -> RotOp {
    if y == 0 {
        RotOp::Rlc
    } else if y == 1 {
        RotOp::Rrc
    } else if y == 2 {
        RotOp::Rl
    } else if y == 3 {
        RotOp::Rr
    } else if y == 4 {
        RotOp::Sla
    } else if y == 5 {
        RotOp::Sra
    } else if y == 6 {
        RotOp::Swap
    } else {
        RotOp::Srl
    }
}

/// Opcodes `0x00..=0x3F`, by their fields `y` (bits 5 to 3) and `z` (bits 2
/// to 0).
pub open spec fn decode_block0(y: int, z: int) -> Operation {
    if z == 0 {
        if y == 0 {
            Operation::Nop
        } else if y == 1 {
            Operation::LdAddrFromSp
        } else if y == 2 {
            Operation::Stop
        } else if y == 3 {
            Operation::Jr(None)
        } else {
            Operation::Jr(Some(field_condition(y - 4)))
        }
    } else if z == 1 {
        if y % 2 == 0 {
            Operation::Ld16Imm(field_pair(y / 2))
        } else {
            Operation::AddHl(field_pair(y / 2))
        }
    } else if z == 2 {
        if y % 2 == 0 {
            Operation::LdIndirectFromA(field_indirect(y / 2))
        } else {
            Operation::LdAFromIndirect(field_indirect(y / 2))
        }
    } else if z == 3 {
        if y % 2 == 0 {
            Operation::Inc16(field_pair(y / 2))
        } else {
            Operation::Dec16(field_pair(y / 2))
        }
    } else if z == 4 {
        Operation::Inc(field_operand(y))
    } else if z == 5 {
        Operation::Dec(field_operand(y))
    } else if z == 6 {
        Operation::LdImm(field_operand(y))
    } else if y == 0 {
        Operation::Rlca
    } else if y == 1 {
        Operation::Rrca
    } else if y == 2 {
        Operation::Rla
    } else if y == 3 {
        Operation::Rra
    } else if y == 4 {
        Operation::Daa
    } else if y == 5 {
        Operation::Cpl
    } else if y == 6 {
        Operation::Scf
    } else {
        Operation::Ccf
    }
}

/// Opcodes `0xC0..=0xFF`, by their fields; `None` where the table has no
/// instruction, and for the prefix byte.
pub open spec fn decode_block3(y: int, z: int) -> Option<Operation> {
    if z == 0 {
        if y < 4 {
            Some(Operation::Ret(Some(field_condition(y))))
        } else if y == 4 {
            Some(Operation::LdhImmFromA)
        } else if y == 5 {
            Some(Operation::AddSpOffset)
        } else if y == 6 {
            Some(Operation::LdhAFromImm)
        } else {
            Some(Operation::LdHlFromSpOffset)
        }
    } else if z == 1 {
        if y % 2 == 0 {
            Some(Operation::Pop(field_stack_pair(y / 2)))
        } else if y == 1 {
            Some(Operation::Ret(None))
        } else if y == 3 {
            Some(Operation::Reti)
        } else if y == 5 {
            Some(Operation::JpHl)
        } else {
            Some(Operation::LdSpFromHl)
        }
    } else if z == 2 {
        if y < 4 {
            Some(Operation::Jp(Some(field_condition(y))))
        } else if y == 4 {
            Some(Operation::LdCFromA)
        } else if y == 5 {
            Some(Operation::LdAddrFromA)
        } else if y == 6 {
            Some(Operation::LdAFromC)
        } else {
            Some(Operation::LdAFromAddr)
        }
    } else if z == 3 {
        if y == 0 {
            Some(Operation::Jp(None))
        } else if y == 6 {
            Some(Operation::Di)
        } else if y == 7 {
            Some(Operation::Ei)
        } else {
            None
        }
    } else if z == 4 {
        if y < 4 {
            Some(Operation::Call(Some(field_condition(y))))
        } else {
            None
        }
    } else if z == 5 {
        if y % 2 == 0 {
            Some(Operation::Push(field_stack_pair(y / 2)))
        } else if y == 1 {
            Some(Operation::Call(None))
        } else {
            None
        }
    } else if z == 6 {
        Some(Operation::AluImm(field_alu(y)))
    } else {
        Some(Operation::Rst((y * 8) as u8))
    }
}

/// The operation of an opcode of the base table; `None` for the eleven
/// opcodes without an instruction and for the prefix byte.
pub open spec fn spec_decode(opcode: u8) -> Option<Operation> {
    let x = opcode as int / 64;
    let y = (opcode as int / 8) % 8;
    let z = opcode as int % 8;
    if x == 0 {
        Some(decode_block0(y, z))
    } else if x == 1 {
        if opcode == 0x76 {
            Some(Operation::Halt)
        } else {
            Some(Operation::Ld(field_operand(y), field_operand(z)))
        }
    } else if x == 2 {
        Some(Operation::Alu(field_alu(y), field_operand(z)))
    } else {
        decode_block3(y, z)
    }
}

/// The operation of an opcode of the prefixed table.
pub open spec fn spec_decode_prefixed(opcode: u8) -> Operation {
    let x = opcode as int / 64;
    let y = (opcode as int / 8) % 8;
    let z = opcode as int % 8;
    if x == 0 {
        Operation::Rot(field_rot(y), field_operand(z))
    } else if x == 1 {
        Operation::Bit(y as u8, field_operand(z))
    } else if x == 2 {
        Operation::Res(y as u8, field_operand(z))
    } else {
        Operation::SetBit(y as u8, field_operand(z))
    }
}

/// The mnemonic of an accumulator operation.
pub open spec fn alu_mnemonic(op: AluOp) -> Mnemonic {
    match op {
        AluOp::Add => Mnemonic::Add,
        AluOp::Adc => Mnemonic::Adc,
        AluOp::Sub => Mnemonic::Sub,
        AluOp::Sbc => Mnemonic::Sbc,
        AluOp::And => Mnemonic::And,
        AluOp::Xor => Mnemonic::Xor,
        AluOp::Or => Mnemonic::Or,
        AluOp::Cp => Mnemonic::Cp,
    }
}

/// The mnemonic of a rotation or shift.
pub open spec fn rot_mnemonic(op: RotOp) -> Mnemonic {
    match op {
        RotOp::Rlc => Mnemonic::Rlc,
        RotOp::Rrc => Mnemonic::Rrc,
        RotOp::Rl => Mnemonic::Rl,
        RotOp::Rr => Mnemonic::Rr,
        RotOp::Sla => Mnemonic::Sla,
        RotOp::Sra => Mnemonic::Sra,
        RotOp::Swap => Mnemonic::Swap,
        RotOp::Srl => Mnemonic::Srl,
    }
}

/// All four flags under one effect.
pub open spec fn uniform(e: FlagEffect) -> FlagEffects {
    FlagEffects { z: e, n: e, h: e, c: e }
}

/// Clock cycles of an instruction whose operand is a register, and four
/// more for each access to `(HL)`.
pub open spec fn operand_cycles(o: Operand8, register: u8, indirect: u8) -> u8 {
    match o {
        Operand8::Reg(_) => register,
        Operand8::HlIndirect => indirect,
    }
}

impl Operation {
    pub open spec fn spec_class(self) -> Class {
        match self {
            Operation::Ld(_, _)
            | Operation::LdImm(_)
            | Operation::LdAFromIndirect(_)
            | Operation::LdIndirectFromA(_)
            | Operation::LdAFromAddr
            | Operation::LdAddrFromA
            | Operation::LdhAFromImm
            | Operation::LdhImmFromA
            | Operation::LdAFromC
            | Operation::LdCFromA => Class::Load,
            Operation::Ld16Imm(_)
            | Operation::LdAddrFromSp
            | Operation::LdSpFromHl
            | Operation::LdHlFromSpOffset
            | Operation::Push(_)
            | Operation::Pop(_) => Class::Load16,
            Operation::Alu(_, _)
            | Operation::AluImm(_)
            | Operation::Inc(_)
            | Operation::Dec(_)
            | Operation::Daa
            | Operation::Cpl
            | Operation::Scf
            | Operation::Ccf
            | Operation::Rlca
            | Operation::Rrca
            | Operation::Rla
            | Operation::Rra => Class::Arithmetic,
            Operation::AddHl(_)
            | Operation::AddSpOffset
            | Operation::Inc16(_)
            | Operation::Dec16(_) => Class::Arithmetic16,
            Operation::Nop
            | Operation::Stop
            | Operation::Halt
            | Operation::Di
            | Operation::Ei
            | Operation::Jr(_)
            | Operation::Jp(_)
            | Operation::JpHl
            | Operation::Call(_)
            | Operation::Ret(_)
            | Operation::Reti
            | Operation::Rst(_) => Class::Control,
            Operation::Rot(_, _)
            | Operation::Bit(_, _)
            | Operation::Res(_, _)
            | Operation::SetBit(_, _) => Class::Bits,
        }
    }

    pub fn class(&self) -> (class: Class)
        ensures
            class == self.spec_class(),
    {
        match self {
            Operation::Ld(_, _)
            | Operation::LdImm(_)
            | Operation::LdAFromIndirect(_)
            | Operation::LdIndirectFromA(_)
            | Operation::LdAFromAddr
            | Operation::LdAddrFromA
            | Operation::LdhAFromImm
            | Operation::LdhImmFromA
            | Operation::LdAFromC
            | Operation::LdCFromA => Class::Load,
            Operation::Ld16Imm(_)
            | Operation::LdAddrFromSp
            | Operation::LdSpFromHl
            | Operation::LdHlFromSpOffset
            | Operation::Push(_)
            | Operation::Pop(_) => Class::Load16,
            Operation::Alu(_, _)
            | Operation::AluImm(_)
            | Operation::Inc(_)
            | Operation::Dec(_)
            | Operation::Daa
            | Operation::Cpl
            | Operation::Scf
            | Operation::Ccf
            | Operation::Rlca
            | Operation::Rrca
            | Operation::Rla
            | Operation::Rra => Class::Arithmetic,
            Operation::AddHl(_)
            | Operation::AddSpOffset
            | Operation::Inc16(_)
            | Operation::Dec16(_) => Class::Arithmetic16,
            Operation::Nop
            | Operation::Stop
            | Operation::Halt
            | Operation::Di
            | Operation::Ei
            | Operation::Jr(_)
            | Operation::Jp(_)
            | Operation::JpHl
            | Operation::Call(_)
            | Operation::Ret(_)
            | Operation::Reti
            | Operation::Rst(_) => Class::Control,
            Operation::Rot(_, _)
            | Operation::Bit(_, _)
            | Operation::Res(_, _)
            | Operation::SetBit(_, _) => Class::Bits,
        }
    }

    pub open spec fn mnemonic(self) -> Mnemonic {
        match self {
            Operation::Nop => Mnemonic::Nop,
            Operation::Stop => Mnemonic::Stop,
            Operation::Halt => Mnemonic::Halt,
            Operation::Di => Mnemonic::Di,
            Operation::Ei => Mnemonic::Ei,
            Operation::Ld(_, _) => Mnemonic::Ld,
            Operation::LdImm(_) => Mnemonic::Ld,
            Operation::LdAFromIndirect(_) => Mnemonic::Ld,
            Operation::LdIndirectFromA(_) => Mnemonic::Ld,
            Operation::LdAFromAddr => Mnemonic::Ld,
            Operation::LdAddrFromA => Mnemonic::Ld,
            Operation::LdhAFromImm => Mnemonic::Ldh,
            Operation::LdhImmFromA => Mnemonic::Ldh,
            Operation::LdAFromC => Mnemonic::Ld,
            Operation::LdCFromA => Mnemonic::Ld,
            Operation::Ld16Imm(_) => Mnemonic::Ld,
            Operation::LdAddrFromSp => Mnemonic::Ld,
            Operation::LdSpFromHl => Mnemonic::Ld,
            Operation::LdHlFromSpOffset => Mnemonic::Ld,
            Operation::Push(_) => Mnemonic::Push,
            Operation::Pop(_) => Mnemonic::Pop,
            Operation::Alu(op, _) => alu_mnemonic(op),
            Operation::AluImm(op) => alu_mnemonic(op),
            Operation::Inc(_) => Mnemonic::Inc,
            Operation::Dec(_) => Mnemonic::Dec,
            Operation::Daa => Mnemonic::Daa,
            Operation::Cpl => Mnemonic::Cpl,
            Operation::Scf => Mnemonic::Scf,
            Operation::Ccf => Mnemonic::Ccf,
            Operation::Rlca => Mnemonic::Rlca,
            Operation::Rrca => Mnemonic::Rrca,
            Operation::Rla => Mnemonic::Rla,
            Operation::Rra => Mnemonic::Rra,
            Operation::AddHl(_) => Mnemonic::Add,
            Operation::AddSpOffset => Mnemonic::Add,
            Operation::Inc16(_) => Mnemonic::Inc,
            Operation::Dec16(_) => Mnemonic::Dec,
            Operation::Jr(_) => Mnemonic::Jr,
            Operation::Jp(_) => Mnemonic::Jp,
            Operation::JpHl => Mnemonic::Jp,
            Operation::Call(_) => Mnemonic::Call,
            Operation::Ret(_) => Mnemonic::Ret,
            Operation::Reti => Mnemonic::Reti,
            Operation::Rst(_) => Mnemonic::Rst,
            Operation::Rot(op, _) => rot_mnemonic(op),
            Operation::Bit(_, _) => Mnemonic::Bit,
            Operation::Res(_, _) => Mnemonic::Res,
            Operation::SetBit(_, _) => Mnemonic::SetBit,
        }
    }

    /// How the bytes that follow the opcode are read.
    pub open spec fn mode(self) -> Option<AddressingMode> {
        match self {
            Operation::Stop | Operation::LdImm(_) | Operation::AluImm(_) => Some(
                AddressingMode::D8,
            ),
            Operation::Ld16Imm(_) => Some(AddressingMode::D16),
            Operation::LdhAFromImm | Operation::LdhImmFromA => Some(AddressingMode::A8),
            Operation::LdAFromAddr
            | Operation::LdAddrFromA
            | Operation::LdAddrFromSp
            | Operation::Jp(_)
            | Operation::Call(_) => Some(AddressingMode::A16),
            Operation::Jr(_) | Operation::AddSpOffset | Operation::LdHlFromSpOffset => Some(
                AddressingMode::R8,
            ),
            _ => None,
        }
    }

    pub open spec fn cycles(self) -> u8 {
        match self {
            Operation::Nop
            | Operation::Stop
            | Operation::Halt
            | Operation::Di
            | Operation::Ei
            | Operation::Daa
            | Operation::Cpl
            | Operation::Scf
            | Operation::Ccf
            | Operation::Rlca
            | Operation::Rrca
            | Operation::Rla
            | Operation::Rra
            | Operation::JpHl => 4,
            Operation::Ld(dst, src) => if dst == Operand8::HlIndirect || src
                == Operand8::HlIndirect {
                8
            } else {
                4
            },
            Operation::LdImm(dst) => operand_cycles(dst, 8, 12),
            Operation::LdAFromIndirect(_)
            | Operation::LdIndirectFromA(_)
            | Operation::LdAFromC
            | Operation::LdCFromA
            | Operation::LdSpFromHl
            | Operation::AluImm(_)
            | Operation::AddHl(_)
            | Operation::Inc16(_)
            | Operation::Dec16(_) => 8,
            Operation::LdAFromAddr | Operation::LdAddrFromA => 16,
            Operation::LdhAFromImm | Operation::LdhImmFromA => 12,
            Operation::Ld16Imm(_) | Operation::LdHlFromSpOffset | Operation::Pop(_) => 12,
            Operation::LdAddrFromSp => 20,
            Operation::Push(_) | Operation::AddSpOffset | Operation::Reti | Operation::Rst(_) => 16,
            Operation::Alu(_, src) => operand_cycles(src, 4, 8),
            Operation::Inc(o) | Operation::Dec(o) => operand_cycles(o, 4, 12),
            Operation::Jr(cond) => if cond is Some {
                8
            } else {
                12
            },
            Operation::Jp(cond) => if cond is Some {
                12
            } else {
                16
            },
            Operation::Call(cond) => if cond is Some {
                12
            } else {
                24
            },
            Operation::Ret(cond) => if cond is Some {
                8
            } else {
                16
            },
            Operation::Rot(_, o) | Operation::Res(_, o) | Operation::SetBit(_, o) => operand_cycles(
                o,
                8,
                16,
            ),
            Operation::Bit(_, o) => operand_cycles(o, 8, 12),
        }
    }

    /// What the instruction does to each flag.
    pub open spec fn effects(self) -> FlagEffects {
        match self {
            Operation::Alu(op, _) | Operation::AluImm(op) => match op {
                AluOp::Add | AluOp::Adc => FlagEffects {
                    z: FlagEffect::Computed,
                    n: FlagEffect::Clear,
                    h: FlagEffect::Computed,
                    c: FlagEffect::Computed,
                },
                AluOp::Sub | AluOp::Sbc | AluOp::Cp => FlagEffects {
                    z: FlagEffect::Computed,
                    n: FlagEffect::SetOn,
                    h: FlagEffect::Computed,
                    c: FlagEffect::Computed,
                },
                AluOp::And => FlagEffects {
                    z: FlagEffect::Computed,
                    n: FlagEffect::Clear,
                    h: FlagEffect::SetOn,
                    c: FlagEffect::Clear,
                },
                AluOp::Xor | AluOp::Or => FlagEffects {
                    z: FlagEffect::Computed,
                    n: FlagEffect::Clear,
                    h: FlagEffect::Clear,
                    c: FlagEffect::Clear,
                },
            },
            Operation::Inc(_) => FlagEffects {
                z: FlagEffect::Computed,
                n: FlagEffect::Clear,
                h: FlagEffect::Computed,
                c: FlagEffect::Unaffected,
            },
            Operation::Dec(_) => FlagEffects {
                z: FlagEffect::Computed,
                n: FlagEffect::SetOn,
                h: FlagEffect::Computed,
                c: FlagEffect::Unaffected,
            },
            Operation::Daa => FlagEffects {
                z: FlagEffect::Computed,
                n: FlagEffect::Unaffected,
                h: FlagEffect::Clear,
                c: FlagEffect::Computed,
            },
            Operation::Cpl => FlagEffects {
                z: FlagEffect::Unaffected,
                n: FlagEffect::SetOn,
                h: FlagEffect::SetOn,
                c: FlagEffect::Unaffected,
            },
            Operation::Scf => FlagEffects {
                z: FlagEffect::Unaffected,
                n: FlagEffect::Clear,
                h: FlagEffect::Clear,
                c: FlagEffect::SetOn,
            },
            Operation::Ccf => FlagEffects {
                z: FlagEffect::Unaffected,
                n: FlagEffect::Clear,
                h: FlagEffect::Clear,
                c: FlagEffect::Computed,
            },
            Operation::Rlca | Operation::Rrca | Operation::Rla | Operation::Rra => FlagEffects {
                z: FlagEffect::Clear,
                n: FlagEffect::Clear,
                h: FlagEffect::Clear,
                c: FlagEffect::Computed,
            },
            Operation::AddHl(_) => FlagEffects {
                z: FlagEffect::Unaffected,
                n: FlagEffect::Clear,
                h: FlagEffect::Computed,
                c: FlagEffect::Computed,
            },
            Operation::AddSpOffset | Operation::LdHlFromSpOffset => FlagEffects {
                z: FlagEffect::Clear,
                n: FlagEffect::Clear,
                h: FlagEffect::Computed,
                c: FlagEffect::Computed,
            },
            Operation::Pop(pair) => if pair == Register16::AF {
                uniform(FlagEffect::Computed)
            } else {
                uniform(FlagEffect::Unaffected)
            },
            Operation::Rot(op, _) => if op == RotOp::Swap {
                FlagEffects {
                    z: FlagEffect::Computed,
                    n: FlagEffect::Clear,
                    h: FlagEffect::Clear,
                    c: FlagEffect::Clear,
                }
            } else {
                FlagEffects {
                    z: FlagEffect::Computed,
                    n: FlagEffect::Clear,
                    h: FlagEffect::Clear,
                    c: FlagEffect::Computed,
                }
            },
            Operation::Bit(_, _) => FlagEffects {
                z: FlagEffect::Computed,
                n: FlagEffect::Clear,
                h: FlagEffect::SetOn,
                c: FlagEffect::Unaffected,
            },
            _ => uniform(FlagEffect::Unaffected),
        }
    }

    /// The table entry of the operation.
    pub open spec fn entry(self) -> Opcode {
        Opcode {
            mnemonic: self.mnemonic(),
            operation: self,
            mode: self.mode(),
            operand_bytes: spec_operand_bytes(self.mode()),
            cycles: self.cycles(),
            flags: self.effects(),
        }
    }
}

/// Bytes that an addressing mode reads after the opcode.
pub open spec fn spec_operand_bytes(mode: Option<AddressingMode>) -> u8 {
    match mode {
        None => 0,
        Some(AddressingMode::D8) | Some(AddressingMode::A8) | Some(AddressingMode::R8) => 1,
        Some(AddressingMode::D16) | Some(AddressingMode::A16) => 2,
    }
}

/// The entry of the base table for `opcode`, where it has one.
#[verifier::opaque]
pub open spec fn spec_lookup(opcode: u8) -> Option<Opcode> {
    match spec_decode(opcode) {
        Some(operation) => Some(operation.entry()),
        None => None,
    }
}

/// The entry of the prefixed table for `opcode`. Its cycles count the prefix
/// too.
#[verifier::opaque]
pub open spec fn spec_lookup_prefixed(opcode: u8) -> Opcode {
    spec_decode_prefixed(opcode).entry()
}

} // verus!
