use gameboy_emulator::bits::{high, low, low12, nibble, offset, word};
use gameboy_emulator::bus::Bus;
use gameboy_emulator::cpu::alu::{
    add16, add_offset, alu, check_c, check_c16, check_c_sub, check_h, check_h16, check_h_sub,
    check_z, daa, dec8, inc8, mask_of_bit, rotate, rotate_a, AluOp, AluResult, RotOp,
};
use gameboy_emulator::cpu::lookup::{operand_bytes, OpcodeTable};
use gameboy_emulator::cpu::opcodes::AddressingMode;
use gameboy_emulator::cpu::registers::{Flag, Flags, Register, Register16, RegisterFile};
use gameboy_emulator::cpu::table::{
    Class, Condition, FlagEffect, FlagEffects, Indirect, Mnemonic, Opcode, Operand8, Operation,
};
use gameboy_emulator::cpu::Cpu;
use gameboy_emulator::disassembler::{Disassembler, Line};
use gameboy_emulator::gameboy::Gameboy;
use gameboy_emulator::memory::rom::Rom;
use gameboy_emulator::ppu::Ppu;

const NONE: FlagEffects = FlagEffects {
    z: FlagEffect::Unaffected,
    n: FlagEffect::Unaffected,
    h: FlagEffect::Unaffected,
    c: FlagEffect::Unaffected,
};

fn clear() -> Flags {
    Flags { z: false, n: false, h: false, c: false }
}

#[test]
fn bytes_and_words() {
    assert_eq!(high(0x1234), 0x12);
    assert_eq!(low(0x1234), 0x34);
    assert_eq!(word(0x12, 0x34), 0x1234);
    assert_eq!(nibble(0xAB), 0x0B);
    assert_eq!(low12(0xABCD), 0x0BCD);
    assert_eq!(offset(0x0102, 0xFE), 0x0100);
    assert_eq!(offset(0x0102, 0x7F), 0x0181);
    assert_eq!(offset(0x0000, 0x80), 0xFF80);
    assert_eq!(offset(0xFFFF, 0x01), 0x0000);
}

#[test]
fn flag_predicates() {
    assert!(check_z(0));
    assert!(!check_z(0x100));
    assert!(check_h(0x0F, 0x01, false));
    assert!(!check_h(0x0E, 0x01, false));
    assert!(check_h(0x0E, 0x01, true));
    assert!(check_c(0xFF, 0x01, false));
    assert!(!check_c(0xFE, 0x01, false));
    assert!(check_c(0xFE, 0x01, true));
    assert!(check_h_sub(0x10, 0x01, false));
    assert!(!check_h_sub(0x11, 0x01, false));
    assert!(check_h_sub(0x11, 0x01, true));
    assert!(check_c_sub(0x00, 0x01, false));
    assert!(!check_c_sub(0x01, 0x01, false));
    assert!(check_c_sub(0x01, 0x01, true));
    assert!(check_h16(0x0FFF, 0x0001));
    assert!(!check_h16(0xF0FF, 0x0001));
    assert!(check_c16(0xFFFF, 0x0001));
    assert!(!check_c16(0xFFFE, 0x0001));
    assert_eq!(mask_of_bit(0), 0x01);
    assert_eq!(mask_of_bit(7), 0x80);
    assert_eq!(mask_of_bit(9), 0x02);
}

#[test]
fn alu_results() {
    assert_eq!(
        alu(AluOp::Add, 0x0F, 0x01, clear()),
        AluResult { value: 0x10, flags: Flags { z: false, n: false, h: true, c: false } }
    );
    assert_eq!(
        alu(AluOp::Add, 0xFF, 0x01, clear()),
        AluResult { value: 0x00, flags: Flags { z: true, n: false, h: true, c: true } }
    );
    assert_eq!(
        alu(AluOp::Adc, 0xFF, 0x00, Flags { c: true, ..clear() }),
        AluResult { value: 0x00, flags: Flags { z: true, n: false, h: true, c: true } }
    );
    assert_eq!(
        alu(AluOp::Sub, 0x10, 0x20, clear()),
        AluResult { value: 0xF0, flags: Flags { z: false, n: true, h: false, c: true } }
    );
    assert_eq!(
        alu(AluOp::Sbc, 0x10, 0x0F, Flags { c: true, ..clear() }),
        AluResult { value: 0x00, flags: Flags { z: true, n: true, h: true, c: false } }
    );
    assert_eq!(
        alu(AluOp::And, 0x0F, 0xF0, Flags { c: true, ..clear() }),
        AluResult { value: 0x00, flags: Flags { z: true, n: false, h: true, c: false } }
    );
    assert_eq!(
        alu(AluOp::Xor, 0xFF, 0x0F, clear()),
        AluResult { value: 0xF0, flags: clear() }
    );
    assert_eq!(alu(AluOp::Or, 0x01, 0x10, clear()), AluResult { value: 0x11, flags: clear() });
    assert_eq!(
        alu(AluOp::Cp, 0x01, 0x02, clear()),
        AluResult { value: 0x01, flags: Flags { z: false, n: true, h: true, c: true } }
    );
    assert_eq!(
        inc8(0x0F, Flags { c: true, ..clear() }),
        AluResult { value: 0x10, flags: Flags { z: false, n: false, h: true, c: true } }
    );
    assert_eq!(
        dec8(0x01, clear()),
        AluResult { value: 0x00, flags: Flags { z: true, n: true, h: false, c: false } }
    );
    assert_eq!(add16(0x8000, 0x8000, clear()).value, 0x0000);
    assert_eq!(add16(0x8000, 0x8000, clear()).flags, Flags { c: true, ..clear() });
    assert_eq!(add_offset(0x00FF, 0x01).value, 0x0100);
    assert_eq!(add_offset(0x00FF, 0x01).flags, Flags { h: true, c: true, ..clear() });
    assert_eq!(add_offset(0x0100, 0xFF).value, 0x00FF);
    assert_eq!(daa(0x3C, clear()).value, 0x42);
    assert_eq!(daa(0x9A, clear()).value, 0x00);
    assert_eq!(daa(0x9A, clear()).flags, Flags { z: true, c: true, ..clear() });
}

#[test]
fn rotations() {
    let carry = Flags { c: true, ..clear() };
    assert_eq!(rotate(RotOp::Rlc, 0x81, clear()).value, 0x03);
    assert_eq!(rotate(RotOp::Rlc, 0x81, clear()).flags, carry);
    assert_eq!(rotate(RotOp::Rrc, 0x01, clear()).value, 0x80);
    assert_eq!(rotate(RotOp::Rrc, 0x01, clear()).flags, carry);
    assert_eq!(rotate(RotOp::Rl, 0x80, carry).value, 0x01);
    assert_eq!(rotate(RotOp::Rl, 0x40, clear()).flags, clear());
    assert_eq!(rotate(RotOp::Rr, 0x01, clear()).value, 0x00);
    assert_eq!(rotate(RotOp::Rr, 0x01, clear()).flags, Flags { z: true, c: true, ..clear() });
    assert_eq!(rotate(RotOp::Rr, 0x02, carry).value, 0x81);
    assert_eq!(rotate(RotOp::Sla, 0xC1, clear()).value, 0x82);
    assert_eq!(rotate(RotOp::Sra, 0x81, clear()).value, 0xC0);
    assert_eq!(rotate(RotOp::Sra, 0x81, clear()).flags, carry);
    assert_eq!(rotate(RotOp::Swap, 0xA5, carry).value, 0x5A);
    assert_eq!(rotate(RotOp::Swap, 0xA5, carry).flags, clear());
    assert_eq!(rotate(RotOp::Srl, 0x81, clear()).value, 0x40);
    assert_eq!(rotate_a(RotOp::Rlc, 0x00, clear()).flags, clear());
    assert_eq!(rotate_a(RotOp::Rr, 0x01, clear()).value, 0x00);
    assert_eq!(rotate_a(RotOp::Rr, 0x01, clear()).flags, carry);
}

#[test]
fn base_table_rows() {
    assert_eq!(
        OpcodeTable::lookup_opcode(0x00),
        Some(Opcode {
            mnemonic: Mnemonic::Nop,
            operation: Operation::Nop,
            mode: None,
            operand_bytes: 0,
            cycles: 4,
            flags: NONE,
        })
    );
    assert_eq!(
        OpcodeTable::lookup_opcode(0x80),
        Some(Opcode {
            mnemonic: Mnemonic::Add,
            operation: Operation::Alu(AluOp::Add, Operand8::Reg(Register::B)),
            mode: None,
            operand_bytes: 0,
            cycles: 4,
            flags: FlagEffects {
                z: FlagEffect::Computed,
                n: FlagEffect::Clear,
                h: FlagEffect::Computed,
                c: FlagEffect::Computed,
            },
        })
    );
    assert_eq!(
        OpcodeTable::lookup_opcode(0xBE),
        Some(Opcode {
            mnemonic: Mnemonic::Cp,
            operation: Operation::Alu(AluOp::Cp, Operand8::HlIndirect),
            mode: None,
            operand_bytes: 0,
            cycles: 8,
            flags: FlagEffects {
                z: FlagEffect::Computed,
                n: FlagEffect::SetOn,
                h: FlagEffect::Computed,
                c: FlagEffect::Computed,
            },
        })
    );
    assert_eq!(
        OpcodeTable::lookup_opcode(0xCD),
        Some(Opcode {
            mnemonic: Mnemonic::Call,
            operation: Operation::Call(None),
            mode: Some(AddressingMode::A16),
            operand_bytes: 2,
            cycles: 24,
            flags: NONE,
        })
    );
    assert_eq!(
        OpcodeTable::lookup_opcode(0x20),
        Some(Opcode {
            mnemonic: Mnemonic::Jr,
            operation: Operation::Jr(Some(Condition::NZ)),
            mode: Some(AddressingMode::R8),
            operand_bytes: 1,
            cycles: 8,
            flags: NONE,
        })
    );
    assert_eq!(
        OpcodeTable::lookup_opcode(0xE8),
        Some(Opcode {
            mnemonic: Mnemonic::Add,
            operation: Operation::AddSpOffset,
            mode: Some(AddressingMode::R8),
            operand_bytes: 1,
            cycles: 16,
            flags: FlagEffects {
                z: FlagEffect::Clear,
                n: FlagEffect::Clear,
                h: FlagEffect::Computed,
                c: FlagEffect::Computed,
            },
        })
    );
}

#[test]
fn base_table_operations() {
    let expected: [(u8, Mnemonic, Operation); 26] = [
        (0x01, Mnemonic::Ld, Operation::Ld16Imm(Register16::BC)),
        (0x08, Mnemonic::Ld, Operation::LdAddrFromSp),
        (0x10, Mnemonic::Stop, Operation::Stop),
        (0x18, Mnemonic::Jr, Operation::Jr(None)),
        (0x22, Mnemonic::Ld, Operation::LdIndirectFromA(Indirect::HLInc)),
        (0x3A, Mnemonic::Ld, Operation::LdAFromIndirect(Indirect::HLDec)),
        (0x27, Mnemonic::Daa, Operation::Daa),
        (0x34, Mnemonic::Inc, Operation::Inc(Operand8::HlIndirect)),
        (0x36, Mnemonic::Ld, Operation::LdImm(Operand8::HlIndirect)),
        (0x39, Mnemonic::Add, Operation::AddHl(Register16::SP)),
        (0x3B, Mnemonic::Dec, Operation::Dec16(Register16::SP)),
        (0x41, Mnemonic::Ld, Operation::Ld(Operand8::Reg(Register::B), Operand8::Reg(Register::C))),
        (0x76, Mnemonic::Halt, Operation::Halt),
        (0x7E, Mnemonic::Ld, Operation::Ld(Operand8::Reg(Register::A), Operand8::HlIndirect)),
        (0x9F, Mnemonic::Sbc, Operation::Alu(AluOp::Sbc, Operand8::Reg(Register::A))),
        (0xC9, Mnemonic::Ret, Operation::Ret(None)),
        (0xD8, Mnemonic::Ret, Operation::Ret(Some(Condition::C))),
        (0xD9, Mnemonic::Reti, Operation::Reti),
        (0xE0, Mnemonic::Ldh, Operation::LdhImmFromA),
        (0xE2, Mnemonic::Ld, Operation::LdCFromA),
        (0xE9, Mnemonic::Jp, Operation::JpHl),
        (0xF1, Mnemonic::Pop, Operation::Pop(Register16::AF)),
        (0xF5, Mnemonic::Push, Operation::Push(Register16::AF)),
        (0xF8, Mnemonic::Ld, Operation::LdHlFromSpOffset),
        (0xFA, Mnemonic::Ld, Operation::LdAFromAddr),
        (0xFF, Mnemonic::Rst, Operation::Rst(0x38)),
    ];
    for (byte, mnemonic, operation) in expected {
        let entry = OpcodeTable::lookup_opcode(byte).unwrap();
        assert_eq!(entry.mnemonic, mnemonic);
        assert_eq!(entry.operation, operation);
        assert_eq!(entry.operand_bytes, operand_bytes(entry.mode));
    }
}

#[test]
fn base_table_gaps() {
    let gaps = [0xCBu8, 0xD3, 0xDB, 0xDD, 0xE3, 0xE4, 0xEB, 0xEC, 0xED, 0xF4, 0xFC, 0xFD];
    for byte in 0u8..=255 {
        assert_eq!(OpcodeTable::lookup_opcode(byte).is_none(), gaps.contains(&byte));
    }
}

#[test]
fn prefixed_table_rows() {
    assert_eq!(
        OpcodeTable::lookup_prefixed(0x37),
        Opcode {
            mnemonic: Mnemonic::Swap,
            operation: Operation::Rot(RotOp::Swap, Operand8::Reg(Register::A)),
            mode: None,
            operand_bytes: 0,
            cycles: 8,
            flags: FlagEffects {
                z: FlagEffect::Computed,
                n: FlagEffect::Clear,
                h: FlagEffect::Clear,
                c: FlagEffect::Clear,
            },
        }
    );
    assert_eq!(
        OpcodeTable::lookup_prefixed(0x7E),
        Opcode {
            mnemonic: Mnemonic::Bit,
            operation: Operation::Bit(7, Operand8::HlIndirect),
            mode: None,
            operand_bytes: 0,
            cycles: 12,
            flags: FlagEffects {
                z: FlagEffect::Computed,
                n: FlagEffect::Clear,
                h: FlagEffect::SetOn,
                c: FlagEffect::Unaffected,
            },
        }
    );
    assert_eq!(
        OpcodeTable::lookup_prefixed(0x86).operation,
        Operation::Res(0, Operand8::HlIndirect)
    );
    assert_eq!(OpcodeTable::lookup_prefixed(0x86).cycles, 16);
    assert_eq!(
        OpcodeTable::lookup_prefixed(0xFF).operation,
        Operation::SetBit(7, Operand8::Reg(Register::A))
    );
    assert_eq!(OpcodeTable::lookup_prefixed(0xFF).mnemonic, Mnemonic::SetBit);
    assert_eq!(OpcodeTable::lookup_prefixed(0xFF).flags, NONE);
    assert_eq!(
        OpcodeTable::lookup_prefixed(0x19).operation,
        Operation::Rot(RotOp::Rr, Operand8::Reg(Register::C))
    );
}

#[test]
fn operation_classes() {
    assert_eq!(Operation::Ld(Operand8::HlIndirect, Operand8::Reg(Register::A)).class(), Class::Load);
    assert_eq!(Operation::Pop(Register16::BC).class(), Class::Load16);
    assert_eq!(Operation::Daa.class(), Class::Arithmetic);
    assert_eq!(Operation::AddSpOffset.class(), Class::Arithmetic16);
    assert_eq!(Operation::Halt.class(), Class::Control);
    assert_eq!(Operation::Bit(1, Operand8::HlIndirect).class(), Class::Bits);
}

fn respected(effect: FlagEffect, before: bool, after: bool) -> bool {
    match effect {
        FlagEffect::SetOn => after,
        FlagEffect::Clear => !after,
        FlagEffect::Computed => true,
        FlagEffect::Unaffected => after == before,
    }
}

/// Runs `entry` on a fixed state with the flags `before` and checks each
/// flag against the entry.
fn check_entry(entry: Opcode, before: Flags) {
    let mut image = vec![0u8; 0x0100];
    image.extend_from_slice(&[0x80, 0x40]);
    let mut rom = Rom::new();
    rom.load_rom(&image);
    let mut bus = Bus::new(rom);
    bus.write(0xC123, 0x8F);
    bus.write(0xC456, 0x01);
    let mut cpu = Cpu::new();
    cpu.set_register16(Register16::BC, 0xC456);
    cpu.set_register16(Register16::DE, 0xC456);
    cpu.set_register16(Register16::HL, 0xC123);
    cpu.set_register16(Register16::SP, 0xD000);
    cpu.push_stack(0x12F0);
    cpu.set_register(Register::A, 0x9A);
    cpu.set_flags(before);
    cpu.run(&mut bus, entry);
    let after = cpu.flags();
    assert!(respected(entry.flags.z, before.z, after.z), "{:?} Z", entry);
    assert!(respected(entry.flags.n, before.n, after.n), "{:?} N", entry);
    assert!(respected(entry.flags.h, before.h, after.h), "{:?} H", entry);
    assert!(respected(entry.flags.c, before.c, after.c), "{:?} C", entry);
}

#[test]
fn every_opcode_respects_its_flag_effects() {
    for bits in 0u8..16 {
        let before = Flags {
            z: bits & 8 != 0,
            n: bits & 4 != 0,
            h: bits & 2 != 0,
            c: bits & 1 != 0,
        };
        for byte in 0u8..=255 {
            if let Some(entry) = OpcodeTable::lookup_opcode(byte) {
                check_entry(entry, before);
            }
            check_entry(OpcodeTable::lookup_prefixed(byte), before);
        }
    }
}

#[test]
fn register_file() {
    let mut regs = RegisterFile::new();
    assert_eq!(regs.get16(Register16::PC), 0x0100);
    regs.set8(Register::H, 0x12);
    regs.set8(Register::L, 0x34);
    assert_eq!(regs.get16(Register16::HL), 0x1234);
    regs.set16(Register16::DE, 0xABCD);
    assert_eq!(regs.get8(Register::D), 0xAB);
    assert_eq!(regs.get8(Register::E), 0xCD);
    assert_eq!(regs.get16(Register16::HL), 0x1234);
    regs.set8(Register::F, 0x1F);
    assert_eq!(regs.get8(Register::F), 0x10);
    assert!(regs.get_flag(Flag::C));
    regs.set_flag(Flag::Z, true);
    regs.set_flag(Flag::C, false);
    assert_eq!(regs.get8(Register::F), 0x80);
    assert_eq!(regs.flags(), Flags { z: true, n: false, h: false, c: false });
    regs.set_flags(Flags { z: false, n: true, h: true, c: false });
    assert_eq!(regs.get16(Register16::AF), 0x0060);
    assert_eq!(Flag::H.mask(), 0x20);
    assert_eq!(Flags::of_byte(0xFF), Flags { z: true, n: true, h: true, c: true });
    assert_eq!(Flags { z: true, n: false, h: true, c: false }.to_byte(), 0xA0);
}

#[test]
fn disassembler_lists_instructions() {
    let mut image = vec![0u8; 0x0100];
    image.extend_from_slice(&[0x00, 0x3E, 0x42, 0xC3, 0x50, 0x01, 0xCB, 0x37, 0xFC, 0x76]);
    let mut rom = Rom::new();
    rom.load_rom(&image);
    let mut d = Disassembler::new();
    assert_eq!(d.position(), 0x0100);
    let lines = d.decode_rom(&rom);
    assert_eq!(lines.len(), 32);
    assert_eq!(
        lines[0],
        Line { address: 0x0100, opcode: 0x00, mnemonic: Some(Mnemonic::Nop), operands: vec![] }
    );
    assert_eq!(
        lines[1],
        Line { address: 0x0101, opcode: 0x3E, mnemonic: Some(Mnemonic::Ld), operands: vec![0x42] }
    );
    assert_eq!(
        lines[2],
        Line {
            address: 0x0103,
            opcode: 0xC3,
            mnemonic: Some(Mnemonic::Jp),
            operands: vec![0x50, 0x01],
        }
    );
    assert_eq!(
        lines[3],
        Line {
            address: 0x0106,
            opcode: 0xCB,
            mnemonic: Some(Mnemonic::Swap),
            operands: vec![0x37],
        }
    );
    assert_eq!(lines[4], Line { address: 0x0108, opcode: 0xFC, mnemonic: None, operands: vec![] });
    assert_eq!(
        lines[5],
        Line { address: 0x0109, opcode: 0x76, mnemonic: Some(Mnemonic::Halt), operands: vec![] }
    );
    assert_eq!(lines[31].address, 0x0123);
    assert_eq!(d.position(), 0x0124);
    let line = d.read_instruction(&rom);
    assert_eq!(line.address, 0x0124);
    assert_eq!(d.position(), 0x0125);
}

#[test]
fn gameboy_steps_its_processor() {
    let mut image = vec![0u8; 0x0100];
    image.extend_from_slice(&[0x3E, 0x07, 0xEA, 0x00, 0xC0, 0x76]);
    let mut rom = Rom::new();
    rom.load_rom(&image);
    let mut gb = Gameboy::new(rom);
    assert_eq!(gb.get_rom().read(0x0100), 0x3E);
    assert_eq!(gb.cycle(), Ok(()));
    assert_eq!(gb.cpu().get_register(Register::A), 0x07);
    assert_eq!(gb.cycle(), Ok(()));
    assert_eq!(gb.bus().read(0xC000), 0x07);
    assert_eq!(gb.cycle(), Ok(()));
    assert_eq!(gb.cpu().get_register16(Register16::PC), 0x0106);
    assert_eq!(gb.cycle(), Ok(()));
    assert_eq!(gb.cpu().get_register16(Register16::PC), 0x0106);
    gb.wake();
    assert_eq!(gb.cycle(), Ok(()));
    assert_eq!(gb.cpu().get_register16(Register16::PC), 0x0107);
}

#[test]
fn ppu_cycle_leaves_the_bus() {
    let _ppu = Ppu::new();
    let mut bus = Bus::new(Rom::new());
    bus.write(0x8000, 0x33);
    Ppu::cycle(&mut bus);
    assert_eq!(bus.read(0x8000), 0x33);
    assert!(bus.warnings().is_empty());
}
