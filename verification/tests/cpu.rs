use gameboy_emulator::bus::{Bus, BusWarning, BusWarningKind};
use gameboy_emulator::cpu::registers::{Flag, Flags, Register, Register16};
use gameboy_emulator::cpu::{Cpu, DecodeError, ExecutorState};
use gameboy_emulator::memory::rom::Rom;

/// A bus whose cartridge holds `program` at the entry point.
fn bus_with(program: &[u8]) -> Bus {
    let mut image = vec![0u8; 0x0100];
    image.extend_from_slice(program);
    let mut rom = Rom::new();
    rom.load_rom(&image);
    Bus::new(rom)
}

fn flags_of(cpu: &Cpu) -> (bool, bool, bool, bool) {
    (
        cpu.get_flag(Flag::Z),
        cpu.get_flag(Flag::N),
        cpu.get_flag(Flag::H),
        cpu.get_flag(Flag::C),
    )
}

#[test]
fn reset_state() {
    let cpu = Cpu::new();
    assert_eq!(cpu.get_register16(Register16::PC), 0x0100);
    assert_eq!(cpu.get_register16(Register16::SP), 0);
    assert_eq!(cpu.get_register16(Register16::AF), 0);
    assert_eq!(cpu.state(), ExecutorState::Running);
}

#[test]
fn halves_of_a_pair_are_independent() {
    let mut cpu = Cpu::new();
    cpu.set_register16(Register16::BC, 0x1234);
    cpu.set_register16(Register16::DE, 0x5678);
    cpu.set_register(Register::B, 0xAB);
    assert_eq!(cpu.get_register16(Register16::BC), 0xAB34);
    cpu.set_register(Register::C, 0xCD);
    assert_eq!(cpu.get_register16(Register16::BC), 0xABCD);
    cpu.set_register(Register::E, 0x01);
    assert_eq!(cpu.get_register16(Register16::DE), 0x5601);
    assert_eq!(cpu.get_register16(Register16::BC), 0xABCD);
    assert_eq!(cpu.get_register(Register::D), 0x56);
    cpu.set_register(Register::L, 0x99);
    cpu.set_register(Register::H, 0x11);
    assert_eq!(cpu.get_register16(Register16::HL), 0x1199);
    assert_eq!(cpu.get_register16(Register16::DE), 0x5601);
}

#[test]
fn low_nibble_of_f_is_masked() {
    let mut cpu = Cpu::new();
    cpu.set_register(Register::A, 0x42);
    cpu.set_register(Register::F, 0xFF);
    assert_eq!(cpu.get_register(Register::F), 0xF0);
    assert_eq!(cpu.get_register(Register::A), 0x42);
    cpu.set_register16(Register16::AF, 0x12AB);
    assert_eq!(cpu.get_register16(Register16::AF), 0x12A0);
    assert_eq!(flags_of(&cpu), (true, false, true, false));
}

#[test]
fn flags_are_bits_of_f() {
    let mut cpu = Cpu::new();
    cpu.set_flag(Flag::Z);
    assert_eq!(cpu.get_register(Register::F), 0x80);
    cpu.set_flag(Flag::C);
    assert_eq!(cpu.get_register(Register::F), 0x90);
    cpu.set_flag(Flag::N);
    cpu.set_flag(Flag::H);
    assert_eq!(cpu.get_register(Register::F), 0xF0);
    cpu.unset_flag(Flag::Z);
    assert_eq!(cpu.get_register(Register::F), 0x70);
    assert!(!cpu.get_flag(Flag::Z));
    assert!(cpu.get_flag(Flag::N));
    cpu.set_flags(Flags { z: true, n: false, h: false, c: true });
    assert_eq!(cpu.get_register(Register::F), 0x90);
    assert_eq!(cpu.flags(), Flags { z: true, n: false, h: false, c: true });
}

#[test]
fn push_then_pop_round_trip() {
    for &sp in &[0xFFFEu16, 0x0000, 0x0001, 0x8000] {
        for &x in &[0x0000u16, 0x1234, 0xFFFF, 0x00FF, 0xFF00] {
            let mut cpu = Cpu::new();
            cpu.set_register16(Register16::SP, sp);
            cpu.push_stack(x);
            assert_eq!(cpu.get_register16(Register16::SP), sp.wrapping_sub(2));
            assert_eq!(cpu.pop_stack(), x);
            assert_eq!(cpu.get_register16(Register16::SP), sp);
        }
    }
}

#[test]
fn pushes_pop_in_reverse() {
    let mut cpu = Cpu::new();
    cpu.set_register16(Register16::SP, 0xD000);
    cpu.push_stack(0x1122);
    cpu.push_stack(0x3344);
    assert_eq!(cpu.pop_stack(), 0x3344);
    assert_eq!(cpu.pop_stack(), 0x1122);
}

#[test]
fn jr_minus_two_loops_on_itself() {
    let mut bus = bus_with(&[0x18, 0xFE]);
    let mut cpu = Cpu::new();
    assert_eq!(cpu.cycle(&mut bus), Ok(()));
    assert_eq!(cpu.get_register16(Register16::PC), 0x0100);
    assert_eq!(cpu.cycle(&mut bus), Ok(()));
    assert_eq!(cpu.get_register16(Register16::PC), 0x0100);
}

#[test]
fn jr_forward() {
    let mut bus = bus_with(&[0x18, 0x05]);
    let mut cpu = Cpu::new();
    assert_eq!(cpu.cycle(&mut bus), Ok(()));
    assert_eq!(cpu.get_register16(Register16::PC), 0x0107);
}

#[test]
fn conditional_jump_always_consumes_its_operand() {
    // JR NZ,+5 with Z set; JP C,0x2000 with C clear; CALL Z with Z clear.
    let mut bus = bus_with(&[0x20, 0x05, 0xDA, 0x00, 0x20]);
    let mut cpu = Cpu::new();
    cpu.set_flag(Flag::Z);
    assert_eq!(cpu.cycle(&mut bus), Ok(()));
    assert_eq!(cpu.get_register16(Register16::PC), 0x0102);
    assert_eq!(cpu.cycle(&mut bus), Ok(()));
    assert_eq!(cpu.get_register16(Register16::PC), 0x0105);

    let mut bus = bus_with(&[0xCC, 0x34, 0x12]);
    let mut cpu = Cpu::new();
    cpu.set_register16(Register16::SP, 0xFFFE);
    assert_eq!(cpu.cycle(&mut bus), Ok(()));
    assert_eq!(cpu.get_register16(Register16::PC), 0x0103);
    assert_eq!(cpu.get_register16(Register16::SP), 0xFFFE);
}

#[test]
fn conditional_jump_taken() {
    let mut bus = bus_with(&[0x28, 0x05]);
    let mut cpu = Cpu::new();
    cpu.set_flag(Flag::Z);
    assert_eq!(cpu.cycle(&mut bus), Ok(()));
    assert_eq!(cpu.get_register16(Register16::PC), 0x0107);

    let mut bus = bus_with(&[0xD2, 0x00, 0x20]);
    let mut cpu = Cpu::new();
    assert_eq!(cpu.cycle(&mut bus), Ok(()));
    assert_eq!(cpu.get_register16(Register16::PC), 0x2000);
}

#[test]
fn add_a_b_half_carry() {
    let mut bus = bus_with(&[0x80]);
    let mut cpu = Cpu::new();
    cpu.set_register(Register::A, 0x0F);
    cpu.set_register(Register::B, 0x01);
    assert_eq!(cpu.cycle(&mut bus), Ok(()));
    assert_eq!(cpu.get_register(Register::A), 0x10);
    assert_eq!(flags_of(&cpu), (false, false, true, false));
}

#[test]
fn add_a_b_carry_and_zero() {
    let mut bus = bus_with(&[0x80]);
    let mut cpu = Cpu::new();
    cpu.set_register(Register::A, 0xFF);
    cpu.set_register(Register::B, 0x01);
    assert_eq!(cpu.cycle(&mut bus), Ok(()));
    assert_eq!(cpu.get_register(Register::A), 0x00);
    assert_eq!(flags_of(&cpu), (true, false, true, true));
}

#[test]
fn sub_borrows() {
    // SUB B with A=0x10, B=0x01: half borrow, no borrow.
    let mut bus = bus_with(&[0x90, 0x90]);
    let mut cpu = Cpu::new();
    cpu.set_register(Register::A, 0x10);
    cpu.set_register(Register::B, 0x01);
    assert_eq!(cpu.cycle(&mut bus), Ok(()));
    assert_eq!(cpu.get_register(Register::A), 0x0F);
    assert_eq!(flags_of(&cpu), (false, true, true, false));
    // SUB B with A=0x00, B=0x01: both borrows.
    cpu.set_register(Register::A, 0x00);
    assert_eq!(cpu.cycle(&mut bus), Ok(()));
    assert_eq!(cpu.get_register(Register::A), 0xFF);
    assert_eq!(flags_of(&cpu), (false, true, true, true));
}

#[test]
fn cp_keeps_the_accumulator() {
    let mut bus = bus_with(&[0xFE, 0x42]);
    let mut cpu = Cpu::new();
    cpu.set_register(Register::A, 0x42);
    assert_eq!(cpu.cycle(&mut bus), Ok(()));
    assert_eq!(cpu.get_register(Register::A), 0x42);
    assert_eq!(flags_of(&cpu), (true, true, false, false));
    assert_eq!(cpu.get_register16(Register16::PC), 0x0102);
}

#[test]
fn adc_and_sbc_use_the_carry() {
    let mut bus = bus_with(&[0xCE, 0x0F, 0xDE, 0x01]);
    let mut cpu = Cpu::new();
    cpu.set_register(Register::A, 0x00);
    cpu.set_flag(Flag::C);
    assert_eq!(cpu.cycle(&mut bus), Ok(()));
    assert_eq!(cpu.get_register(Register::A), 0x10);
    assert_eq!(flags_of(&cpu), (false, false, true, false));
    cpu.set_flag(Flag::C);
    assert_eq!(cpu.cycle(&mut bus), Ok(()));
    assert_eq!(cpu.get_register(Register::A), 0x0E);
    assert_eq!(flags_of(&cpu), (false, true, true, false));
}

#[test]
fn logic_operations() {
    let mut bus = bus_with(&[0xA0, 0xA8, 0xB0, 0xAF]);
    let mut cpu = Cpu::new();
    cpu.set_register(Register::A, 0xF0);
    cpu.set_register(Register::B, 0x3C);
    cpu.set_flag(Flag::C);
    assert_eq!(cpu.cycle(&mut bus), Ok(()));
    assert_eq!(cpu.get_register(Register::A), 0x30);
    assert_eq!(flags_of(&cpu), (false, false, true, false));
    assert_eq!(cpu.cycle(&mut bus), Ok(()));
    assert_eq!(cpu.get_register(Register::A), 0x0C);
    assert_eq!(flags_of(&cpu), (false, false, false, false));
    assert_eq!(cpu.cycle(&mut bus), Ok(()));
    assert_eq!(cpu.get_register(Register::A), 0x3C);
    assert_eq!(cpu.cycle(&mut bus), Ok(()));
    assert_eq!(cpu.get_register(Register::A), 0x00);
    assert_eq!(flags_of(&cpu), (true, false, false, false));
}

#[test]
fn inc_and_dec_leave_the_carry() {
    let mut bus = bus_with(&[0x04, 0x05, 0x05]);
    let mut cpu = Cpu::new();
    cpu.set_register(Register::B, 0xFF);
    cpu.set_flag(Flag::C);
    assert_eq!(cpu.cycle(&mut bus), Ok(()));
    assert_eq!(cpu.get_register(Register::B), 0x00);
    assert_eq!(flags_of(&cpu), (true, false, true, true));
    assert_eq!(cpu.cycle(&mut bus), Ok(()));
    assert_eq!(cpu.get_register(Register::B), 0xFF);
    assert_eq!(flags_of(&cpu), (false, true, true, true));
    assert_eq!(cpu.cycle(&mut bus), Ok(()));
    assert_eq!(cpu.get_register(Register::B), 0xFE);
    assert_eq!(flags_of(&cpu), (false, true, false, true));
}

#[test]
fn add_hl_uses_bits_11_and_15() {
    let mut bus = bus_with(&[0x09, 0x09]);
    let mut cpu = Cpu::new();
    cpu.set_register16(Register16::HL, 0x0FFF);
    cpu.set_register16(Register16::BC, 0x0001);
    cpu.set_flag(Flag::Z);
    assert_eq!(cpu.cycle(&mut bus), Ok(()));
    assert_eq!(cpu.get_register16(Register16::HL), 0x1000);
    assert_eq!(flags_of(&cpu), (true, false, true, false));
    cpu.set_register16(Register16::HL, 0xFFFF);
    assert_eq!(cpu.cycle(&mut bus), Ok(()));
    assert_eq!(cpu.get_register16(Register16::HL), 0x0000);
    assert_eq!(flags_of(&cpu), (true, false, true, true));
}

#[test]
fn add_sp_signed_offset() {
    let mut bus = bus_with(&[0xE8, 0xFF, 0xF8, 0x02]);
    let mut cpu = Cpu::new();
    cpu.set_register16(Register16::SP, 0x1000);
    cpu.set_flag(Flag::Z);
    assert_eq!(cpu.cycle(&mut bus), Ok(()));
    assert_eq!(cpu.get_register16(Register16::SP), 0x0FFF);
    assert_eq!(flags_of(&cpu), (false, false, false, false));
    assert_eq!(cpu.cycle(&mut bus), Ok(()));
    assert_eq!(cpu.get_register16(Register16::HL), 0x1001);
    assert_eq!(cpu.get_register16(Register16::SP), 0x0FFF);
    assert_eq!(flags_of(&cpu), (false, false, true, true));
}

#[test]
fn sixteen_bit_inc_dec_wrap() {
    let mut bus = bus_with(&[0x03, 0x1B, 0x33]);
    let mut cpu = Cpu::new();
    cpu.set_register16(Register16::BC, 0xFFFF);
    cpu.set_register16(Register16::SP, 0x00FF);
    assert_eq!(cpu.cycle(&mut bus), Ok(()));
    assert_eq!(cpu.get_register16(Register16::BC), 0x0000);
    assert_eq!(cpu.cycle(&mut bus), Ok(()));
    assert_eq!(cpu.get_register16(Register16::DE), 0xFFFF);
    assert_eq!(cpu.cycle(&mut bus), Ok(()));
    assert_eq!(cpu.get_register16(Register16::SP), 0x0100);
    assert_eq!(flags_of(&cpu), (false, false, false, false));
}

#[test]
fn call_then_ret() {
    let mut image = vec![0u8; 0x1235];
    image[0x0100] = 0xCD;
    image[0x0101] = 0x34;
    image[0x0102] = 0x12;
    image[0x1234] = 0xC9;
    let mut rom = Rom::new();
    rom.load_rom(&image);
    let mut bus = Bus::new(rom);
    let mut cpu = Cpu::new();
    cpu.set_register16(Register16::SP, 0xFFFE);
    assert_eq!(cpu.cycle(&mut bus), Ok(()));
    assert_eq!(cpu.get_register16(Register16::PC), 0x1234);
    assert_eq!(cpu.get_register16(Register16::SP), 0xFFFC);
    assert_eq!(cpu.cycle(&mut bus), Ok(()));
    assert_eq!(cpu.get_register16(Register16::PC), 0x0103);
    assert_eq!(cpu.get_register16(Register16::SP), 0xFFFE);
}

#[test]
fn call_pushes_the_address_behind_it() {
    let mut bus = bus_with(&[0xCD, 0x34, 0x12]);
    let mut cpu = Cpu::new();
    cpu.set_register16(Register16::SP, 0xFFFE);
    assert_eq!(cpu.cycle(&mut bus), Ok(()));
    assert_eq!(cpu.pop_stack(), 0x0103);
}

#[test]
fn rst_calls_a_fixed_address() {
    let mut bus = bus_with(&[0xEF]);
    let mut cpu = Cpu::new();
    cpu.set_register16(Register16::SP, 0xFFFE);
    assert_eq!(cpu.cycle(&mut bus), Ok(()));
    assert_eq!(cpu.get_register16(Register16::PC), 0x0028);
    assert_eq!(cpu.pop_stack(), 0x0101);
}

#[test]
fn push_and_pop_pairs() {
    let mut bus = bus_with(&[0xC5, 0xF1, 0xD5, 0xE1]);
    let mut cpu = Cpu::new();
    cpu.set_register16(Register16::SP, 0xD000);
    cpu.set_register16(Register16::BC, 0x12FF);
    cpu.set_register16(Register16::DE, 0xBEEF);
    assert_eq!(cpu.cycle(&mut bus), Ok(()));
    assert_eq!(cpu.cycle(&mut bus), Ok(()));
    assert_eq!(cpu.get_register16(Register16::AF), 0x12F0);
    assert_eq!(cpu.cycle(&mut bus), Ok(()));
    assert_eq!(cpu.cycle(&mut bus), Ok(()));
    assert_eq!(cpu.get_register16(Register16::HL), 0xBEEF);
    assert_eq!(cpu.get_register16(Register16::SP), 0xD000);
}

#[test]
fn halt_stops_until_woken() {
    let mut bus = bus_with(&[0x76, 0x04]);
    let mut cpu = Cpu::new();
    assert_eq!(cpu.cycle(&mut bus), Ok(()));
    assert_eq!(cpu.state(), ExecutorState::Halted);
    assert_eq!(cpu.get_register16(Register16::PC), 0x0101);
    for _ in 0..3 {
        assert_eq!(cpu.cycle(&mut bus), Ok(()));
        assert_eq!(cpu.state(), ExecutorState::Halted);
        assert_eq!(cpu.get_register16(Register16::PC), 0x0101);
        assert_eq!(cpu.get_register(Register::B), 0);
    }
    cpu.wake();
    assert_eq!(cpu.state(), ExecutorState::Running);
    assert_eq!(cpu.cycle(&mut bus), Ok(()));
    assert_eq!(cpu.get_register(Register::B), 1);
    assert_eq!(cpu.get_register16(Register16::PC), 0x0102);
}

#[test]
fn stopped_is_terminal() {
    let mut bus = bus_with(&[0x04]);
    let mut cpu = Cpu::new();
    cpu.stop();
    assert_eq!(cpu.state(), ExecutorState::Stopped);
    cpu.wake();
    assert_eq!(cpu.state(), ExecutorState::Stopped);
    assert_eq!(cpu.cycle(&mut bus), Ok(()));
    assert_eq!(cpu.get_register(Register::B), 0);
    assert_eq!(cpu.get_register16(Register16::PC), 0x0100);
}

#[test]
fn undefined_opcode_is_reported() {
    for &opcode in &[0xD3u8, 0xDB, 0xDD, 0xE3, 0xE4, 0xEB, 0xEC, 0xED, 0xF4, 0xFC, 0xFD] {
        let mut bus = bus_with(&[opcode]);
        let mut cpu = Cpu::new();
        cpu.set_register(Register::A, 0x55);
        assert_eq!(cpu.cycle(&mut bus), Err(DecodeError { opcode, address: 0x0100 }));
        assert_eq!(cpu.get_register16(Register16::PC), 0x0101);
        assert_eq!(cpu.get_register(Register::A), 0x55);
        assert_eq!(cpu.state(), ExecutorState::Running);
    }
}

#[test]
fn execute_instruction_takes_a_fetched_opcode() {
    let mut bus = bus_with(&[0x00, 0x42]);
    let mut cpu = Cpu::new();
    cpu.set_register16(Register16::PC, 0x0101);
    // LD A,d8 whose opcode was fetched from 0x0100.
    assert_eq!(cpu.execute_instruction(0x3E, &mut bus), Ok(()));
    assert_eq!(cpu.get_register(Register::A), 0x42);
    assert_eq!(cpu.get_register16(Register16::PC), 0x0102);
    assert_eq!(
        cpu.execute_instruction(0xFC, &mut bus),
        Err(DecodeError { opcode: 0xFC, address: 0x0101 })
    );
}

#[test]
fn loads_through_memory() {
    // LD HL,0xC000; LD (HL),0x5A; LD B,(HL); LD A,(HL+); LD (HL-),A; LD (0x8001),A; LD A,(0xC000)
    let mut bus = bus_with(&[
        0x21, 0x00, 0xC0, 0x36, 0x5A, 0x46, 0x2A, 0x32, 0xEA, 0x01, 0x80, 0xFA, 0x00, 0xC0,
    ]);
    let mut cpu = Cpu::new();
    for _ in 0..3 {
        assert_eq!(cpu.cycle(&mut bus), Ok(()));
    }
    assert_eq!(bus.read(0xC000), 0x5A);
    assert_eq!(cpu.get_register(Register::B), 0x5A);
    assert_eq!(cpu.cycle(&mut bus), Ok(()));
    assert_eq!(cpu.get_register(Register::A), 0x5A);
    assert_eq!(cpu.get_register16(Register16::HL), 0xC001);
    assert_eq!(cpu.cycle(&mut bus), Ok(()));
    assert_eq!(bus.read(0xC001), 0x5A);
    assert_eq!(cpu.get_register16(Register16::HL), 0xC000);
    assert_eq!(cpu.cycle(&mut bus), Ok(()));
    assert_eq!(bus.read(0x8001), 0x5A);
    cpu.set_register(Register::A, 0);
    assert_eq!(cpu.cycle(&mut bus), Ok(()));
    assert_eq!(cpu.get_register(Register::A), 0x5A);
    assert_eq!(cpu.get_register16(Register16::PC), 0x010E);
    assert!(bus.warnings().is_empty());
}

#[test]
fn store_to_rom_is_dropped_and_recorded() {
    // LD (0x0005),A ; LDH (0x80),A
    let mut bus = bus_with(&[0xEA, 0x05, 0x00, 0xE0, 0x80]);
    let mut cpu = Cpu::new();
    cpu.set_register(Register::A, 0x77);
    assert_eq!(cpu.cycle(&mut bus), Ok(()));
    assert_eq!(bus.read(0x0005), 0x00);
    assert_eq!(cpu.cycle(&mut bus), Ok(()));
    assert_eq!(bus.read(0xFF80), 0xFF);
    assert_eq!(
        bus.warnings().as_slice(),
        &[
            BusWarning { address: 0x0005, kind: BusWarningKind::WriteToReadOnly },
            BusWarning { address: 0xFF80, kind: BusWarningKind::WriteUnmapped },
        ]
    );
}

#[test]
fn ld_a16_sp_stores_low_byte_first() {
    let mut bus = bus_with(&[0x08, 0x10, 0xC0]);
    let mut cpu = Cpu::new();
    cpu.set_register16(Register16::SP, 0xBEEF);
    assert_eq!(cpu.cycle(&mut bus), Ok(()));
    assert_eq!(bus.read(0xC010), 0xEF);
    assert_eq!(bus.read(0xC011), 0xBE);
}

#[test]
fn rotations_of_the_accumulator() {
    let mut bus = bus_with(&[0x07, 0x17, 0x0F, 0x1F]);
    let mut cpu = Cpu::new();
    cpu.set_register(Register::A, 0x80);
    cpu.set_flag(Flag::Z);
    assert_eq!(cpu.cycle(&mut bus), Ok(()));
    assert_eq!(cpu.get_register(Register::A), 0x01);
    assert_eq!(flags_of(&cpu), (false, false, false, true));
    assert_eq!(cpu.cycle(&mut bus), Ok(()));
    assert_eq!(cpu.get_register(Register::A), 0x03);
    assert_eq!(flags_of(&cpu), (false, false, false, false));
    assert_eq!(cpu.cycle(&mut bus), Ok(()));
    assert_eq!(cpu.get_register(Register::A), 0x81);
    assert_eq!(flags_of(&cpu), (false, false, false, true));
    assert_eq!(cpu.cycle(&mut bus), Ok(()));
    assert_eq!(cpu.get_register(Register::A), 0xC0);
    assert_eq!(flags_of(&cpu), (false, false, false, true));
}

#[test]
fn prefixed_operations() {
    // SWAP A; BIT 7,A; RES 0,A; SET 3,B; SRL A; SLA B; RL (HL)
    let mut bus = bus_with(&[
        0xCB, 0x37, 0xCB, 0x7F, 0xCB, 0x87, 0xCB, 0xD8, 0xCB, 0x3F, 0xCB, 0x20, 0xCB, 0x16,
    ]);
    let mut cpu = Cpu::new();
    cpu.set_register(Register::A, 0x1F);
    cpu.set_flag(Flag::C);
    assert_eq!(cpu.cycle(&mut bus), Ok(()));
    assert_eq!(cpu.get_register(Register::A), 0xF1);
    assert_eq!(flags_of(&cpu), (false, false, false, false));
    assert_eq!(cpu.get_register16(Register16::PC), 0x0102);
    assert_eq!(cpu.cycle(&mut bus), Ok(()));
    assert_eq!(flags_of(&cpu), (false, false, true, false));
    assert_eq!(cpu.cycle(&mut bus), Ok(()));
    assert_eq!(cpu.get_register(Register::A), 0xF0);
    assert_eq!(cpu.cycle(&mut bus), Ok(()));
    assert_eq!(cpu.get_register(Register::B), 0x08);
    assert_eq!(cpu.cycle(&mut bus), Ok(()));
    assert_eq!(cpu.get_register(Register::A), 0x78);
    assert_eq!(flags_of(&cpu), (false, false, false, false));
    cpu.set_register(Register::B, 0x80);
    assert_eq!(cpu.cycle(&mut bus), Ok(()));
    assert_eq!(cpu.get_register(Register::B), 0x00);
    assert_eq!(flags_of(&cpu), (true, false, false, true));
    cpu.set_register16(Register16::HL, 0xC100);
    bus.write(0xC100, 0x40);
    assert_eq!(cpu.cycle(&mut bus), Ok(()));
    assert_eq!(bus.read(0xC100), 0x81);
    assert_eq!(flags_of(&cpu), (false, false, false, false));
    assert_eq!(cpu.get_register16(Register16::PC), 0x010E);
}

#[test]
fn decimal_adjust() {
    // 0x15 + 0x27 = 0x3C, adjusted to 0x42.
    let mut bus = bus_with(&[0x80, 0x27, 0x90, 0x27]);
    let mut cpu = Cpu::new();
    cpu.set_register(Register::A, 0x15);
    cpu.set_register(Register::B, 0x27);
    assert_eq!(cpu.cycle(&mut bus), Ok(()));
    assert_eq!(cpu.cycle(&mut bus), Ok(()));
    assert_eq!(cpu.get_register(Register::A), 0x42);
    assert_eq!(flags_of(&cpu), (false, false, false, false));
    // 0x42 - 0x27 = 0x1B, adjusted to 0x15.
    assert_eq!(cpu.cycle(&mut bus), Ok(()));
    assert_eq!(cpu.cycle(&mut bus), Ok(()));
    assert_eq!(cpu.get_register(Register::A), 0x15);
    assert_eq!(flags_of(&cpu), (false, true, false, false));
}

#[test]
fn complement_and_carry_flag() {
    let mut bus = bus_with(&[0x2F, 0x37, 0x3F, 0x3F]);
    let mut cpu = Cpu::new();
    cpu.set_register(Register::A, 0x35);
    cpu.set_flag(Flag::Z);
    assert_eq!(cpu.cycle(&mut bus), Ok(()));
    assert_eq!(cpu.get_register(Register::A), 0xCA);
    assert_eq!(flags_of(&cpu), (true, true, true, false));
    assert_eq!(cpu.cycle(&mut bus), Ok(()));
    assert_eq!(flags_of(&cpu), (true, false, false, true));
    assert_eq!(cpu.cycle(&mut bus), Ok(()));
    assert_eq!(flags_of(&cpu), (true, false, false, false));
    assert_eq!(cpu.cycle(&mut bus), Ok(()));
    assert_eq!(flags_of(&cpu), (true, false, false, true));
}

#[test]
fn stop_and_interrupt_switches_change_nothing() {
    let mut bus = bus_with(&[0x10, 0x00, 0xF3, 0xFB, 0x00]);
    let mut cpu = Cpu::new();
    cpu.set_register16(Register16::AF, 0x12F0);
    for pc in [0x0102u16, 0x0103, 0x0104, 0x0105] {
        assert_eq!(cpu.cycle(&mut bus), Ok(()));
        assert_eq!(cpu.get_register16(Register16::PC), pc);
        assert_eq!(cpu.get_register16(Register16::AF), 0x12F0);
        assert_eq!(cpu.state(), ExecutorState::Running);
    }
}

#[test]
fn jp_hl_and_ld_sp_hl() {
    let mut bus = bus_with(&[0xF9, 0xE9]);
    let mut cpu = Cpu::new();
    cpu.set_register16(Register16::HL, 0x2345);
    assert_eq!(cpu.cycle(&mut bus), Ok(()));
    assert_eq!(cpu.get_register16(Register16::SP), 0x2345);
    assert_eq!(cpu.cycle(&mut bus), Ok(()));
    assert_eq!(cpu.get_register16(Register16::PC), 0x2345);
}

#[test]
fn fetches() {
    let bus = bus_with(&[0x34, 0x12, 0x56]);
    let mut cpu = Cpu::new();
    assert_eq!(
        cpu.fetch_data(&bus, gameboy_emulator::cpu::opcodes::AddressingMode::D16),
        0x1234
    );
    assert_eq!(cpu.get_register16(Register16::PC), 0x0102);
    assert_eq!(
        cpu.fetch_data(&bus, gameboy_emulator::cpu::opcodes::AddressingMode::R8),
        0x0056
    );
    assert_eq!(cpu.get_register16(Register16::PC), 0x0103);
    assert_eq!(cpu.fetch_byte(&bus), 0x00);
    cpu.set_register16(Register16::PC, 0xFFFF);
    cpu.increment_pc();
    assert_eq!(cpu.get_register16(Register16::PC), 0x0000);
}
