use gameboy_emulator::bus::vram::Vram;
use gameboy_emulator::bus::{region, Bus, BusWarning, BusWarningKind, Region};
use gameboy_emulator::memory::rom::Rom;
use gameboy_emulator::memory::wram::Wram;
use gameboy_emulator::memory::Memory;

fn sample_rom() -> Rom {
    let mut rom = Rom::new();
    rom.write(0x0000, 0x31);
    rom.write(0x3FFF, 0x99);
    rom.write(0x4000, 0x77);
    rom
}

#[test]
fn regions() {
    assert_eq!(region(0x0000), Region::Rom);
    assert_eq!(region(0x3FFF), Region::Rom);
    assert_eq!(region(0x4000), Region::Unmapped);
    assert_eq!(region(0x7FFF), Region::Unmapped);
    assert_eq!(region(0x8000), Region::Vram);
    assert_eq!(region(0x9FFF), Region::Vram);
    assert_eq!(region(0xA000), Region::Unmapped);
    assert_eq!(region(0xBFFF), Region::Unmapped);
    assert_eq!(region(0xC000), Region::Wram);
    assert_eq!(region(0xCFFF), Region::Wram);
    assert_eq!(region(0xD000), Region::Unmapped);
    assert_eq!(region(0xFFFF), Region::Unmapped);
}

#[test]
fn write_to_rom_is_a_no_op() {
    let mut bus = Bus::new(sample_rom());
    bus.write(0x0000, 0xAB);
    assert_eq!(bus.read(0x0000), 0x31);
    bus.write(0x3FFF, 0xAB);
    assert_eq!(bus.read(0x3FFF), 0x99);
    assert_eq!(
        bus.warnings().as_slice(),
        &[
            BusWarning { address: 0x0000, kind: BusWarningKind::WriteToReadOnly },
            BusWarning { address: 0x3FFF, kind: BusWarningKind::WriteToReadOnly },
        ]
    );
}

#[test]
fn write_to_ram_is_read_back() {
    let mut bus = Bus::new(sample_rom());
    assert_eq!(bus.read(0x8000), 0x00);
    bus.write(0x8000, 0x5A);
    assert_eq!(bus.read(0x8000), 0x5A);
    bus.write(0x9FFF, 0x01);
    bus.write(0xC000, 0x02);
    bus.write(0xCFFF, 0x03);
    assert_eq!(bus.read(0x9FFF), 0x01);
    assert_eq!(bus.read(0xC000), 0x02);
    assert_eq!(bus.read(0xCFFF), 0x03);
    assert_eq!(bus.read(0x8000), 0x5A);
    assert_eq!(bus.read(0x8001), 0x00);
    assert!(bus.warnings().is_empty());
}

#[test]
fn unmapped_reads_are_open_bus() {
    let mut bus = Bus::new(sample_rom());
    assert_eq!(bus.read(0xFFFF), 0xFF);
    assert_eq!(bus.read(0x4000), 0xFF);
    assert_eq!(bus.read(0xA000), 0xFF);
    assert_eq!(bus.read(0xD000), 0xFF);
    bus.write(0xFFFF, 0x12);
    assert_eq!(bus.read(0xFFFF), 0xFF);
    assert_eq!(
        bus.warnings().as_slice(),
        &[BusWarning { address: 0xFFFF, kind: BusWarningKind::WriteUnmapped }]
    );
    bus.clear_warnings();
    assert!(bus.warnings().is_empty());
    assert_eq!(bus.read(0x0000), 0x31);
}

#[test]
fn bus_hands_out_its_rom() {
    let bus = Bus::new(sample_rom());
    assert_eq!(bus.get_rom().read(0x4000), 0x77);
    assert_eq!(bus.get_rom().read(0x0000), 0x31);
}

#[test]
fn stores_start_zeroed_and_keep_writes() {
    let mut rom = Rom::new();
    assert_eq!(rom.read(0), 0);
    assert_eq!(rom.read(32767), 0);
    rom.write(32767, 0xEE);
    assert_eq!(rom.read(32767), 0xEE);
    assert_eq!(rom.read(32766), 0);
    let mut vram = Vram::new();
    assert_eq!(vram.read(8191), 0);
    vram.write(8191, 7);
    vram.write(0, 9);
    assert_eq!(vram.read(8191), 7);
    assert_eq!(vram.read(0), 9);
    let mut wram = Wram::new();
    assert_eq!(wram.read(100), 0);
    wram.write(100, 3);
    assert_eq!(wram.read(100), 3);
    assert_eq!(wram.read(101), 0);
}

#[test]
fn load_rom_copies_the_image() {
    let mut rom = Rom::new();
    rom.write(3, 0xAA);
    rom.write(1, 0xBB);
    rom.load_rom(&[1, 2, 3]);
    assert_eq!(rom.read(0), 1);
    assert_eq!(rom.read(1), 2);
    assert_eq!(rom.read(2), 3);
    assert_eq!(rom.read(3), 0xAA);
    rom.load_rom(&[]);
    assert_eq!(rom.read(0), 1);
    let full = vec![0x5Au8; 32768];
    rom.load_rom(&full);
    assert_eq!(rom.read(32767), 0x5A);
}

#[test]
fn memory_reads_and_drops_writes() {
    let mut memory = Memory::new(sample_rom());
    assert_eq!(memory.read(0x0000), 0x31);
    assert_eq!(memory.read(0x3FFF), 0x99);
    assert_eq!(memory.read(0x4000), 0xFF);
    assert_eq!(memory.read(0x8000), 0xFF);
    assert_eq!(memory.read(0xC000), 0x00);
    assert_eq!(memory.read(0xFFFF), 0xFF);
    memory.write(0xC000, 0x12);
    memory.write(0x0000, 0x12);
    assert_eq!(memory.read(0xC000), 0x00);
    assert_eq!(memory.read(0x0000), 0x31);
}
