//! An interpreter for the instruction set of the Game Boy's processor, with
//! the address bus it works on.

pub mod bits;
pub mod bus;
pub mod cpu;
pub mod disassembler;
pub mod gameboy;
pub mod memory;
pub mod ppu;
