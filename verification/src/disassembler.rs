//! Listing instructions of a cartridge from the instruction table.

use crate::cpu::lookup::OpcodeTable;
use crate::cpu::table::{
    spec_lookup, spec_lookup_prefixed, spec_operand_bytes, Mnemonic, Opcode, PREFIX,
};
use crate::memory::rom::{Rom, ROM_SIZE};
use vstd::prelude::*;

verus! {

/// Instructions that one call of `decode_rom` lists.
pub const LISTING_LENGTH: usize = 32;

/// Where listing starts.
pub const ENTRY_POINT: u16 = 0x0100;

/// One line of a listing.
#[derive(Clone, Debug, PartialEq, Eq)]
pub struct Line {
    /// Where the instruction starts.
    pub address: u16,
    /// Its first byte.
    pub opcode: u8,
    /// Its name; `None` where the byte stands for no instruction.
    pub mnemonic: Option<Mnemonic>,
    /// The bytes that follow the first: behind the prefix byte the opcode of
    /// the prefixed table, then the operand.
    pub operands: Vec<u8>,
}

/// What a line holds.
pub struct LineView {
    pub address: u16,
    pub opcode: u8,
    pub mnemonic: Option<Mnemonic>,
    pub operands: Seq<u8>,
}

impl View for Line {
    type V = LineView;

    open spec fn view(&self) -> LineView {
        LineView {
            address: self.address,
            opcode: self.opcode,
            mnemonic: self.mnemonic,
            operands: self.operands@,
        }
    }
}

/// The table entry of the instruction that starts at `pc`.
pub open spec fn entry_at(rom: Seq<u8>, pc: int) -> Option<Opcode> {
    if rom[pc] == PREFIX {
        Some(spec_lookup_prefixed(rom[pc + 1]))
    } else {
        spec_lookup(rom[pc])
    }
}

/// Bytes of the instruction at `pc` behind its first byte.
pub open spec fn tail_length(rom: Seq<u8>, pc: int) -> int {
    let prefix: int = if rom[pc] == PREFIX {
        1
    } else {
        0
    };
    match entry_at(rom, pc) {
        Some(entry) => prefix + entry.operand_bytes,
        None => prefix,
    }
}

/// The line for the instruction that starts at `pc`.
pub open spec fn line_at(rom: Seq<u8>, pc: int) -> LineView {
    LineView {
        address: pc as u16,
        opcode: rom[pc],
        mnemonic: match entry_at(rom, pc) {
            Some(entry) => Some(entry.mnemonic),
            None => None,
        },
        operands: rom.subrange(pc + 1, pc + 1 + tail_length(rom, pc)),
    }
}

/// Where the `n`-th instruction after the one at `pc` starts.
pub open spec fn address_after(rom: Seq<u8>, pc: int, n: nat) -> int
    decreases n,
{
    if n == 0 {
        pc
    } else {
        let before = address_after(rom, pc, (n - 1) as nat);
        before + 1 + tail_length(rom, before)
    }
}

/// An instruction has at most three bytes behind its first.
pub proof fn lemma_tail_length(rom: Seq<u8>, pc: int)
    ensures
        0 <= tail_length(rom, pc) <= 3,
{
    reveal(spec_lookup);
    reveal(spec_lookup_prefixed);
}

/// `n` instructions take at most `4 * n` bytes.
pub proof fn lemma_address_after(rom: Seq<u8>, pc: int, n: nat)
    ensures
        pc + n <= address_after(rom, pc, n) <= pc + 4 * n,
    decreases n,
{
    if n > 0 {
        lemma_address_after(rom, pc, (n - 1) as nat);
        lemma_tail_length(rom, address_after(rom, pc, (n - 1) as nat));
    }
}

pub struct Disassembler {
    pc: u16,
}

impl Disassembler {
    /// Where the next listing starts.
    pub closed spec fn pc(&self) -> u16 {
        self.pc
    }

    /// A disassembler at the entry point.
    pub fn new() -> (d: Disassembler)
        ensures
            d.pc() == ENTRY_POINT,
    {
        Disassembler { pc: ENTRY_POINT }
    }

    /// The address at which the next listing starts.
    pub fn position(&self) -> (pc: u16)
        ensures
            pc == self.pc(),
    {
        self.pc
    }

    /// Lists the next `LISTING_LENGTH` instructions of the cartridge and
    /// moves on behind them.
    pub fn decode_rom(&mut self, rom: &Rom) -> (lines: Vec<Line>)
        requires
            old(self).pc() + 4 * LISTING_LENGTH < ROM_SIZE,
        ensures
            lines@.len() == LISTING_LENGTH,
            forall|i: int|
                0 <= i < LISTING_LENGTH ==> (#[trigger] lines@[i])@ == line_at(
                    rom@,
                    address_after(rom@, old(self).pc() as int, i as nat),
                ),
            final(self).pc() == address_after(
                rom@,
                old(self).pc() as int,
                LISTING_LENGTH as nat,
            ),
    {
        let mut lines: Vec<Line> = Vec::new();
        let mut n: usize = 0;
        while n < LISTING_LENGTH
            invariant
                n <= LISTING_LENGTH,
                old(self).pc() + 4 * LISTING_LENGTH < ROM_SIZE,
                lines@.len() == n,
                self.pc() == address_after(rom@, old(self).pc() as int, n as nat),
                forall|i: int|
                    0 <= i < n ==> (#[trigger] lines@[i])@ == line_at(
                        rom@,
                        address_after(rom@, old(self).pc() as int, i as nat),
                    ),
            decreases LISTING_LENGTH - n,
        {
            proof {
                lemma_address_after(rom@, old(self).pc() as int, n as nat);
            }
            let line = self.read_instruction(rom);
            lines.push(line);
            n += 1;
        }
        lines
    }

    /// Reads the instruction at the current address and moves on behind it.
    pub fn read_instruction(&mut self, rom: &Rom) -> (line: Line)
        requires
            old(self).pc() + 4 <= ROM_SIZE,
        ensures
            line@ == line_at(rom@, old(self).pc() as int),
            final(self).pc() == old(self).pc() + 1 + tail_length(rom@, old(self).pc() as int),
    {
        proof {
            rom.lemma_len();
            lemma_tail_length(rom@, self.pc as int);
        }
        let address: u16 = self.pc;
        let opcode: u8 = rom.read(address);
        let mut operands: Vec<u8> = Vec::new();
        let entry: Option<Opcode> = if opcode == PREFIX {
            let second: u8 = rom.read(address + 1);
            operands.push(second);
            Some(OpcodeTable::lookup_prefixed(second))
        } else {
            OpcodeTable::lookup_opcode(opcode)
        };
        let (mnemonic, count): (Option<Mnemonic>, u8) = match entry {
            Some(e) => (Some(e.mnemonic), e.operand_bytes),
            None => (None, 0),
        };
        let start: u16 = address + 1 + operands.len() as u16;
        let ghost prefix = operands@;
        let mut i: u8 = 0;
        while i < count
            invariant
                i <= count,
                start + count <= address + 4,
                address + 4 <= ROM_SIZE,
                rom@.len() == ROM_SIZE,
                operands@ == prefix + rom@.subrange(start as int, start + i),
            decreases count - i,
        {
            operands.push(rom.read(start + i as u16));
            i += 1;
        }
        assert(operands@ =~= rom@.subrange(
            address + 1,
            address + 1 + tail_length(rom@, address as int),
        ));
        self.pc = start + count as u16;
        Line { address, opcode, mnemonic, operands }
    }
}

} // verus!
