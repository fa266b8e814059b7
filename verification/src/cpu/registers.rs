//! The register file: four 16-bit pairs that split into named 8-bit halves,
//! the stack pointer, the program counter and the four flag bits of `F`.

use super::Cpu;
use crate::bits::{high, low, spec_high, spec_low, spec_word, word};
use vstd::prelude::*;

verus! {

/// The eight 8-bit registers.
#[derive(Clone, Copy, PartialEq, Eq, Structural, Debug)]
pub enum Register {
    A,
    F,
    B,
    C,
    D,
    E,
    H,
    L,
}

/// The six 16-bit registers: the four pairs, the stack pointer and the
/// program counter.
#[derive(Clone, Copy, PartialEq, Eq, Structural, Debug)]
pub enum Register16 {
    AF,
    BC,
    DE,
    HL,
    SP,
    PC,
}

/// The four flags, held in bits 7 to 4 of `F`.
#[derive(Clone, Copy, PartialEq, Eq, Structural, Debug)]
pub enum Flag {
    Z,
    N,
    H,
    C,
}

/// The four flags as truth values.
#[derive(Clone, Copy, PartialEq, Eq, Structural, Debug)]
pub struct Flags {
    pub z: bool,
    pub n: bool,
    pub h: bool,
    pub c: bool,
}

impl Flag {
    /// The bit of `F` that holds the flag.
    pub open spec fn spec_mask(self) -> u8 {
        match self {
            Flag::Z => 0x80,
            Flag::N => 0x40,
            Flag::H => 0x20,
            Flag::C => 0x10,
        }
    }

    pub fn mask(self) -> (m: u8)
        ensures
            m == self.spec_mask(),
    {
        match self {
            Flag::Z => 0b1000_0000,
            Flag::N => 0b0100_0000,
            Flag::H => 0b0010_0000,
            Flag::C => 0b0001_0000,
        }
    }
}

impl Flags {
    /// The flags that a byte holds in its high nibble.
    pub open spec fn from_byte(v: u8) -> Flags {
        Flags { z: v & 0x80 != 0, n: v & 0x40 != 0, h: v & 0x20 != 0, c: v & 0x10 != 0 }
    }

    /// The byte that holds the flags in bits 7 to 4 and zero below.
    pub open spec fn byte(self) -> u8 {
        (if self.z { 0x80u8 } else { 0u8 })
            | (if self.n { 0x40u8 } else { 0u8 })
            | (if self.h { 0x20u8 } else { 0u8 })
            | (if self.c { 0x10u8 } else { 0u8 })
    }

    pub open spec fn get(self, flag: Flag) -> bool {
        match flag {
            Flag::Z => self.z,
            Flag::N => self.n,
            Flag::H => self.h,
            Flag::C => self.c,
        }
    }

    pub open spec fn with(self, flag: Flag, on: bool) -> Flags {
        match flag {
            Flag::Z => Flags { z: on, ..self },
            Flag::N => Flags { n: on, ..self },
            Flag::H => Flags { h: on, ..self },
            Flag::C => Flags { c: on, ..self },
        }
    }

    /// Packs the flags into the high nibble of a byte.
    pub fn to_byte(self) -> (v: u8)
        ensures
            v == self.byte(),
            v & 0x0F == 0,
            Flags::from_byte(v) == self,
    {
        let z: u8 = if self.z { 0x80 } else { 0 };
        let n: u8 = if self.n { 0x40 } else { 0 };
        let h: u8 = if self.h { 0x20 } else { 0 };
        let c: u8 = if self.c { 0x10 } else { 0 };
        proof {
            lemma_pack(self.z, self.n, self.h, self.c);
        }
        z | n | h | c
    }

    /// Reads the flags off the high nibble of a byte.
    pub fn of_byte(v: u8) -> (f: Flags)
        ensures
            f == Flags::from_byte(v),
    {
        Flags { z: v & 0x80 != 0, n: v & 0x40 != 0, h: v & 0x20 != 0, c: v & 0x10 != 0 }
    }
}

proof fn lemma_pack(z: bool, n: bool, h: bool, c: bool)
    by (bit_vector)
    ensures
        ({
            let v = (if z { 0x80u8 } else { 0u8 }) | (if n { 0x40u8 } else { 0u8 }) | (if h {
                0x20u8
            } else {
                0u8
            }) | (if c { 0x10u8 } else { 0u8 });
            &&& v & 0x0F == 0
            &&& (v & 0x80 != 0) == z
            &&& (v & 0x40 != 0) == n
            &&& (v & 0x20 != 0) == h
            &&& (v & 0x10 != 0) == c
        }),
{
}

proof fn lemma_unpack(v: u8)
    by (bit_vector)
    requires
        v & 0x0F == 0,
    ensures
        (if v & 0x80 != 0 { 0x80u8 } else { 0u8 }) | (if v & 0x40 != 0 { 0x40u8 } else { 0u8 }) | (
        if v & 0x20 != 0 { 0x20u8 } else { 0u8 }) | (if v & 0x10 != 0 { 0x10u8 } else { 0u8 }) == v,
{
}

proof fn lemma_mask_high_nibble(v: u8)
    by (bit_vector)
    ensures
        (v & 0xF0) & 0x0F == 0,
        (v & 0xF0) & 0x80 == v & 0x80,
        (v & 0xF0) & 0x40 == v & 0x40,
        (v & 0xF0) & 0x20 == v & 0x20,
        (v & 0xF0) & 0x10 == v & 0x10,
{
}

proof fn lemma_raise(v: u8, m: u8)
    by (bit_vector)
    requires
        m == 0x80 || m == 0x40 || m == 0x20 || m == 0x10,
    ensures
        (v | m) & 0x0F == v & 0x0F,
        (v | m) & m != 0,
        m != 0x80 ==> (v | m) & 0x80 == v & 0x80,
        m != 0x40 ==> (v | m) & 0x40 == v & 0x40,
        m != 0x20 ==> (v | m) & 0x20 == v & 0x20,
        m != 0x10 ==> (v | m) & 0x10 == v & 0x10,
{
}

proof fn lemma_lower(v: u8, m: u8)
    by (bit_vector)
    requires
        m == 0x80 || m == 0x40 || m == 0x20 || m == 0x10,
    ensures
        (v & !m) & 0x0F == v & 0x0F,
        (v & !m) & m == 0,
        m != 0x80 ==> (v & !m) & 0x80 == v & 0x80,
        m != 0x40 ==> (v & !m) & 0x40 == v & 0x40,
        m != 0x20 ==> (v & !m) & 0x20 == v & 0x20,
        m != 0x10 ==> (v & !m) & 0x10 == v & 0x10,
{
}

/// What the register file holds: each 8-bit register, the flags, the stack
/// pointer and the program counter.
pub struct Registers {
    pub a: u8,
    pub b: u8,
    pub c: u8,
    pub d: u8,
    pub e: u8,
    pub h: u8,
    pub l: u8,
    pub flags: Flags,
    pub sp: u16,
    pub pc: u16,
}

impl Registers {
    pub open spec fn get8(self, r: Register) -> u8 {
        match r {
            Register::A => self.a,
            Register::F => self.flags.byte(),
            Register::B => self.b,
            Register::C => self.c,
            Register::D => self.d,
            Register::E => self.e,
            Register::H => self.h,
            Register::L => self.l,
        }
    }

    /// Writing `F` keeps the high nibble of the value only.
    pub open spec fn set8(self, r: Register, v: u8) -> Registers {
        match r {
            Register::A => Registers { a: v, ..self },
            Register::F => Registers { flags: Flags::from_byte(v), ..self },
            Register::B => Registers { b: v, ..self },
            Register::C => Registers { c: v, ..self },
            Register::D => Registers { d: v, ..self },
            Register::E => Registers { e: v, ..self },
            Register::H => Registers { h: v, ..self },
            Register::L => Registers { l: v, ..self },
        }
    }

    pub open spec fn get16(self, r: Register16) -> u16 {
        match r {
            Register16::AF => spec_word(self.a, self.flags.byte()),
            Register16::BC => spec_word(self.b, self.c),
            Register16::DE => spec_word(self.d, self.e),
            Register16::HL => spec_word(self.h, self.l),
            Register16::SP => self.sp,
            Register16::PC => self.pc,
        }
    }

    pub open spec fn set16(self, r: Register16, v: u16) -> Registers {
        match r {
            Register16::AF => Registers {
                a: spec_high(v),
                flags: Flags::from_byte(spec_low(v)),
                ..self
            },
            Register16::BC => Registers { b: spec_high(v), c: spec_low(v), ..self },
            Register16::DE => Registers { d: spec_high(v), e: spec_low(v), ..self },
            Register16::HL => Registers { h: spec_high(v), l: spec_low(v), ..self },
            Register16::SP => Registers { sp: v, ..self },
            Register16::PC => Registers { pc: v, ..self },
        }
    }

    pub open spec fn flag(self, flag: Flag) -> bool {
        self.flags.get(flag)
    }

    pub open spec fn with_flag(self, flag: Flag, on: bool) -> Registers {
        Registers { flags: self.flags.with(flag, on), ..self }
    }

    pub open spec fn with_flags(self, flags: Flags) -> Registers {
        Registers { flags, ..self }
    }

    /// The registers after reset: all zero but the program counter, which
    /// stands at the entry point.
    pub open spec fn reset() -> Registers {
        Registers {
            a: 0,
            b: 0,
            c: 0,
            d: 0,
            e: 0,
            h: 0,
            l: 0,
            flags: Flags { z: false, n: false, h: false, c: false },
            sp: 0,
            pc: 0x0100,
        }
    }
}

/// The register file as the machine holds it: the pairs AF, BC, DE and HL,
/// the stack pointer and the program counter.
#[derive(Clone, Copy, Debug)]
pub struct RegisterFile {
    af: u16,
    bc: u16,
    de: u16,
    hl: u16,
    sp: u16,
    pc: u16,
}

impl View for RegisterFile {
    type V = Registers;

    closed spec fn view(&self) -> Registers {
        Registers {
            a: spec_high(self.af),
            b: spec_high(self.bc),
            c: spec_low(self.bc),
            d: spec_high(self.de),
            e: spec_low(self.de),
            h: spec_high(self.hl),
            l: spec_low(self.hl),
            flags: Flags::from_byte(spec_low(self.af)),
            sp: self.sp,
            pc: self.pc,
        }
    }
}

impl RegisterFile {
    /// The low nibble of `F` is zero.
    pub closed spec fn wf(&self) -> bool {
        spec_low(self.af) & 0x0F == 0
    }

    pub fn new() -> (r: RegisterFile)
        ensures
            r.wf(),
            r@ == Registers::reset(),
    {
        assert(0u8 & 0x0F == 0 && 0u8 & 0x80 == 0 && 0u8 & 0x40 == 0 && 0u8 & 0x20 == 0 && 0u8
            & 0x10 == 0) by (bit_vector);
        RegisterFile { af: 0, bc: 0, de: 0, hl: 0, sp: 0, pc: 0x0100 }
    }

    pub fn get8(&self, r: Register) -> (v: u8)
        requires
            self.wf(),
        ensures
            v == self@.get8(r),
    {
        match r {
            Register::A => high(self.af),
            Register::F => {
                proof {
                    lemma_unpack(spec_low(self.af));
                }
                low(self.af)
            },
            Register::B => high(self.bc),
            Register::C => low(self.bc),
            Register::D => high(self.de),
            Register::E => low(self.de),
            Register::H => high(self.hl),
            Register::L => low(self.hl),
        }
    }

    pub fn set8(&mut self, r: Register, v: u8)
        requires
            old(self).wf(),
        ensures
            final(self).wf(),
            final(self)@ == old(self)@.set8(r, v),
    {
        match r {
            Register::A => {
                self.af = word(v, low(self.af));
            },
            Register::F => {
                proof {
                    lemma_mask_high_nibble(v);
                }
                self.af = word(high(self.af), v & 0xF0);
            },
            Register::B => {
                self.bc = word(v, low(self.bc));
            },
            Register::C => {
                self.bc = word(high(self.bc), v);
            },
            Register::D => {
                self.de = word(v, low(self.de));
            },
            Register::E => {
                self.de = word(high(self.de), v);
            },
            Register::H => {
                self.hl = word(v, low(self.hl));
            },
            Register::L => {
                self.hl = word(high(self.hl), v);
            },
        }
    }

    pub fn get16(&self, r: Register16) -> (v: u16)
        requires
            self.wf(),
        ensures
            v == self@.get16(r),
    {
        proof {
            lemma_unpack(spec_low(self.af));
        }
        match r {
            Register16::AF => self.af,
            Register16::BC => self.bc,
            Register16::DE => self.de,
            Register16::HL => self.hl,
            Register16::SP => self.sp,
            Register16::PC => self.pc,
        }
    }

    pub fn set16(&mut self, r: Register16, v: u16)
        requires
            old(self).wf(),
        ensures
            final(self).wf(),
            final(self)@ == old(self)@.set16(r, v),
    {
        match r {
            Register16::AF => {
                proof {
                    lemma_mask_high_nibble(spec_low(v));
                }
                self.af = word(high(v), low(v) & 0xF0);
            },
            Register16::BC => {
                self.bc = v;
            },
            Register16::DE => {
                self.de = v;
            },
            Register16::HL => {
                self.hl = v;
            },
            Register16::SP => {
                self.sp = v;
            },
            Register16::PC => {
                self.pc = v;
            },
        }
    }

    pub fn get_flag(&self, flag: Flag) -> (on: bool)
        ensures
            on == self@.flag(flag),
    {
        let f: u8 = low(self.af);
        (f & flag.mask()) != 0
    }

    pub fn set_flag(&mut self, flag: Flag, on: bool)
        requires
            old(self).wf(),
        ensures
            final(self).wf(),
            final(self)@ == old(self)@.with_flag(flag, on),
    {
        let f: u8 = low(self.af);
        let m: u8 = flag.mask();
        proof {
            lemma_raise(f, m);
            lemma_lower(f, m);
        }
        let g: u8 = if on { f | m } else { f & !m };
        self.af = word(high(self.af), g);
    }

    /// All four flags at once.
    pub fn flags(&self) -> (f: Flags)
        ensures
            f == self@.flags,
    {
        Flags::of_byte(low(self.af))
    }

    /// Replaces all four flags.
    pub fn set_flags(&mut self, flags: Flags)
        requires
            old(self).wf(),
        ensures
            final(self).wf(),
            final(self)@ == old(self)@.with_flags(flags),
    {
        self.af = word(high(self.af), flags.to_byte());
    }
}

impl Cpu {
    pub fn get_register(&self, register: Register) -> (value: u8)
        requires
            self.wf(),
        ensures
            value == self@.regs.get8(register),
    {
        self.regs.get8(register)
    }

    /// Writes one 8-bit register; no other register, nor the stack or the
    /// state, changes.
    pub fn set_register(&mut self, register: Register, value: u8)
        requires
            old(self).wf(),
        ensures
            final(self).wf(),
            final(self)@ == old(self)@.with_regs(old(self)@.regs.set8(register, value)),
    {
        self.regs.set8(register, value);
    }

    pub fn get_register16(&self, register: Register16) -> (value: u16)
        requires
            self.wf(),
        ensures
            value == self@.regs.get16(register),
    {
        self.regs.get16(register)
    }

    pub fn set_register16(&mut self, register: Register16, value: u16)
        requires
            old(self).wf(),
        ensures
            final(self).wf(),
            final(self)@ == old(self)@.with_regs(old(self)@.regs.set16(register, value)),
    {
        self.regs.set16(register, value);
    }

    pub fn get_flag(&self, flag: Flag) -> (on: bool)
        ensures
            on == self@.regs.flag(flag),
    {
        self.regs.get_flag(flag)
    }

    /// Raises one flag; the other flags and registers stay.
    pub fn set_flag(&mut self, flag: Flag)
        requires
            old(self).wf(),
        ensures
            final(self).wf(),
            final(self)@ == old(self)@.with_regs(old(self)@.regs.with_flag(flag, true)),
    {
        self.regs.set_flag(flag, true);
    }

    /// Lowers one flag; the other flags and registers stay.
    pub fn unset_flag(&mut self, flag: Flag)
        requires
            old(self).wf(),
        ensures
            final(self).wf(),
            final(self)@ == old(self)@.with_regs(old(self)@.regs.with_flag(flag, false)),
    {
        self.regs.set_flag(flag, false);
    }

    pub fn flags(&self) -> (flags: Flags)
        ensures
            flags == self@.regs.flags,
    {
        self.regs.flags()
    }

    pub fn set_flags(&mut self, flags: Flags)
        requires
            old(self).wf(),
        ensures
            final(self).wf(),
            final(self)@ == old(self)@.with_regs(old(self)@.regs.with_flags(flags)),
    {
        self.regs.set_flags(flags);
    }
}

/// The flags byte always has a zero low nibble, and unpacking what was
/// packed gives the flags back.
pub proof fn lemma_flags_byte(flags: Flags)
    ensures
        flags.byte() & 0x0F == 0,
        flags.byte() % 16 == 0,
        Flags::from_byte(flags.byte()) == flags,
{
    lemma_pack(flags.z, flags.n, flags.h, flags.c);
    let v = flags.byte();
    assert(v & 0x0F == 0 ==> v % 16 == 0) by (bit_vector);
}

/// Writing `F` masks the low nibble: what is read back is the value with
/// bits 3 to 0 cleared.
pub proof fn lemma_set_f_masks(regs: Registers, v: u8)
    ensures
        regs.set8(Register::F, v).get8(Register::F) == v & 0xF0,
{
    lemma_mask_high_nibble(v);
    lemma_unpack(v & 0xF0);
}

/// Writing an 8-bit register changes that register and no other; the value
/// read back is the value written, but for `F`, whose low nibble is dropped.
pub proof fn lemma_set8_get8(regs: Registers, r: Register, v: u8, other: Register)
    ensures
        r != Register::F ==> regs.set8(r, v).get8(r) == v,
        other != r ==> regs.set8(r, v).get8(other) == regs.get8(other),
        regs.set8(r, v).sp == regs.sp,
        regs.set8(r, v).pc == regs.pc,
{
}

} // verus!
