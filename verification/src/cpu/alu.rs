//! The arithmetic and logic unit: what each operation computes from its
//! operands, and the flags that come with the result.

use super::registers::Flags;
use crate::bits::{low12, nibble, spec_offset};
use vstd::prelude::*;

verus! {

/// The eight operations of the accumulator with a second operand.
#[derive(Clone, Copy, PartialEq, Eq, Structural, Debug)]
pub enum AluOp {
    Add,
    Adc,
    Sub,
    Sbc,
    And,
    Xor,
    Or,
    Cp,
}

/// The eight rotations and shifts of a single operand.
#[derive(Clone, Copy, PartialEq, Eq, Structural, Debug)]
pub enum RotOp {
    Rlc,
    Rrc,
    Rl,
    Rr,
    Sla,
    Sra,
    Swap,
    Srl,
}

/// An 8-bit result with the flags after the operation.
#[derive(Clone, Copy, PartialEq, Eq, Structural, Debug)]
pub struct AluResult {
    pub value: u8,
    pub flags: Flags,
}

/// A 16-bit result with the flags after the operation.
#[derive(Clone, Copy, PartialEq, Eq, Structural, Debug)]
pub struct AluResult16 {
    pub value: u16,
    pub flags: Flags,
}

/// A carry as a number.
pub open spec fn bit(carry: bool) -> int {
    if carry {
        1
    } else {
        0
    }
}

/// The zero flag: the result is zero.
pub open spec fn zero(value: u16) -> bool {
    value == 0
}

/// Addition carries out of bit 3.
pub open spec fn half_carry_add(a: u8, b: u8, carry: bool) -> bool {
    (a % 16) + (b % 16) + bit(carry) > 0x0F
}

/// Addition carries out of bit 7.
pub open spec fn carry_add(a: u8, b: u8, carry: bool) -> bool {
    a + b + bit(carry) > 0xFF
}

/// Subtraction borrows into bit 3.
pub open spec fn half_carry_sub(a: u8, b: u8, carry: bool) -> bool {
    (a % 16) - (b % 16) - bit(carry) < 0
}

/// Subtraction borrows into bit 7.
pub open spec fn carry_sub(a: u8, b: u8, carry: bool) -> bool {
    a - b - bit(carry) < 0
}

/// 16-bit addition carries out of bit 11.
pub open spec fn half_carry_add16(a: u16, b: u16) -> bool {
    (a % 4096) + (b % 4096) > 0x0FFF
}

/// 16-bit addition carries out of bit 15.
pub open spec fn carry_add16(a: u16, b: u16) -> bool {
    a + b > 0xFFFF
}

/// `a + b + carry` modulo 256.
pub open spec fn sum8(a: u8, b: u8, carry: bool) -> u8 {
    ((a + b + bit(carry)) % 256) as u8
}

/// `a - b - carry` modulo 256.
pub open spec fn difference8(a: u8, b: u8, carry: bool) -> u8 {
    ((a - b - bit(carry)) % 256) as u8
}

/// `a + b` modulo 2^16.
pub open spec fn sum16(a: u16, b: u16) -> u16 {
    ((a + b) % 0x10000) as u16
}

/// The flags after an addition.
pub open spec fn flags_add(a: u8, b: u8, carry: bool) -> Flags {
    Flags {
        z: zero(sum8(a, b, carry) as u16),
        n: false,
        h: half_carry_add(a, b, carry),
        c: carry_add(a, b, carry),
    }
}

/// The flags after a subtraction.
pub open spec fn flags_sub(a: u8, b: u8, carry: bool) -> Flags {
    Flags {
        z: zero(difference8(a, b, carry) as u16),
        n: true,
        h: half_carry_sub(a, b, carry),
        c: carry_sub(a, b, carry),
    }
}

/// What `op` makes of the accumulator `a` and the operand `b`: the new
/// accumulator and the new flags. `Cp` subtracts for the flags and keeps the
/// accumulator.
pub open spec fn spec_alu(op: AluOp, a: u8, b: u8, flags: Flags) -> AluResult {
    match op {
        AluOp::Add => AluResult { value: sum8(a, b, false), flags: flags_add(a, b, false) },
        AluOp::Adc => AluResult { value: sum8(a, b, flags.c), flags: flags_add(a, b, flags.c) },
        AluOp::Sub => AluResult { value: difference8(a, b, false), flags: flags_sub(a, b, false) },
        AluOp::Sbc => AluResult {
            value: difference8(a, b, flags.c),
            flags: flags_sub(a, b, flags.c),
        },
        AluOp::And => AluResult {
            value: a & b,
            flags: Flags { z: zero((a & b) as u16), n: false, h: true, c: false },
        },
        AluOp::Xor => AluResult {
            value: a ^ b,
            flags: Flags { z: zero((a ^ b) as u16), n: false, h: false, c: false },
        },
        AluOp::Or => AluResult {
            value: a | b,
            flags: Flags { z: zero((a | b) as u16), n: false, h: false, c: false },
        },
        AluOp::Cp => AluResult { value: a, flags: flags_sub(a, b, false) },
    }
}

/// Increment: the carry flag stays.
pub open spec fn spec_inc(v: u8, flags: Flags) -> AluResult {
    AluResult {
        value: sum8(v, 1, false),
        flags: Flags {
            z: zero(sum8(v, 1, false) as u16),
            n: false,
            h: half_carry_add(v, 1, false),
            c: flags.c,
        },
    }
}

/// Decrement: the carry flag stays.
pub open spec fn spec_dec(v: u8, flags: Flags) -> AluResult {
    AluResult {
        value: difference8(v, 1, false),
        flags: Flags {
            z: zero(difference8(v, 1, false) as u16),
            n: true,
            h: half_carry_sub(v, 1, false),
            c: flags.c,
        },
    }
}

/// The value after a rotation or shift.
pub open spec fn rotated(op: RotOp, v: u8, carry: bool) -> u8 {
    match op {
        RotOp::Rlc => ((v * 2) % 256 + v / 128) as u8,
        RotOp::Rrc => (v / 2 + (v % 2) * 128) as u8,
        RotOp::Rl => ((v * 2) % 256 + bit(carry)) as u8,
        RotOp::Rr => (v / 2 + bit(carry) * 128) as u8,
        RotOp::Sla => ((v * 2) % 256) as u8,
        RotOp::Sra => (v / 2 + (v / 128) * 128) as u8,
        RotOp::Swap => ((v % 16) * 16 + v / 16) as u8,
        RotOp::Srl => v / 2,
    }
}

/// The bit that a rotation or shift moves into the carry flag.
pub open spec fn rotated_out(op: RotOp, v: u8) -> bool {
    match op {
        RotOp::Rlc | RotOp::Rl | RotOp::Sla => v >= 128,
        RotOp::Rrc | RotOp::Rr | RotOp::Sra | RotOp::Srl => v % 2 == 1,
        RotOp::Swap => false,
    }
}

/// A rotation or shift from the prefixed table: zero is computed.
pub open spec fn spec_rotate(op: RotOp, v: u8, flags: Flags) -> AluResult {
    AluResult {
        value: rotated(op, v, flags.c),
        flags: Flags {
            z: zero(rotated(op, v, flags.c) as u16),
            n: false,
            h: false,
            c: rotated_out(op, v),
        },
    }
}

/// A rotation of the accumulator from the base table: zero is cleared.
pub open spec fn spec_rotate_a(op: RotOp, v: u8, flags: Flags) -> AluResult {
    AluResult {
        value: rotated(op, v, flags.c),
        flags: Flags { z: false, n: false, h: false, c: rotated_out(op, v) },
    }
}

/// The correction that decimal adjust adds to or takes from the
/// accumulator.
pub open spec fn daa_correction(a: u8, flags: Flags) -> u8 {
    let low: u8 = if flags.h || (!flags.n && a % 16 > 9) {
        0x06
    } else {
        0x00
    };
    let high: u8 = if flags.c || (!flags.n && a > 0x99) {
        0x60
    } else {
        0x00
    };
    (low + high) as u8
}

/// Decimal adjust after an addition or a subtraction of packed decimals.
pub open spec fn spec_daa(a: u8, flags: Flags) -> AluResult {
    let k = daa_correction(a, flags);
    let value = if flags.n {
        difference8(a, k, false)
    } else {
        sum8(a, k, false)
    };
    AluResult {
        value,
        flags: Flags {
            z: zero(value as u16),
            n: flags.n,
            h: false,
            c: flags.c || (!flags.n && a > 0x99),
        },
    }
}

/// Adding a register pair to `HL`: zero stays.
pub open spec fn spec_add16(a: u16, b: u16, flags: Flags) -> AluResult16 {
    AluResult16 {
        value: sum16(a, b),
        flags: Flags {
            z: flags.z,
            n: false,
            h: half_carry_add16(a, b),
            c: carry_add16(a, b),
        },
    }
}

/// Adding a signed byte to the stack pointer: the carries are those of the
/// low byte and the unsigned operand.
pub open spec fn spec_add_offset(sp: u16, e: u8) -> AluResult16 {
    AluResult16 {
        value: spec_offset(sp, e),
        flags: Flags {
            z: false,
            n: false,
            h: (sp % 16) + (e % 16) > 0x0F,
            c: (sp % 256) + e > 0xFF,
        },
    }
}

/// The mask of bit `n`, the index taken modulo 8.
pub open spec fn bit_mask(n: u8) -> u8 {
    1u8 << (n % 8)
}

pub fn check_z(value: u16) -> (z: bool)
    ensures
        z == zero(value),
{
    value == 0
}

pub fn check_h(a: u8, b: u8, carry: bool) -> (h: bool)
    ensures
        h == half_carry_add(a, b, carry),
{
    let c: u8 = if carry { 1 } else { 0 };
    let s: u8 = nibble(a) + nibble(b) + c;
    assert((s & 0x10 != 0) == (s > 0x0F)) by (bit_vector)
        requires
            s < 32,
    ;
    (s & 0x10) != 0
}

pub fn check_c(a: u8, b: u8, carry: bool) -> (c: bool)
    ensures
        c == carry_add(a, b, carry),
{
    let k: u16 = if carry { 1 } else { 0 };
    a as u16 + b as u16 + k > 0xFF
}

pub fn check_h_sub(a: u8, b: u8, carry: bool) -> (h: bool)
    ensures
        h == half_carry_sub(a, b, carry),
{
    let k: i16 = if carry { 1 } else { 0 };
    (nibble(a) as i16) - (nibble(b) as i16) - k < 0
}

pub fn check_c_sub(a: u8, b: u8, carry: bool) -> (c: bool)
    ensures
        c == carry_sub(a, b, carry),
{
    let k: u16 = if carry { 1 } else { 0 };
    (a as u16) < (b as u16) + k
}

pub fn check_h16(a: u16, b: u16) -> (h: bool)
    ensures
        h == half_carry_add16(a, b),
{
    low12(a) + low12(b) > 0x0FFF
}

pub fn check_c16(a: u16, b: u16) -> (c: bool)
    ensures
        c == carry_add16(a, b),
{
    a as u32 + b as u32 > 0xFFFF
}

fn add8(a: u8, b: u8, carry: bool) -> (r: AluResult)
    ensures
        r.value == sum8(a, b, carry),
        r.flags == flags_add(a, b, carry),
{
    let k: u8 = if carry { 1 } else { 0 };
    let value: u8 = a.wrapping_add(b).wrapping_add(k);
    AluResult {
        value,
        flags: Flags {
            z: check_z(value as u16),
            n: false,
            h: check_h(a, b, carry),
            c: check_c(a, b, carry),
        },
    }
}

fn sub8(a: u8, b: u8, carry: bool) -> (r: AluResult)
    ensures
        r.value == difference8(a, b, carry),
        r.flags == flags_sub(a, b, carry),
{
    let k: u8 = if carry { 1 } else { 0 };
    let value: u8 = a.wrapping_sub(b).wrapping_sub(k);
    AluResult {
        value,
        flags: Flags {
            z: check_z(value as u16),
            n: true,
            h: check_h_sub(a, b, carry),
            c: check_c_sub(a, b, carry),
        },
    }
}

/// Computes `op` on the accumulator `a` and the operand `b`.
pub fn alu(op: AluOp, a: u8, b: u8, flags: Flags) -> (r: AluResult)
    ensures
        r == spec_alu(op, a, b, flags),
{
    match op {
        AluOp::Add => add8(a, b, false),
        AluOp::Adc => add8(a, b, flags.c),
        AluOp::Sub => sub8(a, b, false),
        AluOp::Sbc => sub8(a, b, flags.c),
        AluOp::And => {
            let value: u8 = a & b;
            AluResult {
                value,
                flags: Flags { z: check_z(value as u16), n: false, h: true, c: false },
            }
        },
        AluOp::Xor => {
            let value: u8 = a ^ b;
            AluResult {
                value,
                flags: Flags { z: check_z(value as u16), n: false, h: false, c: false },
            }
        },
        AluOp::Or => {
            let value: u8 = a | b;
            AluResult {
                value,
                flags: Flags { z: check_z(value as u16), n: false, h: false, c: false },
            }
        },
        AluOp::Cp => AluResult { value: a, flags: sub8(a, b, false).flags },
    }
}

pub fn inc8(v: u8, flags: Flags) -> (r: AluResult)
    ensures
        r == spec_inc(v, flags),
{
    let value: u8 = v.wrapping_add(1);
    AluResult {
        value,
        flags: Flags {
            z: check_z(value as u16),
            n: false,
            h: check_h(v, 1, false),
            c: flags.c,
        },
    }
}

pub fn dec8(v: u8, flags: Flags) -> (r: AluResult)
    ensures
        r == spec_dec(v, flags),
{
    let value: u8 = v.wrapping_sub(1);
    AluResult {
        value,
        flags: Flags {
            z: check_z(value as u16),
            n: true,
            h: check_h_sub(v, 1, false),
            c: flags.c,
        },
    }
}

/// The rotated or shifted value and the bit moved out.
fn rotate_bits(op: RotOp, v: u8, carry: bool) -> (r: (u8, bool))
    ensures
        r.0 == rotated(op, v, carry),
        r.1 == rotated_out(op, v),
{
    let k: u8 = if carry { 1 } else { 0 };
    match op {
        RotOp::Rlc => {
            assert((v << 1) | (v >> 7) == (v * 2) % 256 + v / 128 && ((v & 0x80) != 0) == (v
                >= 128)) by (bit_vector);
            ((v << 1) | (v >> 7), (v & 0x80) != 0)
        },
        RotOp::Rrc => {
            assert((v >> 1) | (v << 7) == v / 2 + (v % 2) * 128 && ((v & 0x01) != 0) == (v % 2
                == 1)) by (bit_vector);
            ((v >> 1) | (v << 7), (v & 0x01) != 0)
        },
        RotOp::Rl => {
            assert((v << 1) | k == (v * 2) % 256 + k && ((v & 0x80) != 0) == (v >= 128))
                by (bit_vector)
                requires
                    k <= 1,
            ;
            ((v << 1) | k, (v & 0x80) != 0)
        },
        RotOp::Rr => {
            assert((v >> 1) | (k << 7) == v / 2 + k * 128 && ((v & 0x01) != 0) == (v % 2 == 1))
                by (bit_vector)
                requires
                    k <= 1,
            ;
            ((v >> 1) | (k << 7), (v & 0x01) != 0)
        },
        RotOp::Sla => {
            assert(v << 1 == (v * 2) % 256 && ((v & 0x80) != 0) == (v >= 128)) by (bit_vector);
            (v << 1, (v & 0x80) != 0)
        },
        RotOp::Sra => {
            assert((v >> 1) | (v & 0x80) == v / 2 + (v / 128) * 128 && ((v & 0x01) != 0) == (v
                % 2 == 1)) by (bit_vector);
            ((v >> 1) | (v & 0x80), (v & 0x01) != 0)
        },
        RotOp::Swap => {
            assert((v << 4) | (v >> 4) == (v % 16) * 16 + v / 16) by (bit_vector);
            ((v << 4) | (v >> 4), false)
        },
        RotOp::Srl => {
            assert(v >> 1 == v / 2 && ((v & 0x01) != 0) == (v % 2 == 1)) by (bit_vector);
            (v >> 1, (v & 0x01) != 0)
        },
    }
}

pub fn rotate(op: RotOp, v: u8, flags: Flags) -> (r: AluResult)
    ensures
        r == spec_rotate(op, v, flags),
{
    let (value, out) = rotate_bits(op, v, flags.c);
    AluResult {
        value,
        flags: Flags { z: check_z(value as u16), n: false, h: false, c: out },
    }
}

pub fn rotate_a(op: RotOp, v: u8, flags: Flags) -> (r: AluResult)
    ensures
        r == spec_rotate_a(op, v, flags),
{
    let (value, out) = rotate_bits(op, v, flags.c);
    AluResult { value, flags: Flags { z: false, n: false, h: false, c: out } }
}

pub fn daa(a: u8, flags: Flags) -> (r: AluResult)
    ensures
        r == spec_daa(a, flags),
{
    let mut k: u8 = 0;
    let mut carry: bool = flags.c;
    if flags.h || (!flags.n && nibble(a) > 9) {
        k = k + 0x06;
    }
    if flags.c || (!flags.n && a > 0x99) {
        k = k + 0x60;
        carry = true;
    }
    let value: u8 = if flags.n {
        a.wrapping_sub(k)
    } else {
        a.wrapping_add(k)
    };
    AluResult {
        value,
        flags: Flags { z: check_z(value as u16), n: flags.n, h: false, c: carry },
    }
}

pub fn add16(a: u16, b: u16, flags: Flags) -> (r: AluResult16)
    ensures
        r == spec_add16(a, b, flags),
{
    AluResult16 {
        value: a.wrapping_add(b),
        flags: Flags { z: flags.z, n: false, h: check_h16(a, b), c: check_c16(a, b) },
    }
}

pub fn add_offset(sp: u16, e: u8) -> (r: AluResult16)
    ensures
        r == spec_add_offset(sp, e),
{
    let l: u8 = crate::bits::low(sp);
    AluResult16 {
        value: crate::bits::offset(sp, e),
        flags: Flags { z: false, n: false, h: check_h(l, e, false), c: check_c(l, e, false) },
    }
}

/// The mask of bit `n`, the index taken modulo 8.
pub fn mask_of_bit(n: u8) -> (m: u8)
    ensures
        m == bit_mask(n),
{
    1u8 << (n % 8)
}

/// The half-carry rule of addition is the mask formula on the low nibbles.
pub proof fn lemma_half_carry_add_mask(a: u8, b: u8)
    ensures
        half_carry_add(a, b, false) == ((((a & 0x0F) + (b & 0x0F)) as u8) & 0x10 != 0),
{
    assert(half_carry_add(a, b, false) == ((((a & 0x0F) + (b & 0x0F)) as u8) & 0x10 != 0))
        by (bit_vector);
}

/// The half-carry rule of subtraction is a borrow between the low nibbles.
pub proof fn lemma_half_carry_sub_mask(a: u8, b: u8)
    ensures
        half_carry_sub(a, b, false) == ((a & 0x0F) < (b & 0x0F)),
{
    assert(half_carry_sub(a, b, false) == ((a & 0x0F) < (b & 0x0F))) by (bit_vector);
}

} // verus!
