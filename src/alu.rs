//! The 8- and 16-bit arithmetic of the instruction engine: each operation
//! gives its result and the flags it leaves.

use vstd::prelude::*;
use crate::registers::FlagSet;

verus! {

/// An 8-bit result and the flags after the operation.
#[derive(Clone, Copy, Debug, PartialEq, Eq, Structural)]
pub struct AluResult {
    pub value: u8,
    pub flags: FlagSet,
}

/// A 16-bit result and the flags after the operation.
#[derive(Clone, Copy, Debug, PartialEq, Eq, Structural)]
pub struct AluResult16 {
    pub value: u16,
    pub flags: FlagSet,
}

pub open spec fn bit(b: bool) -> int {
    if b { 1 } else { 0 }
}

/// Addition with carry in: `a + b + carry_in`.
pub open spec fn add_spec(a: u8, b: u8, carry_in: bool) -> AluResult {
    let sum = a as int + b as int + bit(carry_in);
    AluResult {
        value: (sum % 256) as u8,
        flags: FlagSet {
            zero: sum % 256 == 0,
            negative: false,
            half_carry: (a & 0x0F) as int + (b & 0x0F) as int + bit(carry_in) > 0x0F,
            carry: sum > 255,
        },
    }
}

/// Subtraction with borrow in: `a - b - borrow_in`.
pub open spec fn sub_spec(a: u8, b: u8, borrow_in: bool) -> AluResult {
    let diff = a as int - b as int - bit(borrow_in);
    AluResult {
        value: ((diff + 256) % 256) as u8,
        flags: FlagSet {
            zero: (diff + 256) % 256 == 0,
            negative: true,
            half_carry: ((a & 0x0F) as int) < (b & 0x0F) as int + bit(borrow_in),
            carry: diff < 0,
        },
    }
}

pub open spec fn and_spec(a: u8, b: u8) -> AluResult {
    AluResult {
        value: a & b,
        flags: FlagSet { zero: a & b == 0, negative: false, half_carry: true, carry: false },
    }
}

pub open spec fn or_spec(a: u8, b: u8) -> AluResult {
    AluResult {
        value: a | b,
        flags: FlagSet { zero: a | b == 0, negative: false, half_carry: false, carry: false },
    }
}

pub open spec fn xor_spec(a: u8, b: u8) -> AluResult {
    AluResult {
        value: a ^ b,
        flags: FlagSet { zero: a ^ b == 0, negative: false, half_carry: false, carry: false },
    }
}

/// Increment; the carry flag is kept.
pub open spec fn inc_spec(v: u8, fl: FlagSet) -> AluResult {
    let r = ((v as int + 1) % 256) as u8;
    AluResult {
        value: r,
        flags: FlagSet { zero: r == 0, negative: false, half_carry: v & 0x0F == 0x0F, carry: fl.carry },
    }
}

/// Decrement; the carry flag is kept.
pub open spec fn dec_spec(v: u8, fl: FlagSet) -> AluResult {
    let r = ((v as int + 255) % 256) as u8;
    AluResult {
        value: r,
        flags: FlagSet { zero: r == 0, negative: true, half_carry: v & 0x0F == 0, carry: fl.carry },
    }
}

/// The eight rotate and shift operations of the extended table, in the
/// order of their encoding.
#[derive(Clone, Copy, Debug, PartialEq, Eq, Structural)]
pub enum ShiftOp {
    Rlc,
    Rrc,
    Rl,
    Rr,
    Sla,
    Sra,
    Swap,
    Srl,
}

pub open spec fn shift_value(op: ShiftOp, v: u8, carry_in: bool) -> u8 {
    let c: u8 = if carry_in { 1 } else { 0 };
    match op {
        ShiftOp::Rlc => ((v as int * 2) % 256 + v as int / 128) as u8,
        ShiftOp::Rrc => (v as int / 2 + (v as int % 2) * 128) as u8,
        ShiftOp::Rl => ((v as int * 2) % 256 + c as int) as u8,
        ShiftOp::Rr => (v as int / 2 + c as int * 128) as u8,
        ShiftOp::Sla => ((v as int * 2) % 256) as u8,
        ShiftOp::Sra => (v as int / 2 + (v as int / 128) * 128) as u8,
        ShiftOp::Swap => ((v as int % 16) * 16 + v as int / 16) as u8,
        ShiftOp::Srl => (v as int / 2) as u8,
    }
}

/// The bit that leaves the value; none for a swap.
pub open spec fn shift_carry(op: ShiftOp, v: u8) -> bool {
    match op {
        ShiftOp::Rlc | ShiftOp::Rl | ShiftOp::Sla => v >= 128,
        ShiftOp::Rrc | ShiftOp::Rr | ShiftOp::Sra | ShiftOp::Srl => v % 2 == 1,
        ShiftOp::Swap => false,
    }
}

/// A rotate or shift of the extended table: zero is set from the result.
pub open spec fn shift_spec(op: ShiftOp, v: u8, carry_in: bool) -> AluResult {
    let r = shift_value(op, v, carry_in);
    AluResult {
        value: r,
        flags: FlagSet { zero: r == 0, negative: false, half_carry: false, carry: shift_carry(op, v) },
    }
}

/// A rotate of the accumulator from the primary table: zero is always cleared.
pub open spec fn rotate_a_spec(op: ShiftOp, v: u8, carry_in: bool) -> AluResult {
    AluResult {
        value: shift_value(op, v, carry_in),
        flags: FlagSet { zero: false, negative: false, half_carry: false, carry: shift_carry(op, v) },
    }
}

/// Tests one bit: zero is set when the bit is clear; carry is kept.
pub open spec fn bit_test_spec(n: u8, v: u8, fl: FlagSet) -> FlagSet {
    FlagSet { zero: (v as int / pow2(n as nat)) % 2 == 0, negative: false, half_carry: true, carry: fl.carry }
}

pub open spec fn pow2(n: nat) -> int
    decreases n,
{
    if n == 0 { 1 } else { 2 * pow2((n - 1) as nat) }
}

/// 16-bit addition into HL: carries out of bit 11 and bit 15; zero is kept.
pub open spec fn add16_spec(a: u16, b: u16, fl: FlagSet) -> AluResult16 {
    let sum = a as int + b as int;
    AluResult16 {
        value: (sum % 65536) as u16,
        flags: FlagSet {
            zero: fl.zero,
            negative: false,
            half_carry: (a & 0x0FFF) as int + (b & 0x0FFF) as int > 0x0FFF,
            carry: sum > 0xFFFF,
        },
    }
}

/// The stack pointer plus a signed offset byte: carries out of bit 3 and bit 7.
pub open spec fn add_sp_spec(sp: u16, e: u8) -> AluResult16 {
    let off = if e < 128 { e as int } else { e as int - 256 };
    AluResult16 {
        value: ((sp as int + off + 65536) % 65536) as u16,
        flags: FlagSet {
            zero: false,
            negative: false,
            half_carry: (sp & 0x0F) as int + (e & 0x0F) as int > 0x0F,
            carry: (sp & 0xFF) as int + e as int > 0xFF,
        },
    }
}

/// Decimal adjustment of the accumulator after a BCD addition or subtraction.
pub open spec fn daa_spec(a: u8, fl: FlagSet) -> AluResult {
    let low_adjust = fl.half_carry || (!fl.negative && a & 0x0F > 9);
    let high_adjust = fl.carry || (!fl.negative && a > 0x99);
    let adj = (if low_adjust { 0x06int } else { 0 }) + (if high_adjust { 0x60int } else { 0 });
    let r = if fl.negative { (a as int - adj + 256) % 256 } else { (a as int + adj) % 256 };
    AluResult {
        value: r as u8,
        flags: FlagSet { zero: r == 0, negative: fl.negative, half_carry: false, carry: high_adjust },
    }
}

pub fn add(a: u8, b: u8, carry_in: bool) -> (r: AluResult)
    ensures
        r == add_spec(a, b, carry_in),
{
    let c: u16 = if carry_in { 1 } else { 0 };
    let sum: u16 = a as u16 + b as u16 + c;
    let value = (sum % 256) as u8;
    let half = (a & 0x0F) as u16 + (b & 0x0F) as u16 + c > 0x0F;
    AluResult {
        value,
        flags: FlagSet { zero: value == 0, negative: false, half_carry: half, carry: sum > 255 },
    }
}

pub fn sub(a: u8, b: u8, borrow_in: bool) -> (r: AluResult)
    ensures
        r == sub_spec(a, b, borrow_in),
{
    let c: u16 = if borrow_in { 1 } else { 0 };
    let total: u16 = b as u16 + c;
    let value = ((a as u16 + 256 - total) % 256) as u8;
    let half = ((a & 0x0F) as u16) < (b & 0x0F) as u16 + c;
    AluResult {
        value,
        flags: FlagSet { zero: value == 0, negative: true, half_carry: half, carry: (a as u16) < total },
    }
}

pub fn and(a: u8, b: u8) -> (r: AluResult)
    ensures
        r == and_spec(a, b),
{
    let v = a & b;
    AluResult { value: v, flags: FlagSet { zero: v == 0, negative: false, half_carry: true, carry: false } }
}

pub fn or(a: u8, b: u8) -> (r: AluResult)
    ensures
        r == or_spec(a, b),
{
    let v = a | b;
    AluResult { value: v, flags: FlagSet { zero: v == 0, negative: false, half_carry: false, carry: false } }
}

pub fn xor(a: u8, b: u8) -> (r: AluResult)
    ensures
        r == xor_spec(a, b),
{
    let v = a ^ b;
    AluResult { value: v, flags: FlagSet { zero: v == 0, negative: false, half_carry: false, carry: false } }
}

pub fn inc(v: u8, fl: FlagSet) -> (r: AluResult)
    ensures
        r == inc_spec(v, fl),
{
    let value = v.wrapping_add(1);
    AluResult {
        value,
        flags: FlagSet { zero: value == 0, negative: false, half_carry: v & 0x0F == 0x0F, carry: fl.carry },
    }
}

pub fn dec(v: u8, fl: FlagSet) -> (r: AluResult)
    ensures
        r == dec_spec(v, fl),
{
    let value = v.wrapping_sub(1);
    AluResult {
        value,
        flags: FlagSet { zero: value == 0, negative: true, half_carry: v & 0x0F == 0, carry: fl.carry },
    }
}

fn shift_value_exec(op: ShiftOp, v: u8, carry_in: bool) -> (r: u8)
    ensures
        r == shift_value(op, v, carry_in),
{
    let c: u8 = if carry_in { 1 } else { 0 };
    match op {
        ShiftOp::Rlc => ((v as u16 * 2) % 256 + v as u16 / 128) as u8,
        ShiftOp::Rrc => (v / 2 + (v % 2) * 128) as u8,
        ShiftOp::Rl => ((v as u16 * 2) % 256 + c as u16) as u8,
        ShiftOp::Rr => (v / 2 + c * 128) as u8,
        ShiftOp::Sla => ((v as u16 * 2) % 256) as u8,
        ShiftOp::Sra => (v / 2 + (v / 128) * 128) as u8,
        ShiftOp::Swap => ((v % 16) * 16 + v / 16) as u8,
        ShiftOp::Srl => v / 2,
    }
}

fn shift_carry_exec(op: ShiftOp, v: u8) -> (r: bool)
    ensures
        r == shift_carry(op, v),
{
    match op {
        ShiftOp::Rlc | ShiftOp::Rl | ShiftOp::Sla => v >= 128,
        ShiftOp::Rrc | ShiftOp::Rr | ShiftOp::Sra | ShiftOp::Srl => v % 2 == 1,
        ShiftOp::Swap => false,
    }
}

pub fn shift(op: ShiftOp, v: u8, carry_in: bool) -> (r: AluResult)
    ensures
        r == shift_spec(op, v, carry_in),
{
    let value = shift_value_exec(op, v, carry_in);
    AluResult {
        value,
        flags: FlagSet {
            zero: value == 0,
            negative: false,
            half_carry: false,
            carry: shift_carry_exec(op, v),
        },
    }
}

pub fn rotate_a(op: ShiftOp, v: u8, carry_in: bool) -> (r: AluResult)
    ensures
        r == rotate_a_spec(op, v, carry_in),
{
    AluResult {
        value: shift_value_exec(op, v, carry_in),
        flags: FlagSet { zero: false, negative: false, half_carry: false, carry: shift_carry_exec(op, v) },
    }
}

pub fn bit_test(n: u8, v: u8, fl: FlagSet) -> (r: FlagSet)
    requires
        n < 8,
    ensures
        r == bit_test_spec(n, v, fl),
{
    let mut x: u8 = v;
    let mut i: u8 = 0;
    while i < n
        invariant
            i <= n,
            n < 8,
            x as int == v as int / pow2(i as nat),
        decreases n - i,
    {
        proof {
            lemma_div_pow2_step(v as int, i as nat);
        }
        x = x / 2;
        i = i + 1;
    }
    FlagSet { zero: x % 2 == 0, negative: false, half_carry: true, carry: fl.carry }
}

proof fn lemma_div_pow2_step(v: int, i: nat)
    requires
        v >= 0,
    ensures
        pow2(i) > 0,
        (v / pow2(i)) / 2 == v / pow2(i + 1),
{
    lemma_pow2_pos(i);
    assert(pow2(i + 1) == 2 * pow2(i));
    vstd::arithmetic::div_mod::lemma_div_denominator(v, pow2(i), 2);
    assert(pow2(i) * 2 == pow2(i + 1)) by (nonlinear_arith)
        requires pow2(i + 1) == 2 * pow2(i);
}

pub proof fn lemma_pow2_pos(i: nat)
    ensures
        pow2(i) > 0,
    decreases i,
{
    if i > 0 {
        lemma_pow2_pos((i - 1) as nat);
    }
}

pub fn add16(a: u16, b: u16, fl: FlagSet) -> (r: AluResult16)
    ensures
        r == add16_spec(a, b, fl),
{
    let sum: u32 = a as u32 + b as u32;
    AluResult16 {
        value: (sum % 65536) as u16,
        flags: FlagSet {
            zero: fl.zero,
            negative: false,
            half_carry: (a & 0x0FFF) as u32 + (b & 0x0FFF) as u32 > 0x0FFF,
            carry: sum > 0xFFFF,
        },
    }
}

pub fn add_sp(sp: u16, e: u8) -> (r: AluResult16)
    ensures
        r == add_sp_spec(sp, e),
{
    let value: u16 = if e < 128 {
        ((sp as u32 + e as u32) % 65536) as u16
    } else {
        ((sp as u32 + 65536 - (256 - e as u32)) % 65536) as u16
    };
    AluResult16 {
        value,
        flags: FlagSet {
            zero: false,
            negative: false,
            half_carry: (sp & 0x0F) as u32 + (e & 0x0F) as u32 > 0x0F,
            carry: (sp & 0xFF) as u32 + e as u32 > 0xFF,
        },
    }
}

pub fn daa(a: u8, fl: FlagSet) -> (r: AluResult)
    ensures
        r == daa_spec(a, fl),
{
    let low_adjust = fl.half_carry || (!fl.negative && a & 0x0F > 9);
    let high_adjust = fl.carry || (!fl.negative && a > 0x99);
    let adj: u16 = (if low_adjust { 0x06 } else { 0 }) + (if high_adjust { 0x60 } else { 0 });
    let r: u16 = if fl.negative {
        (a as u16 + 256 - adj) % 256
    } else {
        (a as u16 + adj) % 256
    };
    AluResult {
        value: r as u8,
        flags: FlagSet { zero: r == 0, negative: fl.negative, half_carry: false, carry: high_adjust },
    }
}

/// Addition without carry in sets carry exactly when the sum exceeds 255,
/// half-carry exactly when the low nibbles overflow, zero exactly when the
/// truncated sum is zero, and always clears negative.
pub proof fn lemma_add_flags(a: u8, b: u8)
    ensures
        add_spec(a, b, false).flags.carry == (a as int + b as int > 255),
        add_spec(a, b, false).flags.half_carry == ((a & 0x0F) as int + (b & 0x0F) as int > 0x0F),
        add_spec(a, b, false).flags.zero == ((a as int + b as int) % 256 == 0),
        add_spec(a, b, false).value == (a as int + b as int) % 256,
        !add_spec(a, b, false).flags.negative,
{
}

/// Decrementing zero wraps to 0xFF, sets negative and half-carry and clears
/// zero, whatever the flags were.
pub proof fn lemma_dec_zero(fl: FlagSet)
    ensures
        dec_spec(0, fl).value == 0xFF,
        dec_spec(0, fl).flags.negative,
        dec_spec(0, fl).flags.half_carry,
        !dec_spec(0, fl).flags.zero,
{
    assert(0u8 & 0x0F == 0) by (bit_vector);
}

/// A decrement always sets negative and keeps carry.
pub proof fn lemma_dec_flags(v: u8, fl: FlagSet)
    ensures
        dec_spec(v, fl).flags.negative,
        dec_spec(v, fl).flags.carry == fl.carry,
        dec_spec(v, fl).flags.zero == (v == 1),
{
}

} // verus!
