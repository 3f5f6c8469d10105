//! The instruction engine: decodes and executes one opcode of the primary
//! table, or of the extended table after the 0xCB prefix.

use vstd::prelude::*;
use crate::alu;
use crate::alu::{
    add_sp_spec, add16_spec, daa_spec, dec_spec, inc_spec, rotate_a_spec, shift_spec, AluResult,
    ShiftOp,
};
use crate::interrupts::Interrupts;
use crate::mmu::{Mmu, DIVIDER};
use crate::registers::{join16, FlagSet, Reg16, Reg8, Registers};
use crate::stack::{pop_u16, push_u16, pushed, sp_above, sp_below, top_known, top_of};

verus! {

/// The cycles of each primary opcode; a conditional branch adds the cost of
/// its outcome.
pub open spec fn op_ticks() -> Seq<u32> {
    seq![
            2, 6, 4, 4, 2, 2, 4, 4, 10, 4, 4, 4, 2, 2, 4, 4,
            2, 6, 4, 4, 2, 2, 4, 4, 4, 4, 4, 4, 2, 2, 4, 4,
            0, 6, 4, 4, 2, 2, 4, 2, 0, 4, 4, 4, 2, 2, 4, 2,
            4, 6, 4, 4, 6, 6, 6, 2, 0, 4, 4, 4, 2, 2, 4, 2,
            2, 2, 2, 2, 2, 2, 4, 2, 2, 2, 2, 2, 2, 2, 4, 2,
            2, 2, 2, 2, 2, 2, 4, 2, 2, 2, 2, 2, 2, 2, 4, 2,
            2, 2, 2, 2, 2, 2, 4, 2, 2, 2, 2, 2, 2, 2, 4, 2,
            4, 4, 4, 4, 4, 4, 2, 4, 2, 2, 2, 2, 2, 2, 4, 2,
            2, 2, 2, 2, 2, 2, 4, 2, 2, 2, 2, 2, 2, 2, 4, 2,
            2, 2, 2, 2, 2, 2, 4, 2, 2, 2, 2, 2, 2, 2, 4, 2,
            2, 2, 2, 2, 2, 2, 4, 2, 2, 2, 2, 2, 2, 2, 4, 2,
            2, 2, 2, 2, 2, 2, 4, 2, 2, 2, 2, 2, 2, 2, 4, 2,
            0, 6, 0, 6, 0, 8, 4, 8, 0, 2, 0, 0, 0, 6, 4, 8,
            0, 6, 0, 0, 0, 8, 4, 8, 0, 8, 0, 0, 0, 0, 4, 8,
            6, 6, 4, 0, 0, 8, 4, 8, 8, 2, 8, 0, 0, 0, 4, 8,
            6, 6, 4, 2, 0, 8, 4, 8, 6, 4, 8, 2, 0, 0, 4, 8,
    ]
}

/// The cycles of each extended opcode.
pub open spec fn cb_ticks() -> Seq<u32> {
    seq![
            8, 8, 8, 8, 8, 8, 16, 8, 8, 8, 8, 8, 8, 8, 16, 8,
            8, 8, 8, 8, 8, 8, 16, 8, 8, 8, 8, 8, 8, 8, 16, 8,
            8, 8, 8, 8, 8, 8, 16, 8, 8, 8, 8, 8, 8, 8, 16, 8,
            8, 8, 8, 8, 8, 8, 16, 8, 8, 8, 8, 8, 8, 8, 16, 8,
            8, 8, 8, 8, 8, 8, 12, 8, 8, 8, 8, 8, 8, 8, 12, 8,
            8, 8, 8, 8, 8, 8, 12, 8, 8, 8, 8, 8, 8, 8, 12, 8,
            8, 8, 8, 8, 8, 8, 12, 8, 8, 8, 8, 8, 8, 8, 12, 8,
            8, 8, 8, 8, 8, 8, 12, 8, 8, 8, 8, 8, 8, 8, 12, 8,
            8, 8, 8, 8, 8, 8, 12, 8, 8, 8, 8, 8, 8, 8, 12, 8,
            8, 8, 8, 8, 8, 8, 12, 8, 8, 8, 8, 8, 8, 8, 12, 8,
            8, 8, 8, 8, 8, 8, 12, 8, 8, 8, 8, 8, 8, 8, 12, 8,
            8, 8, 8, 8, 8, 8, 12, 8, 8, 8, 8, 8, 8, 8, 12, 8,
            8, 8, 8, 8, 8, 8, 12, 8, 8, 8, 8, 8, 8, 8, 12, 8,
            8, 8, 8, 8, 8, 8, 12, 8, 8, 8, 8, 8, 8, 8, 12, 8,
            8, 8, 8, 8, 8, 8, 12, 8, 8, 8, 8, 8, 8, 8, 12, 8,
            8, 8, 8, 8, 8, 8, 12, 8, 8, 8, 8, 8, 8, 8, 12, 8,
    ]
}

fn op_cycles(op: u8) -> (r: u32)
    ensures
        r == op_ticks()[op as int],
{
    let t: [u32; 256] = [
            2, 6, 4, 4, 2, 2, 4, 4, 10, 4, 4, 4, 2, 2, 4, 4,
            2, 6, 4, 4, 2, 2, 4, 4, 4, 4, 4, 4, 2, 2, 4, 4,
            0, 6, 4, 4, 2, 2, 4, 2, 0, 4, 4, 4, 2, 2, 4, 2,
            4, 6, 4, 4, 6, 6, 6, 2, 0, 4, 4, 4, 2, 2, 4, 2,
            2, 2, 2, 2, 2, 2, 4, 2, 2, 2, 2, 2, 2, 2, 4, 2,
            2, 2, 2, 2, 2, 2, 4, 2, 2, 2, 2, 2, 2, 2, 4, 2,
            2, 2, 2, 2, 2, 2, 4, 2, 2, 2, 2, 2, 2, 2, 4, 2,
            4, 4, 4, 4, 4, 4, 2, 4, 2, 2, 2, 2, 2, 2, 4, 2,
            2, 2, 2, 2, 2, 2, 4, 2, 2, 2, 2, 2, 2, 2, 4, 2,
            2, 2, 2, 2, 2, 2, 4, 2, 2, 2, 2, 2, 2, 2, 4, 2,
            2, 2, 2, 2, 2, 2, 4, 2, 2, 2, 2, 2, 2, 2, 4, 2,
            2, 2, 2, 2, 2, 2, 4, 2, 2, 2, 2, 2, 2, 2, 4, 2,
            0, 6, 0, 6, 0, 8, 4, 8, 0, 2, 0, 0, 0, 6, 4, 8,
            0, 6, 0, 0, 0, 8, 4, 8, 0, 8, 0, 0, 0, 0, 4, 8,
            6, 6, 4, 0, 0, 8, 4, 8, 8, 2, 8, 0, 0, 0, 4, 8,
            6, 6, 4, 2, 0, 8, 4, 8, 6, 4, 8, 2, 0, 0, 4, 8,
    ];
    assert(t@ == op_ticks());
    t[op as usize]
}

fn cb_cycles(op: u8) -> (r: u32)
    ensures
        r == cb_ticks()[op as int],
{
    let t: [u32; 256] = [
            8, 8, 8, 8, 8, 8, 16, 8, 8, 8, 8, 8, 8, 8, 16, 8,
            8, 8, 8, 8, 8, 8, 16, 8, 8, 8, 8, 8, 8, 8, 16, 8,
            8, 8, 8, 8, 8, 8, 16, 8, 8, 8, 8, 8, 8, 8, 16, 8,
            8, 8, 8, 8, 8, 8, 16, 8, 8, 8, 8, 8, 8, 8, 16, 8,
            8, 8, 8, 8, 8, 8, 12, 8, 8, 8, 8, 8, 8, 8, 12, 8,
            8, 8, 8, 8, 8, 8, 12, 8, 8, 8, 8, 8, 8, 8, 12, 8,
            8, 8, 8, 8, 8, 8, 12, 8, 8, 8, 8, 8, 8, 8, 12, 8,
            8, 8, 8, 8, 8, 8, 12, 8, 8, 8, 8, 8, 8, 8, 12, 8,
            8, 8, 8, 8, 8, 8, 12, 8, 8, 8, 8, 8, 8, 8, 12, 8,
            8, 8, 8, 8, 8, 8, 12, 8, 8, 8, 8, 8, 8, 8, 12, 8,
            8, 8, 8, 8, 8, 8, 12, 8, 8, 8, 8, 8, 8, 8, 12, 8,
            8, 8, 8, 8, 8, 8, 12, 8, 8, 8, 8, 8, 8, 8, 12, 8,
            8, 8, 8, 8, 8, 8, 12, 8, 8, 8, 8, 8, 8, 8, 12, 8,
            8, 8, 8, 8, 8, 8, 12, 8, 8, 8, 8, 8, 8, 8, 12, 8,
            8, 8, 8, 8, 8, 8, 12, 8, 8, 8, 8, 8, 8, 8, 12, 8,
            8, 8, 8, 8, 8, 8, 12, 8, 8, 8, 8, 8, 8, 8, 12, 8,
    ];
    assert(t@ == cb_ticks());
    t[op as usize]
}

/// The primary opcodes that have an instruction.
pub open spec fn is_defined(op: u8) -> bool {
    !(op == 0xD3 || op == 0xDB || op == 0xDD || op == 0xE3 || op == 0xE4 || op == 0xEB || op == 0xEC
        || op == 0xED || op == 0xF4 || op == 0xFC || op == 0xFD)
}

pub fn opcode_defined(op: u8) -> (r: bool)
    ensures
        r == is_defined(op),
{
    !(op == 0xD3 || op == 0xDB || op == 0xDD || op == 0xE3 || op == 0xE4 || op == 0xEB || op == 0xEC
        || op == 0xED || op == 0xF4 || op == 0xFC || op == 0xFD)
}

/// Conditional jumps, calls and returns.
pub open spec fn is_conditional(op: u8) -> bool {
    op == 0x20 || op == 0x28 || op == 0x30 || op == 0x38 || op == 0xC0 || op == 0xC8 || op == 0xD0
        || op == 0xD8 || op == 0xC2 || op == 0xCA || op == 0xD2 || op == 0xDA || op == 0xC4 || op == 0xCC
        || op == 0xD4 || op == 0xDC
}

/// The cycles that a conditional branch adds, taken or not.
pub open spec fn branch_cycles(op: u8, taken: bool) -> int {
    if op < 0x40 {
        if taken { 12 } else { 8 }
    } else if op % 8 == 2 {
        if taken { 16 } else { 12 }
    } else if op % 8 == 4 {
        if taken { 24 } else { 12 }
    } else {
        if taken { 20 } else { 8 }
    }
}

/// Condition `cc` of a branch: NZ, Z, NC, C.
pub open spec fn condition(fl: FlagSet, cc: u8) -> bool {
    if cc == 0 {
        !fl.zero
    } else if cc == 1 {
        fl.zero
    } else if cc == 2 {
        !fl.carry
    } else {
        fl.carry
    }
}

/// `v` is what a read gave: the expected value whenever the read was
/// predictable, anything when it read the unpredictable register.
pub open spec fn read_as<T>(known: bool, v: T, expected: T) -> bool {
    known ==> v == expected
}

/// The register that operand code `z` names; code 6 names the byte at HL.
pub open spec fn reg_of(z: u8) -> Reg8 {
    if z == 0 {
        Reg8::B
    } else if z == 1 {
        Reg8::C
    } else if z == 2 {
        Reg8::D
    } else if z == 3 {
        Reg8::E
    } else if z == 4 {
        Reg8::H
    } else if z == 5 {
        Reg8::L
    } else {
        Reg8::A
    }
}

fn reg_of_code(z: u8) -> (r: Reg8)
    ensures
        r == reg_of(z),
{
    if z == 0 {
        Reg8::B
    } else if z == 1 {
        Reg8::C
    } else if z == 2 {
        Reg8::D
    } else if z == 3 {
        Reg8::E
    } else if z == 4 {
        Reg8::H
    } else if z == 5 {
        Reg8::L
    } else {
        Reg8::A
    }
}

/// The register pair that code `p` names in loads and 16-bit arithmetic.
pub open spec fn pair_of(p: u8) -> Reg16 {
    if p == 0 {
        Reg16::BC
    } else if p == 1 {
        Reg16::DE
    } else if p == 2 {
        Reg16::HL
    } else {
        Reg16::SP
    }
}

fn pair_of_code(p: u8) -> (r: Reg16)
    ensures
        r == pair_of(p),
{
    if p == 0 {
        Reg16::BC
    } else if p == 1 {
        Reg16::DE
    } else if p == 2 {
        Reg16::HL
    } else {
        Reg16::SP
    }
}

/// The register pair that code `p` names in pushes and pops.
pub open spec fn stack_pair_of(p: u8) -> Reg16 {
    if p == 0 {
        Reg16::BC
    } else if p == 1 {
        Reg16::DE
    } else if p == 2 {
        Reg16::HL
    } else {
        Reg16::AF
    }
}

fn stack_pair_of_code(p: u8) -> (r: Reg16)
    ensures
        r == stack_pair_of(p),
{
    if p == 0 {
        Reg16::BC
    } else if p == 1 {
        Reg16::DE
    } else if p == 2 {
        Reg16::HL
    } else {
        Reg16::AF
    }
}

/// The accumulator operation that code `y` names: ADD, ADC, SUB, SBC, AND,
/// XOR, OR, CP. A compare leaves the accumulator as it was.
pub open spec fn alu_spec(y: u8, a: u8, v: u8, fl: FlagSet) -> AluResult {
    if y == 0 {
        alu::add_spec(a, v, false)
    } else if y == 1 {
        alu::add_spec(a, v, fl.carry)
    } else if y == 2 {
        alu::sub_spec(a, v, false)
    } else if y == 3 {
        alu::sub_spec(a, v, fl.carry)
    } else if y == 4 {
        alu::and_spec(a, v)
    } else if y == 5 {
        alu::xor_spec(a, v)
    } else if y == 6 {
        alu::or_spec(a, v)
    } else {
        AluResult { value: a, flags: alu::sub_spec(a, v, false).flags }
    }
}

fn alu_op(y: u8, a: u8, v: u8, fl: FlagSet) -> (r: AluResult)
    ensures
        r == alu_spec(y, a, v, fl),
{
    if y == 0 {
        alu::add(a, v, false)
    } else if y == 1 {
        alu::add(a, v, fl.carry)
    } else if y == 2 {
        alu::sub(a, v, false)
    } else if y == 3 {
        alu::sub(a, v, fl.carry)
    } else if y == 4 {
        alu::and(a, v)
    } else if y == 5 {
        alu::xor(a, v)
    } else if y == 6 {
        alu::or(a, v)
    } else {
        let r = alu::sub(a, v, false);
        AluResult { value: a, flags: r.flags }
    }
}

/// The rotate or shift that code `y` of the extended table names.
pub open spec fn shift_op_of(y: u8) -> ShiftOp {
    if y == 0 {
        ShiftOp::Rlc
    } else if y == 1 {
        ShiftOp::Rrc
    } else if y == 2 {
        ShiftOp::Rl
    } else if y == 3 {
        ShiftOp::Rr
    } else if y == 4 {
        ShiftOp::Sla
    } else if y == 5 {
        ShiftOp::Sra
    } else if y == 6 {
        ShiftOp::Swap
    } else {
        ShiftOp::Srl
    }
}

fn shift_op_of_code(y: u8) -> (r: ShiftOp)
    ensures
        r == shift_op_of(y),
{
    if y == 0 {
        ShiftOp::Rlc
    } else if y == 1 {
        ShiftOp::Rrc
    } else if y == 2 {
        ShiftOp::Rl
    } else if y == 3 {
        ShiftOp::Rr
    } else if y == 4 {
        ShiftOp::Sla
    } else if y == 5 {
        ShiftOp::Sra
    } else if y == 6 {
        ShiftOp::Swap
    } else {
        ShiftOp::Srl
    }
}

/// The register file with an operation's value in A and its flags in F.
pub open spec fn with_result(r: Registers, res: AluResult) -> Registers {
    Registers { a: res.value, ..r }.with_flags(res.flags)
}

/// The program counter after a relative jump by the signed byte `e`.
pub open spec fn relative_target(pc: u16, e: u8) -> u16 {
    ((pc as int + (if e < 128 { e as int } else { e as int - 256 }) + 65536) % 65536) as u16
}

/// `v` plus `k`, wrapping at 16 bits.
pub open spec fn add_wrap(v: u16, k: int) -> u16 {
    ((v as int + k + 65536) % 65536) as u16
}

/// The processor: register file, bus and interrupt controller, with the
/// halt and stop latches and the count of cycles run.
pub struct Cpu {
    pub regs: Registers,
    pub mmu: Mmu,
    pub ints: Interrupts,
    pub halted: bool,
    pub stopped: bool,
    pub ticks: u64,
}

impl Cpu {
    pub open spec fn wf(&self) -> bool {
        self.regs.wf() && self.mmu.wf()
    }

    pub open spec fn hl(&self) -> u16 {
        self.regs.r16(Reg16::HL)
    }

    /// The value of operand code `z`: a register, or the byte at HL.
    pub open spec fn operand(&self, z: u8) -> u8 {
        if z == 6 {
            self.mmu.peek(self.hl())
        } else {
            self.regs.r8(reg_of(z))
        }
    }

    /// Reading operand `z` gives a predictable value.
    pub open spec fn operand_known(&self, z: u8) -> bool {
        z != 6 || self.hl() != DIVIDER
    }

    /// The byte at the program counter.
    pub open spec fn imm8(&self) -> u8 {
        self.mmu.peek(self.regs.pc)
    }

    /// Reading the byte at the program counter gives a predictable value.
    pub open spec fn imm8_known(&self) -> bool {
        self.regs.pc != DIVIDER
    }

    /// The little-endian word at the program counter.
    pub open spec fn imm16(&self) -> u16 {
        join16(self.mmu.peek(add_wrap(self.regs.pc, 1)), self.mmu.peek(self.regs.pc))
    }

    pub open spec fn imm16_known(&self) -> bool {
        self.regs.pc != DIVIDER && add_wrap(self.regs.pc, 1) != DIVIDER
    }

    /// `n` is what reading the byte at the program counter gave.
    pub open spec fn imm8_read(&self, n: u8) -> bool {
        read_as(self.imm8_known(), n, self.imm8())
    }

    /// `nn` is what reading the word at the program counter gave.
    pub open spec fn imm16_read(&self, nn: u16) -> bool {
        read_as(self.imm16_known(), nn, self.imm16())
    }

    /// `v` is what reading operand `z` gave.
    pub open spec fn operand_read(&self, z: u8, v: u8) -> bool {
        read_as(self.operand_known(z), v, self.operand(z))
    }

    /// `v` is what reading address `addr` gave.
    pub open spec fn mem_read(&self, addr: u16, v: u8) -> bool {
        read_as(addr != DIVIDER, v, self.mmu.peek(addr))
    }

    /// `v` is what reading 0xFF00 plus C gave.
    pub open spec fn port_read(&self, v: u8) -> bool {
        self.mem_read((0xFF00 + self.regs.c) as u16, v)
    }

    /// `v` is what reading 0xFF00 plus the immediate byte gave.
    pub open spec fn high_imm_read(&self, v: u8) -> bool {
        read_as(self.imm8_known() && self.imm8() != 0x04, v, self.mmu.peek((0xFF00 + self.imm8()) as u16))
    }

    /// `v` is what reading the byte at the immediate address gave.
    pub open spec fn abs_read(&self, v: u8) -> bool {
        read_as(self.imm16_known() && self.imm16() != DIVIDER, v, self.mmu.peek(self.imm16()))
    }

    /// `t` is what popping the top of the stack gave.
    pub open spec fn top_read(&self, t: u16) -> bool {
        read_as(top_known(self.regs), t, top_of(self.regs, &self.mmu))
    }

    /// Only the register file may differ from `other`.
    pub open spec fn same_but_regs(&self, other: &Cpu) -> bool {
        &&& self.mmu == other.mmu
        &&& self.ints == other.ints
        &&& self.halted == other.halted
        &&& self.stopped == other.stopped
        &&& self.ticks == other.ticks
    }

    /// Only the register file and the bus may differ from `other`.
    pub open spec fn same_but_state(&self, other: &Cpu) -> bool {
        &&& self.ints == other.ints
        &&& self.halted == other.halted
        &&& self.stopped == other.stopped
        &&& self.ticks == other.ticks
    }

    /// `(regs, mmu)` is the state of `prev` after `val` was stored to operand
    /// `z`, the register file being `base` otherwise.
    pub open spec fn stored(&self, prev: &Cpu, base: Registers, z: u8, val: u8) -> bool {
        if z == 6 {
            self.regs == base && self.mmu.written_by(&prev.mmu, prev.hl(), val)
        } else {
            self.regs == base.with_r8(reg_of(z), val) && self.mmu == prev.mmu
        }
    }

    pub fn new(registers: Registers, mmu: Mmu, ints: Interrupts) -> (c: Cpu)
        ensures
            c.regs == registers,
            c.mmu == mmu,
            c.ints == ints,
            !c.halted,
            !c.stopped,
            c.ticks == 0,
    {
        Cpu { regs: registers, mmu, ints, halted: false, stopped: false, ticks: 0 }
    }

    /// Reads the byte at the program counter and steps past it.
    fn read_arg8(&mut self) -> (v: u8)
        requires
            old(self).wf(),
        ensures
            final(self).wf(),
            final(self).same_but_regs(old(self)),
            final(self).regs == old(self).regs.with_r16(Reg16::PC, add_wrap(old(self).regs.pc, 1)),
            old(self).imm8_known() ==> v == old(self).imm8(),
    {
        let pc = self.regs.pc;
        let v = self.mmu.read8(pc);
        self.regs.write_r16(Reg16::PC, pc.wrapping_add(1));
        v
    }

    /// Reads the little-endian word at the program counter and steps past it.
    fn read_arg16(&mut self) -> (v: u16)
        requires
            old(self).wf(),
        ensures
            final(self).wf(),
            final(self).same_but_regs(old(self)),
            final(self).regs == old(self).regs.with_r16(Reg16::PC, add_wrap(old(self).regs.pc, 2)),
            old(self).imm16_known() ==> v == old(self).imm16(),
    {
        let pc = self.regs.pc;
        let v = self.mmu.read16(pc);
        self.regs.write_r16(Reg16::PC, pc.wrapping_add(2));
        v
    }

    /// Reads operand `z`.
    fn get_operand(&self, z: u8) -> (v: u8)
        requires
            self.wf(),
            z < 8,
        ensures
            self.operand_known(z) ==> v == self.operand(z),
    {
        if z == 6 {
            let hl = self.regs.read_r16(Reg16::HL);
            self.mmu.read8(hl)
        } else {
            self.regs.read_r8(reg_of_code(z))
        }
    }

    /// Stores `val` to operand `z`.
    fn set_operand(&mut self, z: u8, val: u8)
        requires
            old(self).wf(),
            z < 8,
        ensures
            final(self).wf(),
            final(self).same_but_state(old(self)),
            final(self).stored(old(self), old(self).regs, z, val),
    {
        if z == 6 {
            let hl = self.regs.read_r16(Reg16::HL);
            self.mmu.write8(hl, val);
        } else {
            self.regs.write_r8(reg_of_code(z), val);
        }
    }

    /// Tells whether branch condition `cc` holds.
    fn check_condition(&self, cc: u8) -> (r: bool)
        requires
            self.wf(),
        ensures
            r == condition(self.regs.flags(), cc),
    {
        let fl = self.regs.get_flags();
        if cc == 0 {
            !fl.zero
        } else if cc == 1 {
            fl.zero
        } else if cc == 2 {
            !fl.carry
        } else {
            fl.carry
        }
    }
    /// The state after extended opcode `op` (read from `prev`'s program
    /// counter) on `prev`: rotates and shifts, bit tests, bit resets and bit
    /// sets of operand `op % 8`, whose value was read as `v`.
    pub open spec fn cb_result(&self, prev: &Cpu, op: u8, v: u8) -> bool {
        let r1 = prev.regs.with_r16(Reg16::PC, add_wrap(prev.regs.pc, 1));
        let y = (op / 8) % 8;
        let z = op % 8;
        let fl = prev.regs.flags();
        if op < 0x40 {
            let res = shift_spec(shift_op_of(y), v, fl.carry);
            self.stored(prev, r1.with_flags(res.flags), z, res.value)
        } else if op < 0x80 {
            self.regs == r1.with_flags(alu::bit_test_spec(y, v, fl)) && self.mmu == prev.mmu
        } else if op < 0xC0 {
            self.stored(prev, r1, z, v & !(1u8 << y))
        } else {
            self.stored(prev, r1, z, v | (1u8 << y))
        }
    }

    /// The state after extended opcode `op` on `prev`, for the value that
    /// reading its operand gave.
    pub open spec fn cb_effect(&self, prev: &Cpu, op: u8) -> bool {
        exists|v: u8| #[trigger] prev.operand_read(op % 8, v) && self.cb_result(prev, op, v)
    }

    /// Accumulator operation `y` with `v`.
    fn alu_a(&mut self, y: u8, v: u8)
        requires
            old(self).wf(),
        ensures
            final(self).wf(),
            final(self).same_but_regs(old(self)),
            final(self).regs == with_result(old(self).regs, alu_spec(y, old(self).regs.a, v, old(self).regs.flags())),
    {
        let fl = self.regs.get_flags();
        let r = alu_op(y, self.regs.a, v, fl);
        self.regs.a = r.value;
        self.regs.set_flags(r.flags);
    }

    /// Loads operand `z` into operand `y`.
    fn ld_operands(&mut self, y: u8, z: u8)
        requires
            old(self).wf(),
            y < 8,
            z < 8,
        ensures
            final(self).wf(),
            final(self).same_but_state(old(self)),
            exists|v: u8|
                #[trigger] old(self).operand_read(z, v) && final(self).stored(
                    old(self),
                    old(self).regs,
                    y,
                    v,
                ),
    {
        let v = self.get_operand(z);
        assert(old(self).operand_read(z, v));
        self.set_operand(y, v);
        assert(old(self).operand_read(z, v) && self.stored(old(self), old(self).regs, y, v));
    }

    /// Increments operand `z`; carry is kept.
    fn inc_operand(&mut self, z: u8)
        requires
            old(self).wf(),
            z < 8,
        ensures
            final(self).wf(),
            final(self).same_but_state(old(self)),
            exists|v: u8|
                #[trigger] old(self).operand_read(z, v) && final(self).stored(
                    old(self),
                    old(self).regs.with_flags(inc_spec(v, old(self).regs.flags()).flags),
                    z,
                    inc_spec(v, old(self).regs.flags()).value,
                ),
    {
        let v = self.get_operand(z);
        assert(old(self).operand_read(z, v));
        let fl = self.regs.get_flags();
        let r = alu::inc(v, fl);
        self.regs.set_flags(r.flags);
        self.set_operand(z, r.value);
        assert(self.stored(
            old(self),
            old(self).regs.with_flags(inc_spec(v, old(self).regs.flags()).flags),
            z,
            inc_spec(v, old(self).regs.flags()).value,
        ));
    }

    /// Decrements operand `z`; carry is kept.
    fn dec_operand(&mut self, z: u8)
        requires
            old(self).wf(),
            z < 8,
        ensures
            final(self).wf(),
            final(self).same_but_state(old(self)),
            exists|v: u8|
                #[trigger] old(self).operand_read(z, v) && final(self).stored(
                    old(self),
                    old(self).regs.with_flags(dec_spec(v, old(self).regs.flags()).flags),
                    z,
                    dec_spec(v, old(self).regs.flags()).value,
                ),
    {
        let v = self.get_operand(z);
        assert(old(self).operand_read(z, v));
        let fl = self.regs.get_flags();
        let r = alu::dec(v, fl);
        self.regs.set_flags(r.flags);
        self.set_operand(z, r.value);
        assert(self.stored(
            old(self),
            old(self).regs.with_flags(dec_spec(v, old(self).regs.flags()).flags),
            z,
            dec_spec(v, old(self).regs.flags()).value,
        ));
    }

    /// Loads the immediate byte into operand `z`.
    fn ld_operand_n(&mut self, z: u8)
        requires
            old(self).wf(),
            z < 8,
        ensures
            final(self).wf(),
            final(self).same_but_state(old(self)),
            exists|n: u8|
                #[trigger] old(self).imm8_read(n) && final(self).stored(
                    old(self),
                    old(self).regs.with_r16(Reg16::PC, add_wrap(old(self).regs.pc, 1)),
                    z,
                    n,
                ),
    {
        let n = self.read_arg8();
        assert(old(self).imm8_read(n));
        self.set_operand(z, n);
        assert(self.stored(old(self), old(self).regs.with_r16(Reg16::PC, add_wrap(old(self).regs.pc, 1)), z, n));
    }

    /// A rotate of the accumulator; zero is cleared.
    fn rotate_acc(&mut self, op: ShiftOp)
        requires
            old(self).wf(),
        ensures
            final(self).wf(),
            final(self).same_but_regs(old(self)),
            final(self).regs == with_result(old(self).regs, rotate_a_spec(op, old(self).regs.a, old(self).regs.flags().carry)),
    {
        let fl = self.regs.get_flags();
        let r = alu::rotate_a(op, self.regs.a, fl.carry);
        self.regs.a = r.value;
        self.regs.set_flags(r.flags);
    }

    fn ld_r16_nn(&mut self, r: Reg16)
        requires
            old(self).wf(),
        ensures
            final(self).wf(),
            final(self).same_but_regs(old(self)),
            exists|nn: u16|
                #[trigger] old(self).imm16_read(nn) && final(self).regs == old(
                    self,
                ).regs.with_r16(Reg16::PC, add_wrap(old(self).regs.pc, 2)).with_r16(r, nn),
    {
        let nn = self.read_arg16();
        assert(old(self).imm16_read(nn));
        self.regs.write_r16(r, nn);
        assert(self.regs == old(self).regs.with_r16(Reg16::PC, add_wrap(old(self).regs.pc, 2)).with_r16(r, nn));
    }

    fn inc_r16(&mut self, r: Reg16)
        requires
            old(self).wf(),
            r != Reg16::AF,
        ensures
            final(self).wf(),
            final(self).same_but_regs(old(self)),
            final(self).regs == old(self).regs.with_r16(r, add_wrap(old(self).regs.r16(r), 1)),
    {
        let v = self.regs.read_r16(r).wrapping_add(1);
        self.regs.write_r16(r, v);
    }

    fn dec_r16(&mut self, r: Reg16)
        requires
            old(self).wf(),
            r != Reg16::AF,
        ensures
            final(self).wf(),
            final(self).same_but_regs(old(self)),
            final(self).regs == old(self).regs.with_r16(r, add_wrap(old(self).regs.r16(r), -1)),
    {
        let v = self.regs.read_r16(r).wrapping_sub(1);
        self.regs.write_r16(r, v);
    }

    /// HL plus a pair; zero is kept.
    fn add_hl_r16(&mut self, r: Reg16)
        requires
            old(self).wf(),
        ensures
            final(self).wf(),
            final(self).same_but_regs(old(self)),
            ({
                let res = add16_spec(old(self).hl(), old(self).regs.r16(r), old(self).regs.flags());
                final(self).regs == old(self).regs.with_r16(Reg16::HL, res.value).with_flags(res.flags)
            }),
    {
        let hl = self.regs.read_r16(Reg16::HL);
        let v = self.regs.read_r16(r);
        let fl = self.regs.get_flags();
        let res = alu::add16(hl, v, fl);
        self.regs.write_r16(Reg16::HL, res.value);
        self.regs.set_flags(res.flags);
    }

    /// Stores A at the address in a pair.
    fn ld_r16_ptr_a(&mut self, r: Reg16)
        requires
            old(self).wf(),
        ensures
            final(self).wf(),
            final(self).same_but_state(old(self)),
            final(self).regs == old(self).regs,
            final(self).mmu.written_by(&old(self).mmu, old(self).regs.r16(r), old(self).regs.a),
    {
        let addr = self.regs.read_r16(r);
        let a = self.regs.a;
        self.mmu.write8(addr, a);
    }

    /// Loads A from the address in a pair.
    fn ld_a_r16_ptr(&mut self, r: Reg16)
        requires
            old(self).wf(),
        ensures
            final(self).wf(),
            final(self).same_but_regs(old(self)),
            exists|v: u8|
                #[trigger] old(self).mem_read(old(self).regs.r16(r), v)
                    && final(self).regs == old(self).regs.with_r8(Reg8::A, v),
    {
        let addr = self.regs.read_r16(r);
        let v = self.mmu.read8(addr);
        assert(old(self).mem_read(addr, v));
        self.regs.write_r8(Reg8::A, v);
        assert(self.regs == old(self).regs.with_r8(Reg8::A, v));
    }

    /// Stores A at HL, then moves HL one up or down.
    fn ld_hlptr_a_step(&mut self, up: bool)
        requires
            old(self).wf(),
        ensures
            final(self).wf(),
            final(self).same_but_state(old(self)),
            final(self).regs == old(self).regs.with_r16(Reg16::HL, add_wrap(old(self).hl(), if up { 1 } else { -1 })),
            final(self).mmu.written_by(&old(self).mmu, old(self).hl(), old(self).regs.a),
    {
        let hl = self.regs.read_r16(Reg16::HL);
        let a = self.regs.a;
        self.mmu.write8(hl, a);
        let next = if up { hl.wrapping_add(1) } else { hl.wrapping_sub(1) };
        self.regs.write_r16(Reg16::HL, next);
    }

    /// Loads A from HL, then moves HL by one up or down.
    fn ld_a_hlptr_step(&mut self, up: bool)
        requires
            old(self).wf(),
        ensures
            final(self).wf(),
            final(self).same_but_regs(old(self)),
            exists|v: u8|
                #[trigger] old(self).mem_read(old(self).hl(), v) && final(self).regs
                    == old(self).regs.with_r8(Reg8::A, v).with_r16(
                    Reg16::HL,
                    add_wrap(old(self).hl(), if up { 1 } else { -1 }),
                ),
    {
        let hl = self.regs.read_r16(Reg16::HL);
        let v = self.mmu.read8(hl);
        assert(old(self).mem_read(hl, v));
        self.regs.write_r8(Reg8::A, v);
        let next = if up { hl.wrapping_add(1) } else { hl.wrapping_sub(1) };
        self.regs.write_r16(Reg16::HL, next);
        assert(self.regs == old(self).regs.with_r8(Reg8::A, v).with_r16(
            Reg16::HL,
            add_wrap(old(self).hl(), if up { 1 } else { -1 }),
        ));
    }

    /// Stores SP at the immediate address.
    fn ld_nn_ptr_sp(&mut self)
        requires
            old(self).wf(),
        ensures
            final(self).wf(),
            final(self).same_but_state(old(self)),
            final(self).regs == old(self).regs.with_r16(Reg16::PC, add_wrap(old(self).regs.pc, 2)),
            exists|nn: u16|
                #[trigger] old(self).imm16_read(nn) && final(self).mmu.written16_by(
                    &old(self).mmu,
                    nn,
                    old(self).regs.sp,
                ),
    {
        let addr = self.read_arg16();
        assert(old(self).imm16_read(addr));
        let sp = self.regs.sp;
        self.mmu.write16(addr, sp);
        assert(self.mmu.written16_by(&old(self).mmu, addr, old(self).regs.sp));
    }

    /// Reads a signed offset and, when `taken`, jumps by it.
    #[verifier::rlimit(40)]
    fn jump_relative(&mut self, taken: bool)
        requires
            old(self).wf(),
        ensures
            final(self).wf(),
            final(self).same_but_regs(old(self)),
            !taken ==> final(self).regs == old(self).regs.with_r16(Reg16::PC, add_wrap(old(self).regs.pc, 1)),
            taken ==> exists|e: u8|
                #[trigger] old(self).imm8_read(e) && final(self).regs == old(self).regs.with_r16(
                    Reg16::PC,
                    relative_target(add_wrap(old(self).regs.pc, 1), e),
                ),
    {
        let e = self.read_arg8();
        assert(old(self).imm8_read(e));
        if taken {
            let pc = self.regs.pc;
            let target: u16 = if e < 128 {
                pc.wrapping_add(e as u16)
            } else {
                pc.wrapping_sub(256 - e as u16)
            };
            self.regs.write_r16(Reg16::PC, target);
            assert(self.regs == old(self).regs.with_r16(Reg16::PC, relative_target(add_wrap(old(self).regs.pc, 1), e)));
        }
    }

    /// Reads an address and, when `taken`, jumps to it.
    fn jump_absolute(&mut self, taken: bool)
        requires
            old(self).wf(),
        ensures
            final(self).wf(),
            final(self).same_but_regs(old(self)),
            !taken ==> final(self).regs == old(self).regs.with_r16(Reg16::PC, add_wrap(old(self).regs.pc, 2)),
            taken ==> exists|nn: u16|
                #[trigger] old(self).imm16_read(nn) && final(self).regs == old(
                    self,
                ).regs.with_r16(Reg16::PC, nn),
    {
        let nn = self.read_arg16();
        assert(old(self).imm16_read(nn));
        if taken {
            self.regs.write_r16(Reg16::PC, nn);
            assert(self.regs == old(self).regs.with_r16(Reg16::PC, nn));
        }
    }

    /// Reads an address and, when `taken`, pushes the program counter and
    /// jumps to it.
    fn call_if(&mut self, taken: bool)
        requires
            old(self).wf(),
        ensures
            final(self).wf(),
            final(self).same_but_state(old(self)),
            !taken ==> final(self).regs == old(self).regs.with_r16(Reg16::PC, add_wrap(old(self).regs.pc, 2))
                && final(self).mmu == old(self).mmu,
            taken ==> exists|nn: u16|
                #[trigger] old(self).imm16_read(nn) && final(self).called(
                    old(self),
                    old(self).regs.with_r16(Reg16::PC, add_wrap(old(self).regs.pc, 2)),
                    nn,
                ),
    {
        let nn = self.read_arg16();
        assert(old(self).imm16_read(nn));
        if taken {
            let pc = self.regs.pc;
            push_u16(&mut self.regs, &mut self.mmu, pc);
            self.regs.write_r16(Reg16::PC, nn);
            assert(self.called(old(self), old(self).regs.with_r16(Reg16::PC, add_wrap(old(self).regs.pc, 2)), nn));
        }
    }

    /// When `taken`, pops the program counter.
    fn return_if(&mut self, taken: bool)
        requires
            old(self).wf(),
        ensures
            final(self).wf(),
            final(self).same_but_regs(old(self)),
            !taken ==> final(self).regs == old(self).regs,
            taken ==> exists|t: u16|
                #[trigger] old(self).top_read(t) && Cpu::returned_to(
                    old(self).regs,
                    t,
                ) == final(self).regs,
    {
        if taken {
            let pc = pop_u16(&mut self.regs, &self.mmu);
            assert(old(self).top_read(pc));
            self.regs.write_r16(Reg16::PC, pc);
            assert(Cpu::returned_to(old(self).regs, pc) == self.regs);
        }
    }

    /// Pushes the program counter and jumps to `addr`.
    fn rst(&mut self, addr: u16)
        requires
            old(self).wf(),
        ensures
            final(self).wf(),
            final(self).same_but_state(old(self)),
            final(self).regs == old(self).regs.with_r16(Reg16::SP, sp_below(old(self).regs)).with_r16(Reg16::PC, addr),
            final(self).mmu.written16_by(&old(self).mmu, sp_below(old(self).regs), old(self).regs.pc),
    {
        let pc = self.regs.pc;
        push_u16(&mut self.regs, &mut self.mmu, pc);
        self.regs.write_r16(Reg16::PC, addr);
    }

    /// Pushes a register pair.
    pub fn push_r16(&mut self, r: Reg16)
        requires
            old(self).wf(),
        ensures
            final(self).wf(),
            final(self).same_but_state(old(self)),
            pushed(old(self).regs, &old(self).mmu, old(self).regs.r16(r), final(self).regs, &final(self).mmu),
    {
        let v = self.regs.read_r16(r);
        push_u16(&mut self.regs, &mut self.mmu, v);
    }

    /// Pops into a register pair.
    pub fn pop_r16(&mut self, r: Reg16)
        requires
            old(self).wf(),
        ensures
            final(self).wf(),
            final(self).same_but_regs(old(self)),
            exists|t: u16|
                #[trigger] old(self).top_read(t) && final(self).regs
                    == old(self).regs.with_r16(Reg16::SP, sp_above(old(self).regs)).with_r16(r, t),
    {
        let v = pop_u16(&mut self.regs, &self.mmu);
        assert(old(self).top_read(v));
        self.regs.write_r16(r, v);
        assert(self.regs == old(self).regs.with_r16(Reg16::SP, sp_above(old(self).regs)).with_r16(r, v));
    }

    /// Stores A at 0xFF00 plus the immediate byte.
    fn ld_ff_n_a(&mut self)
        requires
            old(self).wf(),
        ensures
            final(self).wf(),
            final(self).same_but_state(old(self)),
            final(self).regs == old(self).regs.with_r16(Reg16::PC, add_wrap(old(self).regs.pc, 1)),
            exists|n: u8|
                #[trigger] old(self).imm8_read(n) && final(self).mmu.written_by(
                    &old(self).mmu,
                    (0xFF00 + n) as u16,
                    old(self).regs.a,
                ),
    {
        let n = self.read_arg8();
        assert(old(self).imm8_read(n));
        let a = self.regs.a;
        self.mmu.write8(0xFF00 + n as u16, a);
        assert(self.mmu.written_by(&old(self).mmu, (0xFF00 + n) as u16, old(self).regs.a));
    }

    /// Loads A from 0xFF00 plus the immediate byte.
    fn ld_a_ff_n(&mut self)
        requires
            old(self).wf(),
        ensures
            final(self).wf(),
            final(self).same_but_regs(old(self)),
            exists|v: u8|
                #[trigger] old(self).high_imm_read(v) && final(self).regs == old(self).regs.with_r16(Reg16::PC, add_wrap(old(self).regs.pc, 1)).with_r8(
                    Reg8::A,
                    v,
                ),
    {
        let n = self.read_arg8();
        assert(old(self).imm8_read(n));
        let v = self.mmu.read8(0xFF00 + n as u16);
        assert(old(self).high_imm_read(v));
        self.regs.write_r8(Reg8::A, v);
        assert(self.regs == old(self).regs.with_r16(Reg16::PC, add_wrap(old(self).regs.pc, 1)).with_r8(Reg8::A, v));
    }

    /// Stores A at 0xFF00 plus C.
    fn ld_ff_c_a(&mut self)
        requires
            old(self).wf(),
        ensures
            final(self).wf(),
            final(self).same_but_state(old(self)),
            final(self).regs == old(self).regs,
            final(self).mmu.written_by(&old(self).mmu, (0xFF00 + old(self).regs.c) as u16, old(self).regs.a),
    {
        let c = self.regs.c;
        let a = self.regs.a;
        self.mmu.write8(0xFF00 + c as u16, a);
    }

    /// Loads A from 0xFF00 plus C.
    fn ld_a_ff_c(&mut self)
        requires
            old(self).wf(),
        ensures
            final(self).wf(),
            final(self).same_but_regs(old(self)),
            exists|v: u8|
                #[trigger] old(self).port_read(v)
                    && final(self).regs == old(self).regs.with_r8(Reg8::A, v),
    {
        let c = self.regs.c;
        let v = self.mmu.read8(0xFF00 + c as u16);
        assert(old(self).port_read(v));
        self.regs.write_r8(Reg8::A, v);
        assert(self.regs == old(self).regs.with_r8(Reg8::A, v));
    }

    /// Stores A at the immediate address.
    fn ld_nn_ptr_a(&mut self)
        requires
            old(self).wf(),
        ensures
            final(self).wf(),
            final(self).same_but_state(old(self)),
            final(self).regs == old(self).regs.with_r16(Reg16::PC, add_wrap(old(self).regs.pc, 2)),
            exists|nn: u16|
                #[trigger] old(self).imm16_read(nn) && final(self).mmu.written_by(
                    &old(self).mmu,
                    nn,
                    old(self).regs.a,
                ),
    {
        let nn = self.read_arg16();
        assert(old(self).imm16_read(nn));
        let a = self.regs.a;
        self.mmu.write8(nn, a);
        assert(self.mmu.written_by(&old(self).mmu, nn, old(self).regs.a));
    }

    /// Loads A from the immediate address.
    fn ld_a_nnptr(&mut self)
        requires
            old(self).wf(),
        ensures
            final(self).wf(),
            final(self).same_but_regs(old(self)),
            exists|v: u8|
                #[trigger] old(self).abs_read(v) && final(self).regs == old(self).regs.with_r16(Reg16::PC, add_wrap(old(self).regs.pc, 2)).with_r8(
                    Reg8::A,
                    v,
                ),
    {
        let nn = self.read_arg16();
        assert(old(self).imm16_read(nn));
        let v = self.mmu.read8(nn);
        assert(old(self).abs_read(v));
        self.regs.write_r8(Reg8::A, v);
        assert(self.regs == old(self).regs.with_r16(Reg16::PC, add_wrap(old(self).regs.pc, 2)).with_r8(Reg8::A, v));
    }

    /// SP plus the signed immediate byte, into SP (`to_hl` false) or HL.
    fn sp_offset(&mut self, to_hl: bool)
        requires
            old(self).wf(),
        ensures
            final(self).wf(),
            final(self).same_but_regs(old(self)),
            exists|e: u8|
                #[trigger] old(self).imm8_read(e) && final(self).regs == old(self).regs.with_r16(
                    Reg16::PC,
                    add_wrap(old(self).regs.pc, 1),
                ).with_r16(
                    if to_hl { Reg16::HL } else { Reg16::SP },
                    add_sp_spec(old(self).regs.sp, e).value,
                ).with_flags(add_sp_spec(old(self).regs.sp, e).flags),
    {
        let e = self.read_arg8();
        assert(old(self).imm8_read(e));
        let res = alu::add_sp(self.regs.sp, e);
        if to_hl {
            self.regs.write_r16(Reg16::HL, res.value);
        } else {
            self.regs.write_r16(Reg16::SP, res.value);
        }
        self.regs.set_flags(res.flags);
        assert(self.regs == old(self).regs.with_r16(Reg16::PC, add_wrap(old(self).regs.pc, 1)).with_r16(
            if to_hl { Reg16::HL } else { Reg16::SP },
            add_sp_spec(old(self).regs.sp, e).value,
        ).with_flags(add_sp_spec(old(self).regs.sp, e).flags));
    }

    fn ld_sp_hl(&mut self)
        requires
            old(self).wf(),
        ensures
            final(self).wf(),
            final(self).same_but_regs(old(self)),
            final(self).regs == old(self).regs.with_r16(Reg16::SP, old(self).hl()),
    {
        let hl = self.regs.read_r16(Reg16::HL);
        self.regs.write_r16(Reg16::SP, hl);
    }

    fn jp_hl(&mut self)
        requires
            old(self).wf(),
        ensures
            final(self).wf(),
            final(self).same_but_regs(old(self)),
            final(self).regs == old(self).regs.with_r16(Reg16::PC, old(self).hl()),
    {
        let hl = self.regs.read_r16(Reg16::HL);
        self.regs.write_r16(Reg16::PC, hl);
    }

    /// Decimal adjustment of A.
    fn daa(&mut self)
        requires
            old(self).wf(),
        ensures
            final(self).wf(),
            final(self).same_but_regs(old(self)),
            final(self).regs == with_result(old(self).regs, daa_spec(old(self).regs.a, old(self).regs.flags())),
    {
        let fl = self.regs.get_flags();
        let r = alu::daa(self.regs.a, fl);
        self.regs.a = r.value;
        self.regs.set_flags(r.flags);
    }

    /// Complements A; sets negative and half-carry.
    fn cpl(&mut self)
        requires
            old(self).wf(),
        ensures
            final(self).wf(),
            final(self).same_but_regs(old(self)),
            final(self).regs == (Registers { a: !old(self).regs.a, ..old(self).regs }).with_flags(
                FlagSet { negative: true, half_carry: true, ..old(self).regs.flags() },
            ),
    {
        let fl = self.regs.get_flags();
        self.regs.a = !self.regs.a;
        self.regs.set_flags(FlagSet { negative: true, half_carry: true, ..fl });
    }

    /// Sets carry, or complements it; clears negative and half-carry.
    fn set_or_flip_carry(&mut self, flip: bool)
        requires
            old(self).wf(),
        ensures
            final(self).wf(),
            final(self).same_but_regs(old(self)),
            final(self).regs == old(self).regs.with_flags(
                FlagSet {
                    negative: false,
                    half_carry: false,
                    carry: if flip { !old(self).regs.flags().carry } else { true },
                    ..old(self).regs.flags()
                },
            ),
    {
        let fl = self.regs.get_flags();
        let carry = if flip { !fl.carry } else { true };
        self.regs.set_flags(FlagSet { negative: false, half_carry: false, carry, ..fl });
    }

    /// Halts when interrupts are enabled; else steps over the next byte.
    fn halt(&mut self)
        requires
            old(self).wf(),
        ensures
            final(self).wf(),
            final(self).mmu == old(self).mmu,
            final(self).ints == old(self).ints,
            final(self).stopped == old(self).stopped,
            final(self).ticks == old(self).ticks,
            old(self).ints.master ==> final(self).halted && final(self).regs == old(self).regs,
            !old(self).ints.master ==> final(self).halted == old(self).halted && final(self).regs
                == old(self).regs.with_r16(Reg16::PC, add_wrap(old(self).regs.pc, 1)),
    {
        if self.ints.master {
            self.halted = true;
        } else {
            let pc = self.regs.pc.wrapping_add(1);
            self.regs.write_r16(Reg16::PC, pc);
        }
    }

    fn stop(&mut self)
        ensures
            final(self).stopped,
            final(self).regs == old(self).regs,
            final(self).mmu == old(self).mmu,
            final(self).ints == old(self).ints,
            final(self).halted == old(self).halted,
            final(self).ticks == old(self).ticks,
    {
        self.stopped = true;
    }

    /// Executes the extended opcode at the program counter; gives its cycles.
    fn cb(&mut self) -> (cycles: u32)
        requires
            old(self).wf(),
        ensures
            final(self).wf(),
            final(self).same_but_state(old(self)),
            exists|op: u8|
                #[trigger] old(self).imm8_read(op) && cycles == cb_ticks()[op as int]
                    && final(self).cb_effect(old(self), op),
    {
        let op = self.read_arg8();
        assert(old(self).imm8_read(op));
        let y = (op / 8) % 8;
        let z = op % 8;
        let v = self.get_operand(z);
        assert(old(self).operand_read(z, v));
        let fl = self.regs.get_flags();
        if op < 0x40 {
            let r = alu::shift(shift_op_of_code(y), v, fl.carry);
            self.regs.set_flags(r.flags);
            self.set_operand(z, r.value);
        } else if op < 0x80 {
            let f = alu::bit_test(y, v, fl);
            self.regs.set_flags(f);
        } else if op < 0xC0 {
            self.set_operand(z, v & !(1u8 << y));
        } else {
            self.set_operand(z, v | (1u8 << y));
        }
        assert(self.cb_result(old(self), op, v));
        assert(self.cb_effect(old(self), op));
        cb_cycles(op)
    }
    /// The latches and the interrupt controller after opcode `op` on `prev`:
    /// STOP sets the stop latch, HALT with interrupts enabled the halt latch,
    /// DI clears the master enable, EI and RETI set it.
    pub open spec fn latches_after(&self, prev: &Cpu, op: u8) -> bool {
        &&& self.stopped == (op == 0x10 || prev.stopped)
        &&& self.halted == ((op == 0x76 && prev.ints.master) || prev.halted)
        &&& self.ints == (if op == 0xF3 {
            Interrupts { master: false }
        } else if op == 0xFB || op == 0xD9 {
            Interrupts { master: true }
        } else {
            prev.ints
        })
    }

    /// The effect of an opcode of the first quarter of the table (below
    /// 0x40) on `prev`, the program counter standing past the opcode. A
    /// value read from the unpredictable register is any value.
    pub open spec fn executed_low(&self, prev: &Cpu, op: u8) -> bool {
        let r0 = prev.regs;
        let fl = r0.flags();
        let y = (op / 8) % 8;
        let z = op % 8;
        let pc1 = add_wrap(r0.pc, 1);
        let pc2 = add_wrap(r0.pc, 2);
        let hl = prev.hl();
        let k8 = prev.imm8_known();
        let k16 = prev.imm16_known();
        let same_mmu = self.mmu == prev.mmu;
        &&& self.latches_after(prev, op)
        &&& if z == 0 {
            if y == 0 || y == 2 {
                self.regs == r0 && same_mmu
            } else if y == 1 {
                &&& self.regs == r0.with_r16(Reg16::PC, pc2)
                &&& exists|nn: u16| #[trigger] prev.imm16_read(nn) && self.mmu.written16_by(&prev.mmu, nn, r0.sp)
            } else if y == 3 || condition(fl, (y - 4) as u8) {
                &&& same_mmu
                &&& exists|e: u8| #[trigger] prev.imm8_read(e) && self.regs == r0.with_r16(
                    Reg16::PC,
                    relative_target(pc1, e),
                )
            } else {
                same_mmu && self.regs == r0.with_r16(Reg16::PC, pc1)
            }
        } else if z == 1 {
            &&& same_mmu
            &&& y % 2 == 0 ==> exists|nn: u16| #[trigger] prev.imm16_read(nn) && self.regs == r0.with_r16(
                Reg16::PC,
                pc2,
            ).with_r16(pair_of(y / 2), nn)
            &&& y % 2 == 1 ==> {
                let res = add16_spec(hl, r0.r16(pair_of(y / 2)), fl);
                self.regs == r0.with_r16(Reg16::HL, res.value).with_flags(res.flags)
            }
        } else if z == 2 {
            let addr = if y < 2 { r0.r16(Reg16::BC) } else if y < 4 { r0.r16(Reg16::DE) } else { hl };
            let r_hl = if y < 4 { r0 } else { r0.with_r16(Reg16::HL, add_wrap(hl, if y < 6 { 1 } else { -1 })) };
            if y % 2 == 0 {
                self.regs == r_hl && self.mmu.written_by(&prev.mmu, addr, r0.a)
            } else {
                &&& same_mmu
                &&& y == 1 ==> exists|v: u8| #[trigger] prev.mem_read(r0.r16(Reg16::BC), v) && self.regs == r0.with_r8(Reg8::A, v)
                &&& y == 3 ==> exists|v: u8| #[trigger] prev.mem_read(r0.r16(Reg16::DE), v) && self.regs == r0.with_r8(Reg8::A, v)
                &&& y >= 5 ==> exists|v: u8| #[trigger] prev.mem_read(hl, v) && self.regs == r0.with_r8(Reg8::A, v).with_r16(
                    Reg16::HL,
                    add_wrap(hl, if y == 5 { 1 } else { -1 }),
                )
            }
        } else if z == 3 {
            same_mmu && self.regs == r0.with_r16(
                pair_of(y / 2),
                add_wrap(r0.r16(pair_of(y / 2)), if y % 2 == 0 { 1 } else { -1 }),
            )
        } else if z == 4 {
            exists|v: u8| #[trigger] prev.operand_read(y, v) && self.stored(
                prev,
                r0.with_flags(inc_spec(v, fl).flags),
                y,
                inc_spec(v, fl).value,
            )
        } else if z == 5 {
            exists|v: u8| #[trigger] prev.operand_read(y, v) && self.stored(
                prev,
                r0.with_flags(dec_spec(v, fl).flags),
                y,
                dec_spec(v, fl).value,
            )
        } else if z == 6 {
            exists|n: u8| #[trigger] prev.imm8_read(n) && self.stored(prev, r0.with_r16(Reg16::PC, pc1), y, n)
        } else {
            &&& same_mmu
            &&& y < 4 ==> self.regs == with_result(r0, rotate_a_spec(shift_op_of(y), r0.a, fl.carry))
            &&& y == 4 ==> self.regs == with_result(r0, daa_spec(r0.a, fl))
            &&& y == 5 ==> self.regs == (Registers { a: !r0.a, ..r0 }).with_flags(
                FlagSet { negative: true, half_carry: true, ..fl },
            )
            &&& y >= 6 ==> self.regs == r0.with_flags(
                FlagSet { negative: false, half_carry: false, carry: if y == 7 { !fl.carry } else { true }, ..fl },
            )
        }
    }

    /// The state after a call to `target` from `prev`, the register file
    /// being `r` (whose program counter is the return address) before the
    /// push.
    pub open spec fn called(&self, prev: &Cpu, r: Registers, target: u16) -> bool {
        &&& self.regs == r.with_r16(Reg16::SP, sp_below(r)).with_r16(Reg16::PC, target)
        &&& self.mmu.written16_by(&prev.mmu, sp_below(r), r.pc)
    }

    /// The register file `r` after a return to `t`.
    pub open spec fn returned_to(r: Registers, t: u16) -> Registers {
        r.with_r16(Reg16::SP, sp_above(r)).with_r16(Reg16::PC, t)
    }

    /// The register file after a return from `prev`, for the address that
    /// the pop read.
    pub open spec fn returned(&self, prev: &Cpu) -> bool {
        exists|t: u16| #[trigger] prev.top_read(t) && Cpu::returned_to(prev.regs, t) == self.regs
    }

    /// The effect of an opcode of the last quarter of the table (from 0xC0,
    /// but the prefix) on `prev`, the program counter standing past the
    /// opcode. A value read from the unpredictable register is any value.
    pub open spec fn executed_high(&self, prev: &Cpu, op: u8) -> bool {
        let r0 = prev.regs;
        let fl = r0.flags();
        let y = (op / 8) % 8;
        let z = op % 8;
        let pc1 = add_wrap(r0.pc, 1);
        let pc2 = add_wrap(r0.pc, 2);
        let r1 = r0.with_r16(Reg16::PC, pc1);
        let r2 = r0.with_r16(Reg16::PC, pc2);
        let hl = prev.hl();
        let k8 = prev.imm8_known();
        let k16 = prev.imm16_known();
        let same_mmu = self.mmu == prev.mmu;
        &&& self.latches_after(prev, op)
        &&& if z == 0 {
            if y < 4 {
                &&& same_mmu
                &&& !condition(fl, y) ==> self.regs == r0
                &&& condition(fl, y) ==> self.returned(prev)
            } else if y == 4 {
                &&& self.regs == r1
                &&& exists|n: u8| #[trigger] prev.imm8_read(n) && self.mmu.written_by(
                    &prev.mmu,
                    (0xFF00 + n) as u16,
                    r0.a,
                )
            } else if y == 6 {
                &&& same_mmu
                &&& exists|v: u8| #[trigger] prev.high_imm_read(v)
                    && self.regs == r1.with_r8(Reg8::A, v)
            } else {
                &&& same_mmu
                &&& exists|e: u8| #[trigger] prev.imm8_read(e) && self.regs == r1.with_r16(
                    if y == 7 { Reg16::HL } else { Reg16::SP },
                    add_sp_spec(r0.sp, e).value,
                ).with_flags(add_sp_spec(r0.sp, e).flags)
            }
        } else if z == 1 {
            &&& same_mmu
            &&& y % 2 == 0 ==> exists|t: u16| #[trigger] prev.top_read(t) && self.regs
                == r0.with_r16(Reg16::SP, sp_above(r0)).with_r16(stack_pair_of(y / 2), t)
            &&& (y == 1 || y == 3) ==> self.returned(prev)
            &&& y == 5 ==> self.regs == r0.with_r16(Reg16::PC, hl)
            &&& y == 7 ==> self.regs == r0.with_r16(Reg16::SP, hl)
        } else if z == 2 {
            if y < 4 {
                &&& same_mmu
                &&& !condition(fl, y) ==> self.regs == r2
                &&& condition(fl, y) ==> exists|nn: u16| #[trigger] prev.imm16_read(nn) && self.regs == r0.with_r16(
                    Reg16::PC,
                    nn,
                )
            } else if y == 4 {
                self.regs == r0 && self.mmu.written_by(&prev.mmu, (0xFF00 + r0.c) as u16, r0.a)
            } else if y == 5 {
                &&& self.regs == r2
                &&& exists|nn: u16| #[trigger] prev.imm16_read(nn) && self.mmu.written_by(&prev.mmu, nn, r0.a)
            } else if y == 6 {
                &&& same_mmu
                &&& exists|v: u8| #[trigger] prev.port_read(v) && self.regs
                    == r0.with_r8(Reg8::A, v)
            } else {
                &&& same_mmu
                &&& exists|v: u8| #[trigger] prev.abs_read(v) && self.regs
                    == r2.with_r8(Reg8::A, v)
            }
        } else if z == 3 {
            &&& same_mmu
            &&& y == 0 ==> exists|nn: u16| #[trigger] prev.imm16_read(nn) && self.regs == r0.with_r16(
                Reg16::PC,
                nn,
            )
            &&& y != 0 ==> self.regs == r0
        } else if z == 4 || (z == 5 && y == 1) {
            if z == 5 || condition(fl, y) {
                exists|nn: u16| #[trigger] prev.imm16_read(nn) && self.called(prev, r2, nn)
            } else {
                self.regs == r2 && same_mmu
            }
        } else if z == 5 {
            pushed(r0, &prev.mmu, r0.r16(stack_pair_of(y / 2)), self.regs, &self.mmu)
        } else if z == 6 {
            &&& same_mmu
            &&& exists|n: u8| #[trigger] prev.imm8_read(n) && self.regs == with_result(r1, alu_spec(y, r0.a, n, fl))
        } else {
            self.called(prev, r0, (y as int * 8) as u16)
        }
    }

    /// The effect of primary opcode `op` on `prev`, the program counter
    /// standing past the opcode. A value read from the unpredictable
    /// register is any value.
    pub open spec fn executed(&self, prev: &Cpu, op: u8) -> bool {
        let r0 = prev.regs;
        let y = (op / 8) % 8;
        let z = op % 8;
        if op == 0xCB {
            &&& self.latches_after(prev, op)
            &&& exists|ext: u8| #[trigger] prev.imm8_read(ext) && self.cb_effect(prev, ext)
        } else if op == 0x76 {
            &&& self.latches_after(prev, op)
            &&& self.mmu == prev.mmu
            &&& self.regs == (if prev.ints.master { r0 } else { r0.with_r16(Reg16::PC, add_wrap(r0.pc, 1)) })
        } else if op < 0x40 {
            self.executed_low(prev, op)
        } else if op < 0x80 {
            &&& self.latches_after(prev, op)
            &&& exists|v: u8| #[trigger] prev.operand_read(z, v) && self.stored(prev, r0, y, v)
        } else if op < 0xC0 {
            &&& self.latches_after(prev, op)
            &&& self.mmu == prev.mmu
            &&& exists|v: u8| #[trigger] prev.operand_read(z, v) && self.regs == with_result(
                r0,
                alu_spec(y, r0.a, v, r0.flags()),
            )
        } else {
            self.executed_high(prev, op)
        }
    }

    /// Executes an opcode of the first quarter of the table; gives the
    /// cycles that a conditional branch adds.
    fn execute_low(&mut self, op: u8) -> (extra: u32)
        requires
            old(self).wf(),
            op < 0x40,
        ensures
            final(self).wf(),
            final(self).executed_low(old(self), op),
            final(self).ticks == old(self).ticks,
            extra == (if is_conditional(op) {
                branch_cycles(op, condition(old(self).regs.flags(), (op / 8) % 4))
            } else {
                0
            }),
    {
        let y = (op / 8) % 8;
        let z = op % 8;
        let mut extra: u32 = 0;
        if z == 0 {
            if y == 0 {
            } else if y == 1 {
                self.ld_nn_ptr_sp();
            } else if y == 2 {
                self.stop();
            } else if y == 3 {
                self.jump_relative(true);
            } else {
                let taken = self.check_condition(y - 4);
                self.jump_relative(taken);
                extra = if taken { 12 } else { 8 };
            }
        } else if z == 1 {
            if y % 2 == 0 {
                self.ld_r16_nn(pair_of_code(y / 2));
            } else {
                self.add_hl_r16(pair_of_code(y / 2));
            }
        } else if z == 2 {
            if y == 0 {
                self.ld_r16_ptr_a(Reg16::BC);
            } else if y == 1 {
                self.ld_a_r16_ptr(Reg16::BC);
            } else if y == 2 {
                self.ld_r16_ptr_a(Reg16::DE);
            } else if y == 3 {
                self.ld_a_r16_ptr(Reg16::DE);
            } else if y == 4 {
                self.ld_hlptr_a_step(true);
            } else if y == 5 {
                self.ld_a_hlptr_step(true);
            } else if y == 6 {
                self.ld_hlptr_a_step(false);
            } else {
                self.ld_a_hlptr_step(false);
            }
        } else if z == 3 {
            if y % 2 == 0 {
                self.inc_r16(pair_of_code(y / 2));
            } else {
                self.dec_r16(pair_of_code(y / 2));
            }
        } else if z == 4 {
            self.inc_operand(y);
        } else if z == 5 {
            self.dec_operand(y);
        } else if z == 6 {
            self.ld_operand_n(y);
        } else if y == 0 {
            self.rotate_acc(ShiftOp::Rlc);
        } else if y == 1 {
            self.rotate_acc(ShiftOp::Rrc);
        } else if y == 2 {
            self.rotate_acc(ShiftOp::Rl);
        } else if y == 3 {
            self.rotate_acc(ShiftOp::Rr);
        } else if y == 4 {
            self.daa();
        } else if y == 5 {
            self.cpl();
        } else if y == 6 {
            self.set_or_flip_carry(false);
        } else {
            self.set_or_flip_carry(true);
        }
        extra
    }

    /// Executes an opcode of the last quarter of the table, but the prefix;
    /// gives the cycles that a conditional branch adds.
    #[verifier::rlimit(60)]
    fn execute_high(&mut self, op: u8) -> (extra: u32)
        requires
            old(self).wf(),
            op >= 0xC0,
            op != 0xCB,
            is_defined(op),
        ensures
            final(self).wf(),
            final(self).executed_high(old(self), op),
            final(self).ticks == old(self).ticks,
            extra == (if is_conditional(op) {
                branch_cycles(op, condition(old(self).regs.flags(), (op / 8) % 4))
            } else {
                0
            }),
    {
        let y = (op / 8) % 8;
        let z = op % 8;
        let mut extra: u32 = 0;
        if z == 0 {
            if y < 4 {
                let taken = self.check_condition(y);
                self.return_if(taken);
                extra = if taken { 20 } else { 8 };
            } else if y == 4 {
                self.ld_ff_n_a();
            } else if y == 5 {
                self.sp_offset(false);
            } else if y == 6 {
                self.ld_a_ff_n();
            } else {
                self.sp_offset(true);
            }
        } else if z == 1 {
            if y % 2 == 0 {
                self.pop_r16(stack_pair_of_code(y / 2));
            } else if y == 1 {
                self.return_if(true);
            } else if y == 3 {
                self.return_if(true);
                self.ints.enable_interrupts();
            } else if y == 5 {
                self.jp_hl();
            } else {
                self.ld_sp_hl();
            }
        } else if z == 2 {
            if y < 4 {
                let taken = self.check_condition(y);
                self.jump_absolute(taken);
                extra = if taken { 16 } else { 12 };
            } else if y == 4 {
                self.ld_ff_c_a();
            } else if y == 5 {
                self.ld_nn_ptr_a();
            } else if y == 6 {
                self.ld_a_ff_c();
            } else {
                self.ld_a_nnptr();
            }
        } else if z == 3 {
            if y == 0 {
                self.jump_absolute(true);
            } else if y == 6 {
                self.ints.disable_interrupts();
            } else {
                self.ints.enable_interrupts();
            }
        } else if z == 4 {
            let taken = self.check_condition(y);
            self.call_if(taken);
            extra = if taken { 24 } else { 12 };
        } else if z == 5 {
            if y % 2 == 0 {
                self.push_r16(stack_pair_of_code(y / 2));
            } else {
                self.call_if(true);
            }
        } else if z == 6 {
            let n = self.read_arg8();
            assert(old(self).imm8_read(n));
            self.alu_a(y, n);
        } else {
            self.rst(y as u16 * 8);
        }
        extra
    }

    /// Executes primary opcode `instruction`, the program counter standing
    /// past it; gives the cycles it took, which are also added to `ticks`.
    pub fn execute(&mut self, instruction: u8) -> (cycles: u32)
        requires
            old(self).wf(),
            is_defined(instruction),
        ensures
            final(self).wf(),
            final(self).ticks == (old(self).ticks as int + cycles as int) % 0x1_0000_0000_0000_0000,
            instruction != 0xCB && !is_conditional(instruction) ==> cycles == op_ticks()[instruction as int],
            is_conditional(instruction) ==> cycles == op_ticks()[instruction as int] + branch_cycles(
                instruction,
                condition(old(self).regs.flags(), (instruction / 8) % 4),
            ),
            instruction == 0xCB ==> exists|ext: u8| #[trigger] old(self).imm8_read(ext) && cycles == cb_ticks()[ext as int],
            final(self).executed(old(self), instruction),
    {
        let op = instruction;
        let x = op / 64;
        let y = (op / 8) % 8;
        let z = op % 8;
        let mut extra: u32 = 0;
        let mut cycles: u32 = 0;
        if op == 0xCB {
            cycles = self.cb();
        } else if op == 0x76 {
            self.halt();
        } else if x == 1 {
            self.ld_operands(y, z);
        } else if x == 2 {
            let v = self.get_operand(z);
            assert(old(self).operand_read(z, v));
            self.alu_a(y, v);
        } else if x == 0 {
            extra = self.execute_low(op);
        } else {
            extra = self.execute_high(op);
        }
        if op != 0xCB {
            cycles = op_cycles(op) + extra;
        }
        self.ticks = self.ticks.wrapping_add(cycles as u64);
        cycles
    }
}

} // verus!
