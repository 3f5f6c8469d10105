//! The stack: 16-bit pushes and pops through the stack pointer.

use vstd::prelude::*;
use crate::mmu::{dma16_random, echo_of, Mmu, DIVIDER, DMA};
use crate::registers::{high_byte, join16, lemma_join_split, low_byte, Reg16, Registers};

verus! {

/// The stack pointer moved down by two.
pub open spec fn sp_below(r: Registers) -> u16 {
    ((r.sp as int + 65534) % 65536) as u16
}

/// The stack pointer moved up by two.
pub open spec fn sp_above(r: Registers) -> u16 {
    ((r.sp as int + 2) % 65536) as u16
}

/// `(r1, m1)` is `(r0, m0)` after `val` was pushed.
pub open spec fn pushed(r0: Registers, m0: &Mmu, val: u16, r1: Registers, m1: &Mmu) -> bool {
    &&& r1 == r0.with_r16(Reg16::SP, sp_below(r0))
    &&& m1.written16_by(m0, sp_below(r0), val)
}

/// The value on top of the stack, when neither of its bytes is the
/// unpredictable register.
pub open spec fn top_known(r: Registers) -> bool {
    r.sp != DIVIDER && r.sp.wrapping_add(1) != DIVIDER
}

pub open spec fn top_of(r: Registers, m: &Mmu) -> u16 {
    join16(m.peek(r.sp.wrapping_add(1)), m.peek(r.sp))
}

/// Pushes `val`: the stack pointer drops by two, then `val` is written there
/// little-endian.
pub fn push_u16(regs: &mut Registers, mmu: &mut Mmu, val: u16)
    requires
        old(regs).wf(),
        old(mmu).wf(),
    ensures
        final(regs).wf(),
        final(mmu).wf(),
        pushed(*old(regs), old(mmu), val, *final(regs), final(mmu)),
{
    let sp = regs.sp.wrapping_sub(2);
    regs.write_r16(Reg16::SP, sp);
    mmu.write16(sp, val);
}

/// Pops a value: it is read little-endian at the stack pointer, which then
/// rises by two.
pub fn pop_u16(regs: &mut Registers, mmu: &Mmu) -> (v: u16)
    requires
        old(regs).wf(),
        mmu.wf(),
    ensures
        final(regs).wf(),
        *final(regs) == old(regs).with_r16(Reg16::SP, sp_above(*old(regs))),
        top_known(*old(regs)) ==> v == top_of(*old(regs), mmu),
{
    let sp = regs.sp;
    let v = mmu.read16(sp);
    regs.write_r16(Reg16::SP, sp.wrapping_add(2));
    v
}

/// A write to `a` is read back as written: not ROM, not a register whose
/// read gives something else, not the copy trigger.
pub open spec fn stores_plainly(a: u16) -> bool {
    a > 0x7FFF && a != 0xFF00 && a != DIVIDER && a != 0xFF44 && a != DMA
}

/// A push followed by a pop gives back the pushed value and the stack
/// pointer from before the push, when both bytes of the slot store plainly.
pub proof fn lemma_push_pop(r0: Registers, m0: &Mmu, val: u16, r1: Registers, m1: &Mmu)
    requires
        r0.wf(),
        pushed(r0, m0, val, r1, m1),
        stores_plainly(sp_below(r0)),
        stores_plainly(sp_below(r0).wrapping_add(1)),
    ensures
        top_known(r1),
        top_of(r1, m1) == val,
        sp_above(r1) == r0.sp,
{
    let sp = sp_below(r0);
    let sp1 = sp.wrapping_add(1);
    assert(r1.sp == sp);
    assert(!dma16_random(sp, val, sp));
    assert(!dma16_random(sp, val, sp1));
    assert(echo_of(sp) != echo_of(sp1));
    assert(m1.peek(sp) == low_byte(val));
    assert(m1.peek(sp1) == high_byte(val));
    lemma_join_split(val);
}

/// Pushing a register pair and popping it into the same pair restores the
/// pair and the stack pointer, when both bytes of the slot store plainly.
pub proof fn lemma_push_pop_pair(r: Reg16, r0: Registers, m0: &Mmu, r1: Registers, m1: &Mmu, r2: Registers)
    requires
        r0.wf(),
        pushed(r0, m0, r0.r16(r), r1, m1),
        r2 == r1.with_r16(Reg16::SP, sp_above(r1)).with_r16(r, top_of(r1, m1)),
        stores_plainly(sp_below(r0)),
        stores_plainly(sp_below(r0).wrapping_add(1)),
    ensures
        r2.r16(r) == r0.r16(r),
        r2.sp == r0.sp,
{
    lemma_push_pop(r0, m0, r0.r16(r), r1, m1);
    let v = r0.r16(r);
    lemma_join_split(v);
    if r == Reg16::AF {
        let a = r0.a;
        let f = r0.f;
        assert(join16(a, f) & 0xFFF0 == join16(a, f)) by (bit_vector)
            requires
                f & 0x0F == 0,
                join16(a, f) == (a as int * 256 + f as int) as u16;
    }
}

} // verus!
