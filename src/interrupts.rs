//! The interrupt controller: five sources, serviced one per step in a fixed
//! order of priority.

use vstd::prelude::*;
use crate::mmu::{after_write16, dma16_random, Mmu, INTERRUPT_FLAG};
use crate::registers::{Reg16, Registers};
use crate::stack::{push_u16, sp_below};

verus! {

pub const VBLANK: u8 = 0x01;
pub const LCDSTAT: u8 = 0x02;
pub const TIMER: u8 = 0x04;
pub const SERIAL: u8 = 0x08;
pub const JOYPAD: u8 = 0x10;
/// The cycles that servicing an interrupt takes.
pub const SERVICE_CYCLES: u32 = 12;

/// The source to service among the requested and enabled bits `fire`: the
/// lowest of bits 0 to 4 that is set.
pub open spec fn first_source(fire: u8) -> Option<u8> {
    if fire & VBLANK != 0 {
        Some(0u8)
    } else if fire & LCDSTAT != 0 {
        Some(1u8)
    } else if fire & TIMER != 0 {
        Some(2u8)
    } else if fire & SERIAL != 0 {
        Some(3u8)
    } else if fire & JOYPAD != 0 {
        Some(4u8)
    } else {
        None
    }
}

/// The mask of source `i`.
pub open spec fn source_mask(i: u8) -> u8 {
    if i == 0 {
        VBLANK
    } else if i == 1 {
        LCDSTAT
    } else if i == 2 {
        TIMER
    } else if i == 3 {
        SERIAL
    } else {
        JOYPAD
    }
}

/// The address that servicing source `i` jumps to.
pub open spec fn vector_of(i: u8) -> u16 {
    (0x40 + 8 * i as int) as u16
}

/// The interrupt controller's own state: the master enable.
#[derive(Clone, Copy, Debug, PartialEq, Eq, Structural)]
pub struct Interrupts {
    pub master: bool,
}

/// `(r1, m1)` is `(r0, m0)` after source `i` was serviced: the program
/// counter pushed, the jump to its vector taken and its request cleared.
pub open spec fn serviced(r0: Registers, m0: &Mmu, i: u8, r1: Registers, m1: &Mmu) -> bool {
    let sp = sp_below(r0);
    &&& r1 == r0.with_r16(Reg16::SP, sp).with_r16(Reg16::PC, vector_of(i))
    &&& m1.same_timing(m0)
    &&& m1.interrupt_flag == m0.interrupt_flag & !source_mask(i)
    &&& forall|a: u16| a != INTERRUPT_FLAG && !dma16_random(sp, r0.pc, a) ==> #[trigger] m1.peek(a) == after_write16(m0, sp, r0.pc, a)
}

/// Sets the request byte to `flags` without `mask`; no other read changes.
fn clear_request(mmu: &mut Mmu, flags: u8, mask: u8)
    requires
        old(mmu).wf(),
    ensures
        final(mmu).wf(),
        final(mmu).same_timing(old(mmu)),
        final(mmu).interrupt_flag == flags & !mask,
        forall|a: u16| a != INTERRUPT_FLAG ==> #[trigger] final(mmu).peek(a) == old(mmu).peek(a),
{
    mmu.interrupt_flag = flags & !mask;
}

impl Interrupts {
    /// What one step does: with the master enable set and a source both
    /// requested and enabled, the first such source is serviced, the master
    /// enable cleared and the service cycles taken; else nothing changes.
    pub open spec fn stepped(
        i0: Interrupts,
        r0: Registers,
        m0: &Mmu,
        i1: Interrupts,
        r1: Registers,
        m1: &Mmu,
        cycles: u32,
    ) -> bool {
        match first_source(m0.interrupt_flag & m0.interrupt_enable) {
            Some(i) if i0.master => {
                &&& !i1.master
                &&& cycles == SERVICE_CYCLES
                &&& serviced(r0, m0, i, r1, m1)
            },
            _ => {
                &&& i1 == i0
                &&& r1 == r0
                &&& *m1 == *m0
                &&& cycles == 0
            },
        }
    }

    /// Interrupts start enabled.
    pub fn new() -> (r: Interrupts)
        ensures
            r.master,
    {
        Interrupts { master: true }
    }

    pub fn disable_interrupts(&mut self)
        ensures
            !final(self).master,
    {
        self.master = false;
    }

    pub fn enable_interrupts(&mut self)
        ensures
            final(self).master,
    {
        self.master = true;
    }

    /// Services at most one interrupt; gives the cycles it took.
    pub fn step(&mut self, regs: &mut Registers, mmu: &mut Mmu) -> (cycles: u32)
        requires
            old(regs).wf(),
            old(mmu).wf(),
        ensures
            final(regs).wf(),
            final(mmu).wf(),
            Interrupts::stepped(*old(self), *old(regs), old(mmu), *final(self), *final(regs), final(mmu), cycles),
    {
        let flags = mmu.interrupt_flag;
        let fire = flags & mmu.interrupt_enable;
        if !self.master {
            return 0;
        }
        let ghost r0 = *regs;
        if fire & VBLANK != 0 {
            self.handle_vblank(regs, mmu);
            clear_request(mmu, flags, VBLANK);
            assert(serviced(r0, old(mmu), 0, *regs, mmu));
        } else if fire & LCDSTAT != 0 {
            self.handle_lcdstat(regs, mmu);
            clear_request(mmu, flags, LCDSTAT);
            assert(serviced(r0, old(mmu), 1, *regs, mmu));
        } else if fire & TIMER != 0 {
            self.handle_timer(regs, mmu);
            clear_request(mmu, flags, TIMER);
            assert(serviced(r0, old(mmu), 2, *regs, mmu));
        } else if fire & SERIAL != 0 {
            self.handle_serial(regs, mmu);
            clear_request(mmu, flags, SERIAL);
            assert(serviced(r0, old(mmu), 3, *regs, mmu));
        } else if fire & JOYPAD != 0 {
            self.handle_joypad(regs, mmu);
            clear_request(mmu, flags, JOYPAD);
            assert(serviced(r0, old(mmu), 4, *regs, mmu));
        } else {
            return 0;
        }
        SERVICE_CYCLES
    }

    /// Pushes the program counter, clears the master enable and jumps to `vector`.
    fn service(&mut self, regs: &mut Registers, mmu: &mut Mmu, vector: u16)
        requires
            old(regs).wf(),
            old(mmu).wf(),
        ensures
            final(regs).wf(),
            final(mmu).wf(),
            !final(self).master,
            *final(regs) == old(regs).with_r16(Reg16::SP, sp_below(*old(regs))).with_r16(Reg16::PC, vector),
            final(mmu).written16_by(old(mmu), sp_below(*old(regs)), old(regs).pc),
    {
        let pc = regs.pc;
        push_u16(regs, mmu, pc);
        self.master = false;
        regs.write_r16(Reg16::PC, vector);
    }

    pub fn handle_vblank(&mut self, regs: &mut Registers, mmu: &mut Mmu)
        requires
            old(regs).wf(),
            old(mmu).wf(),
        ensures
            final(regs).wf(),
            final(mmu).wf(),
            !final(self).master,
            *final(regs) == old(regs).with_r16(Reg16::SP, sp_below(*old(regs))).with_r16(Reg16::PC, 0x40),
            final(mmu).written16_by(old(mmu), sp_below(*old(regs)), old(regs).pc),
    {
        self.service(regs, mmu, 0x40);
    }

    pub fn handle_lcdstat(&mut self, regs: &mut Registers, mmu: &mut Mmu)
        requires
            old(regs).wf(),
            old(mmu).wf(),
        ensures
            final(regs).wf(),
            final(mmu).wf(),
            !final(self).master,
            *final(regs) == old(regs).with_r16(Reg16::SP, sp_below(*old(regs))).with_r16(Reg16::PC, 0x48),
            final(mmu).written16_by(old(mmu), sp_below(*old(regs)), old(regs).pc),
    {
        self.service(regs, mmu, 0x48);
    }

    pub fn handle_timer(&mut self, regs: &mut Registers, mmu: &mut Mmu)
        requires
            old(regs).wf(),
            old(mmu).wf(),
        ensures
            final(regs).wf(),
            final(mmu).wf(),
            !final(self).master,
            *final(regs) == old(regs).with_r16(Reg16::SP, sp_below(*old(regs))).with_r16(Reg16::PC, 0x50),
            final(mmu).written16_by(old(mmu), sp_below(*old(regs)), old(regs).pc),
    {
        self.service(regs, mmu, 0x50);
    }

    pub fn handle_serial(&mut self, regs: &mut Registers, mmu: &mut Mmu)
        requires
            old(regs).wf(),
            old(mmu).wf(),
        ensures
            final(regs).wf(),
            final(mmu).wf(),
            !final(self).master,
            *final(regs) == old(regs).with_r16(Reg16::SP, sp_below(*old(regs))).with_r16(Reg16::PC, 0x58),
            final(mmu).written16_by(old(mmu), sp_below(*old(regs)), old(regs).pc),
    {
        self.service(regs, mmu, 0x58);
    }

    pub fn handle_joypad(&mut self, regs: &mut Registers, mmu: &mut Mmu)
        requires
            old(regs).wf(),
            old(mmu).wf(),
        ensures
            final(regs).wf(),
            final(mmu).wf(),
            !final(self).master,
            *final(regs) == old(regs).with_r16(Reg16::SP, sp_below(*old(regs))).with_r16(Reg16::PC, 0x60),
            final(mmu).written16_by(old(mmu), sp_below(*old(regs)), old(regs).pc),
    {
        self.service(regs, mmu, 0x60);
    }
}

/// With all five sources requested and enabled and the master enable set,
/// one step services VBlank only: its request is cleared, the other four
/// stay, the program counter is 0x40 and the master enable is cleared.
pub proof fn lemma_vblank_first(
    i0: Interrupts,
    r0: Registers,
    m0: &Mmu,
    i1: Interrupts,
    r1: Registers,
    m1: &Mmu,
    cycles: u32,
)
    requires
        i0.master,
        m0.interrupt_enable == 0x1F,
        m0.interrupt_flag == 0x1F,
        Interrupts::stepped(i0, r0, m0, i1, r1, m1, cycles),
    ensures
        m1.interrupt_flag == 0x1E,
        r1.pc == 0x40,
        !i1.master,
        cycles == SERVICE_CYCLES,
{
    assert(0x1Fu8 & 0x1F == 0x1F) by (bit_vector);
    assert(0x1Fu8 & 0x01 != 0) by (bit_vector);
    assert(0x1Fu8 & !0x01u8 == 0x1E) by (bit_vector);
}

} // verus!
