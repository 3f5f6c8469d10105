//! The scheduler's step: fetch one opcode, execute it, advance the PPU by
//! its cycles, then let the interrupt controller service a request.

use vstd::prelude::*;
use crate::cartridge::Cartrige;
use crate::cpu::{add_wrap, is_conditional, is_defined, op_ticks, opcode_defined, Cpu};
use crate::gpu::{shade, Color, Status};
use crate::input::Input;
use crate::interrupts::{Interrupts, SERVICE_CYCLES};
use crate::mmu::{io_reset_table, Mmu};
use crate::registers::{Reg16, Registers};

verus! {

/// Where a frame goes once it is complete.
pub trait Display {
    fn draw(&mut self, framebuffer: &Vec<Color>);
}

/// An opcode with no instruction, and where it was fetched.
#[derive(Clone, Copy, Debug, PartialEq, Eq, Structural)]
pub struct Fault {
    pub opcode: u8,
    pub pc: u16,
}

/// What one step took.
#[derive(Clone, Copy, Debug, PartialEq, Eq, Structural)]
pub struct StepOutcome {
    /// Cycles of the instruction.
    pub instruction_cycles: u32,
    /// Cycles of servicing an interrupt; 0 when none was serviced.
    pub interrupt_cycles: u32,
    /// The PPU entered VBlank: a frame is complete.
    pub frame_ready: bool,
}

/// The whole machine.
pub struct System {
    pub cpu: Cpu,
}

impl System {
    pub open spec fn wf(&self) -> bool {
        self.cpu.wf()
    }

    /// `next` is `prev` after one step that fetched `op`, through the
    /// intermediate states `executed` (the instruction done) and `advanced`
    /// (the bus after the PPU ran), with the outcome `o`.
    pub open spec fn stepped_via(prev: &Cpu, executed: &Cpu, advanced: &Mmu, next: &Cpu, o: StepOutcome, op: u8) -> bool {
        let fetched = Cpu {
            regs: prev.regs.with_r16(Reg16::PC, add_wrap(prev.regs.pc, 1)),
            mmu: prev.mmu,
            ints: prev.ints,
            halted: prev.halted,
            stopped: prev.stopped,
            ticks: prev.ticks,
        };
        &&& executed.executed(&fetched, op)
        &&& advanced.ppu_advanced(&executed.mmu, o.instruction_cycles, o.frame_ready)
        &&& Interrupts::stepped(executed.ints, executed.regs, advanced, next.ints, next.regs, &next.mmu, o.interrupt_cycles)
        &&& next.halted == executed.halted
        &&& next.stopped == executed.stopped
    }

    /// What a step gives when it fetched `op` from `prev`: a fault, with
    /// nothing changed, exactly when `op` has no instruction; else the
    /// instruction, the PPU and the interrupt controller each took their
    /// step and the cycles were counted.
    pub open spec fn step_result(prev: &Cpu, next: &Cpu, op: u8, r: Result<StepOutcome, Fault>) -> bool {
        &&& (r is Err <==> !is_defined(op))
        &&& r is Err ==> {
            &&& r->Err_0 == (Fault { opcode: op, pc: prev.regs.pc })
            &&& next.regs == prev.regs
            &&& next.mmu == prev.mmu
            &&& next.ticks == prev.ticks
        }
        &&& r is Ok ==> {
            let o = r->Ok_0;
            &&& next.ticks == (prev.ticks as int + o.instruction_cycles as int + o.interrupt_cycles as int)
                % 0x1_0000_0000_0000_0000
            &&& o.interrupt_cycles == 0 || o.interrupt_cycles == SERVICE_CYCLES
            &&& op != 0xCB && !is_conditional(op) ==> o.instruction_cycles == op_ticks()[op as int]
            &&& exists|c: Cpu, m: Mmu| #[trigger] System::stepped_via(prev, &c, &m, next, o, op)
        }
    }

    /// A machine with the cartridge inserted, registers at their power-on
    /// values and interrupts enabled.
    pub fn new(cart: Cartrige, input: Input) -> (s: System)
        ensures
            s.wf(),
            s.cpu.mmu.cart == cart,
            s.cpu.mmu.input == input,
            s.cpu.mmu.is_fresh(),
            s.cpu.regs == (Registers {
                a: 0x01,
                f: 0xB0,
                b: 0x00,
                c: 0x13,
                d: 0x00,
                e: 0xD8,
                h: 0x01,
                l: 0x4D,
                sp: 0xFFFE,
                pc: 0x0100,
            }),
            s.cpu.ints.master,
            !s.cpu.halted,
            !s.cpu.stopped,
            s.cpu.ticks == 0,
    {
        let mmu = Mmu::new(cart, input);
        let regs = Registers::new();
        let cpu = Cpu::new(regs, mmu, Interrupts::new());
        System { cpu }
    }

    /// Puts the I/O registers and the palettes in their power-on state.
    pub fn reset(&mut self)
        requires
            old(self).wf(),
        ensures
            final(self).wf(),
            final(self).cpu.mmu.io@ == io_reset_table(),
            final(self).cpu.mmu.gpu.status == (Status { lcdc: 0x91, scy: 0, scx: 0, ..old(self).cpu.mmu.gpu.status }),
            final(self).cpu.mmu.interrupt_enable == 0,
            final(self).cpu.mmu.interrupt_flag == old(self).cpu.mmu.interrupt_flag,
            forall|i: int| 0 <= i < 4 ==> final(self).cpu.mmu.gpu.video.background_palette@[i] == shade(i),
            forall|i: int| 0 <= i < 8 ==> final(self).cpu.mmu.gpu.video.sprite_palette@[i] == shade(i % 4),
            final(self).cpu.mmu.gpu.video.vram == old(self).cpu.mmu.gpu.video.vram,
            final(self).cpu.mmu.gpu.video.oam == old(self).cpu.mmu.gpu.video.oam,
            final(self).cpu.mmu.gpu.video.tiles == old(self).cpu.mmu.gpu.video.tiles,
            final(self).cpu.mmu.gpu.mode == old(self).cpu.mmu.gpu.mode,
            final(self).cpu.mmu.gpu.tick == old(self).cpu.mmu.gpu.tick,
            final(self).cpu.mmu.gpu.framebuffer == old(self).cpu.mmu.gpu.framebuffer,
            final(self).cpu.mmu.wram == old(self).cpu.mmu.wram,
            final(self).cpu.mmu.sram == old(self).cpu.mmu.sram,
            final(self).cpu.mmu.hram == old(self).cpu.mmu.hram,
            final(self).cpu.mmu.cart == old(self).cpu.mmu.cart,
            final(self).cpu.mmu.input == old(self).cpu.mmu.input,
            final(self).cpu.regs == old(self).cpu.regs,
            final(self).cpu.ints == old(self).cpu.ints,
            final(self).cpu.halted == old(self).cpu.halted,
            final(self).cpu.stopped == old(self).cpu.stopped,
            final(self).cpu.ticks == old(self).cpu.ticks,
    {
        self.cpu.mmu.reset();
        self.cpu.mmu.gpu.reset();
    }

    /// Sets the buttons that are held.
    pub fn set_input(&mut self, input: Input)
        requires
            old(self).wf(),
        ensures
            final(self).wf(),
            final(self).cpu.mmu.input == input,
            final(self).cpu.regs == old(self).cpu.regs,
    {
        self.cpu.mmu.input = input;
    }

    /// The frame as rendered so far.
    pub fn framebuffer(&self) -> (fb: &Vec<Color>)
        ensures
            fb == &self.cpu.mmu.gpu.framebuffer,
    {
        &self.cpu.mmu.gpu.framebuffer
    }

    /// Hands the frame to a display.
    pub fn present<D: Display>(&self, display: &mut D) {
        display.draw(&self.cpu.mmu.gpu.framebuffer);
    }

    /// One iteration of the run loop. An opcode with no instruction is a
    /// fault, and then nothing changes.
    pub fn step(&mut self) -> (r: Result<StepOutcome, Fault>)
        requires
            old(self).wf(),
        ensures
            final(self).wf(),
            exists|op: u8| #[trigger] old(self).cpu.mem_read(old(self).cpu.regs.pc, op) && System::step_result(
                &old(self).cpu,
                &final(self).cpu,
                op,
                r,
            ),
    {
        let pc = self.cpu.regs.pc;
        let opcode = self.cpu.mmu.read8(pc);
        assert(old(self).cpu.mem_read(pc, opcode));
        if !opcode_defined(opcode) {
            return Err(Fault { opcode, pc });
        }
        self.cpu.regs.write_r16(Reg16::PC, pc.wrapping_add(1));
        let ghost fetched = self.cpu;
        let instruction_cycles = self.cpu.execute(opcode);
        let ghost executed = self.cpu;
        let frame_ready = self.cpu.mmu.step_gpu(instruction_cycles);
        let ghost advanced = self.cpu.mmu;
        let interrupt_cycles = self.cpu.ints.step(&mut self.cpu.regs, &mut self.cpu.mmu);
        self.cpu.ticks = self.cpu.ticks.wrapping_add(interrupt_cycles as u64);
        let o = StepOutcome { instruction_cycles, interrupt_cycles, frame_ready };
        proof {
            {
                assert(fetched == (Cpu {
                    regs: old(self).cpu.regs.with_r16(Reg16::PC, add_wrap(old(self).cpu.regs.pc, 1)),
                    mmu: old(self).cpu.mmu,
                    ints: old(self).cpu.ints,
                    halted: old(self).cpu.halted,
                    stopped: old(self).cpu.stopped,
                    ticks: old(self).cpu.ticks,
                }));
                assert(System::stepped_via(&old(self).cpu, &executed, &advanced, &self.cpu, o, opcode));
            }
        }
        assert(old(self).cpu.mem_read(pc, opcode));
        assert(System::step_result(&old(self).cpu, &self.cpu, opcode, Ok(o)));
        Ok(o)
    }
}

} // verus!
