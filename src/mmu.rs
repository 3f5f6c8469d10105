//! The memory bus: routes each address of the 16-bit space to its region,
//! with the side effects of the I/O registers.

use vstd::prelude::*;
use crate::cartridge::Cartrige;
use crate::gpu::{Gpu, Status, palette_field, shade, tile_row_decoded, OAM_SIZE, VRAM_SIZE};
use crate::input::Input;
use crate::registers::{high_byte, low_byte, split_word};

verus! {

pub const INTERRUPT_ENABLE: u16 = 0xFFFF;
pub const INTERRUPT_FLAG: u16 = 0xFF0F;
/// The register whose reads give an unpredictable byte.
pub const DIVIDER: u16 = 0xFF04;
/// Writing here copies 160 bytes from `value << 8` to the object table.
pub const DMA: u16 = 0xFF46;
pub const DMA_LENGTH: u16 = 160;
pub const WRAM_SIZE: usize = 0x2000;
pub const SRAM_SIZE: usize = 0x2000;
pub const HRAM_SIZE: usize = 0x80;
pub const IO_SIZE: usize = 0x100;

/// Relies on rand::random: a byte from the thread-local generator, which may
/// be any value.
#[verifier::external_body]
fn random_byte() -> u8 {
    rand::random::<u8>()
}

/// The joypad register as read: the group that a low select bit picks, in
/// its low nibble (a pressed button reads 0).
pub open spec fn joypad_value(select: u8, input: Input) -> u8 {
    if select & 0x20 == 0 {
        (0xD0 + input.keys1_spec()) as u8
    } else if select & 0x10 == 0 {
        (0xE0 + input.keys2_spec()) as u8
    } else {
        0
    }
}

/// The address that a copy started by writing `val` to the DMA register
/// reads for object-table address `a`.
pub open spec fn dma_source(val: u8, a: u16) -> u16 {
    (val as int * 256 + (a as int - 0xFE00)) as u16
}

/// The copy reads the unpredictable register for object-table address `a`.
pub open spec fn dma_random(addr: u16, val: u8, a: u16) -> bool {
    addr == DMA && 0xFE00 <= a < 0xFEA0 && dma_source(val, a) == DIVIDER
}

/// The working-RAM address that an address of the mirror stands for.
pub open spec fn echo_of(a: u16) -> u16 {
    if 0xE000 <= a <= 0xFDFF {
        (a - 0x2000) as u16
    } else {
        a
    }
}

/// What address `a` reads after `val` is written to `addr` on a bus whose
/// reads were `mem`.
pub open spec fn after_write(mem: spec_fn(u16) -> u8, input: Input, addr: u16, val: u8, a: u16) -> u8 {
    if addr == DMA {
        if 0xFE00 <= a < 0xFEA0 {
            mem(dma_source(val, a))
        } else {
            mem(a)
        }
    } else if echo_of(a) != echo_of(addr) || addr <= 0x7FFF || addr == 0xFF44 {
        mem(a)
    } else if addr == 0xFF00 {
        joypad_value(val, input)
    } else {
        val
    }
}

/// A 16-bit write to `addr` starts a copy that reads the unpredictable
/// register for address `a`.
pub open spec fn dma16_random(addr: u16, val: u16, a: u16) -> bool {
    dma_random(addr, low_byte(val), a) || dma_random(addr.wrapping_add(1), high_byte(val), a)
}

/// What address `a` reads after the 16-bit `val` is written to `addr`, low
/// byte first.
pub open spec fn after_write16(prev: &Mmu, addr: u16, val: u16, a: u16) -> u8 {
    after_write(
        |b: u16| after_write(prev.bus(), prev.input, addr, low_byte(val), b),
        prev.input,
        addr.wrapping_add(1),
        high_byte(val),
        a,
    )
}

/// The I/O registers after a reset.
pub open spec fn io_reset_table() -> Seq<u8> {
    seq![
        0x0F, 0x00, 0x7C, 0xFF, 0x00, 0x00, 0x00, 0x00, 0xFF, 0xFF, 0xFF, 0xFF, 0xFF, 0xFF, 0xFF, 0x01,
        0x80, 0xBF, 0xF3, 0xFF, 0xBF, 0xFF, 0x3F, 0x00, 0xFF, 0xBF, 0x7A, 0xFF, 0x9F, 0xFF, 0xBF, 0xFF,
        0xFF, 0x00, 0x00, 0xBF, 0x77, 0xF3, 0xF1, 0xFF, 0xFF, 0xFF, 0xFF, 0xFF, 0xFF, 0xFF, 0xFF, 0xFF,
        0x00, 0xFF, 0x00, 0xFF, 0x00, 0xFF, 0x00, 0xFF, 0x00, 0xFF, 0x00, 0xFF, 0x00, 0xFF, 0x00, 0xFF,
        0x91, 0x80, 0x00, 0x00, 0x00, 0x00, 0x00, 0xFC, 0xFF, 0xFF, 0x00, 0x00, 0xFF, 0x7E, 0xFF, 0xFE,
        0xFF, 0xFF, 0xFF, 0xFF, 0xFF, 0xFF, 0x3E, 0xFF, 0xFF, 0xFF, 0xFF, 0xFF, 0xFF, 0xFF, 0xFF, 0xFF,
        0xFF, 0xFF, 0xFF, 0xFF, 0xFF, 0xFF, 0xFF, 0xFF, 0xC0, 0xFF, 0xC1, 0x00, 0xFE, 0xFF, 0xFF, 0xFF,
        0xF8, 0xFF, 0x00, 0x00, 0x00, 0x8F, 0x00, 0x00, 0xFF, 0xFF, 0xFF, 0xFF, 0xFF, 0xFF, 0xFF, 0xFF,
        0xCE, 0xED, 0x66, 0x66, 0xCC, 0x0D, 0x00, 0x0B, 0x03, 0x73, 0x00, 0x83, 0x00, 0x0C, 0x00, 0x0D,
        0x00, 0x08, 0x11, 0x1F, 0x88, 0x89, 0x00, 0x0E, 0xDC, 0xCC, 0x6E, 0xE6, 0xDD, 0xDD, 0xD9, 0x99,
        0xBB, 0xBB, 0x67, 0x63, 0x6E, 0x0E, 0xEC, 0xCC, 0xDD, 0xDC, 0x99, 0x9F, 0xBB, 0xB9, 0x33, 0x3E,
        0x45, 0xEC, 0x52, 0xFA, 0x08, 0xB7, 0x07, 0x5D, 0x01, 0xFD, 0xC0, 0xFF, 0x08, 0xFC, 0x00, 0xE5,
        0x0B, 0xF8, 0xC2, 0xCE, 0xF4, 0xF9, 0x0F, 0x7F, 0x45, 0x6D, 0x3D, 0xFE, 0x46, 0x97, 0x33, 0x5E,
        0x08, 0xEF, 0xF1, 0xFF, 0x86, 0x83, 0x24, 0x74, 0x12, 0xFC, 0x00, 0x9F, 0xB4, 0xB7, 0x06, 0xD5,
        0xD0, 0x7A, 0x00, 0x9E, 0x04, 0x5F, 0x41, 0x2F, 0x1D, 0x77, 0x36, 0x75, 0x81, 0xAA, 0x70, 0x3A,
        0x98, 0xD1, 0x71, 0x02, 0x4D, 0x01, 0xC1, 0xFF, 0x0D, 0x00, 0xD3, 0x05, 0xF9, 0x00, 0x0B, 0x00,
    ]
}

/// The memory bus. Video RAM and the object table belong to the PPU.
pub struct Mmu {
    pub cart: Cartrige,
    pub gpu: Gpu,
    pub input: Input,
    pub wram: Vec<u8>,
    pub hram: Vec<u8>,
    pub io: Vec<u8>,
    pub sram: Vec<u8>,
    pub interrupt_enable: u8,
    pub interrupt_flag: u8,
}

impl Mmu {
    pub open spec fn wf(&self) -> bool {
        &&& self.gpu.wf()
        &&& self.wram@.len() == WRAM_SIZE
        &&& self.sram@.len() == SRAM_SIZE
        &&& self.hram@.len() == HRAM_SIZE
        &&& self.io@.len() == IO_SIZE
    }

    /// What a read of `addr` gives; the unpredictable register reads as its
    /// stored byte here.
    pub open spec fn peek(&self, addr: u16) -> u8 {
        if addr <= 0x7FFF {
            if (addr as int) < self.cart.rom@.len() {
                self.cart.rom@[addr as int]
            } else {
                0xFF
            }
        } else if addr <= 0x9FFF {
            self.gpu.video.vram@[addr - 0x8000]
        } else if addr <= 0xBFFF {
            self.sram@[addr - 0xA000]
        } else if addr <= 0xDFFF {
            self.wram@[addr - 0xC000]
        } else if addr <= 0xFDFF {
            self.wram@[addr - 0xE000]
        } else if addr <= 0xFEFF {
            self.gpu.video.oam@[addr - 0xFE00]
        } else if addr == 0xFF00 {
            joypad_value(self.io@[0], self.input)
        } else if addr == INTERRUPT_FLAG {
            self.interrupt_flag
        } else if addr == 0xFF40 {
            self.gpu.status.lcdc
        } else if addr == 0xFF42 {
            self.gpu.status.scy
        } else if addr == 0xFF43 {
            self.gpu.status.scx
        } else if addr == 0xFF44 {
            self.gpu.status.ly
        } else if addr <= 0xFF7F {
            self.io@[addr - 0xFF00]
        } else if addr <= 0xFFFE {
            self.hram@[addr - 0xFF80]
        } else {
            self.interrupt_enable
        }
    }

    /// All reads as a function of the address.
    pub open spec fn bus(&self) -> spec_fn(u16) -> u8 {
        |a: u16| self.peek(a)
    }

    /// The PPU-side state that no bus write touches.
    pub open spec fn same_timing(&self, other: &Mmu) -> bool {
        &&& self.gpu.mode == other.gpu.mode
        &&& self.gpu.tick == other.gpu.tick
        &&& self.gpu.framebuffer == other.gpu.framebuffer
        &&& self.gpu.status.ly == other.gpu.status.ly
        &&& self.cart == other.cart
        &&& self.input == other.input
    }

    /// This bus is `prev` after `val` was written to `addr`, as far as reads
    /// can tell.
    pub open spec fn written_by(&self, prev: &Mmu, addr: u16, val: u8) -> bool {
        &&& self.same_timing(prev)
        &&& forall|a: u16| !dma_random(addr, val, a) ==> #[trigger] self.peek(a) == after_write(prev.bus(), prev.input, addr, val, a)
    }

    /// This bus is `prev` after the 16-bit `val` was written to `addr`,
    /// low byte first, as far as reads can tell.
    pub open spec fn written16_by(&self, prev: &Mmu, addr: u16, val: u16) -> bool {
        &&& self.same_timing(prev)
        &&& forall|a: u16| !dma16_random(addr, val, a) ==> #[trigger] self.peek(a) == after_write16(prev, addr, val, a)
    }

    /// This bus is `prev` with its PPU advanced by `cycles` dots, `vblank`
    /// telling whether VBlank was entered, which requests the VBlank
    /// interrupt when that source is enabled.
    pub open spec fn ppu_advanced(&self, prev: &Mmu, cycles: u32, vblank: bool) -> bool {
        &&& self.gpu.stepped_from(&prev.gpu, cycles, vblank)
        &&& self.interrupt_flag == (if vblank && prev.interrupt_enable & 0x01 != 0 {
            prev.interrupt_flag | 0x01
        } else {
            prev.interrupt_flag
        })
        &&& self.interrupt_enable == prev.interrupt_enable
        &&& self.cart == prev.cart
        &&& self.input == prev.input
        &&& self.wram == prev.wram
        &&& self.sram == prev.sram
        &&& self.hram == prev.hram
        &&& self.io == prev.io
    }

    /// What a write of `val` to `addr` does to the PPU beyond the bytes that
    /// reads return: the LCD control and scroll registers take the value, a
    /// palette register sets its palette, a tile-area write decodes its row
    /// again; nothing else changes.
    pub open spec fn write_side_effects(&self, prev: &Mmu, addr: u16, val: u8) -> bool {
        &&& self.gpu.status == (Status {
            lcdc: if addr == 0xFF40 { val } else { prev.gpu.status.lcdc },
            scy: if addr == 0xFF42 { val } else { prev.gpu.status.scy },
            scx: if addr == 0xFF43 { val } else { prev.gpu.status.scx },
            ..prev.gpu.status
        })
        &&& addr == 0xFF47 ==> forall|i: int| 0 <= i < 4 ==> self.gpu.video.background_palette@[i] == shade(palette_field(val, i))
        &&& addr != 0xFF47 ==> self.gpu.video.background_palette == prev.gpu.video.background_palette
        &&& addr == 0xFF48 ==> forall|i: int| 0 <= i < 4 ==> self.gpu.video.sprite_palette@[i] == shade(palette_field(val, i))
        &&& addr == 0xFF49 ==> forall|i: int| 0 <= i < 4 ==> self.gpu.video.sprite_palette@[4 + i] == shade(palette_field(val, i))
        &&& addr == 0xFF48 ==> forall|i: int| 4 <= i < 8 ==> self.gpu.video.sprite_palette@[i] == prev.gpu.video.sprite_palette@[i]
        &&& addr == 0xFF49 ==> forall|i: int| 0 <= i < 4 ==> self.gpu.video.sprite_palette@[i] == prev.gpu.video.sprite_palette@[i]
        &&& addr != 0xFF48 && addr != 0xFF49 ==> self.gpu.video.sprite_palette == prev.gpu.video.sprite_palette
        &&& 0x8000 <= addr <= 0x97FF ==> tile_row_decoded(prev.gpu.video.tiles@, self.gpu.video.tiles@, self.gpu.video.vram@, addr - 0x8000)
        &&& !(0x8000 <= addr <= 0x97FF) ==> self.gpu.video.tiles == prev.gpu.video.tiles
    }

    /// Memory as a fresh bus has it: all RAM and I/O registers zero, no
    /// interrupt enabled or requested, and a fresh PPU.
    pub open spec fn is_fresh(&self) -> bool {
        &&& self.gpu.is_fresh()
        &&& self.interrupt_enable == 0
        &&& self.interrupt_flag == 0
        &&& forall|i: int| 0 <= i < WRAM_SIZE ==> self.wram@[i] == 0
        &&& forall|i: int| 0 <= i < SRAM_SIZE ==> self.sram@[i] == 0
        &&& forall|i: int| 0 <= i < HRAM_SIZE ==> self.hram@[i] == 0
        &&& forall|i: int| 0 <= i < IO_SIZE ==> self.io@[i] == 0
    }

    /// A bus over a cartridge, with cleared memory and a fresh PPU.
    pub fn new(cart: Cartrige, input: Input) -> (m: Mmu)
        ensures
            m.wf(),
            m.cart == cart,
            m.input == input,
            m.is_fresh(),
    {
        Mmu {
            cart,
            gpu: Gpu::new(),
            input,
            wram: vec![0u8; WRAM_SIZE],
            hram: vec![0u8; HRAM_SIZE],
            io: vec![0u8; IO_SIZE],
            sram: vec![0u8; SRAM_SIZE],
            interrupt_enable: 0,
            interrupt_flag: 0,
        }
    }

    fn read_input(&self) -> (r: u8)
        requires
            self.wf(),
        ensures
            r == joypad_value(self.io@[0], self.input),
    {
        let select = self.io[0];
        if select & 0x20 == 0 {
            0xD0 + self.input.get_keys1()
        } else if select & 0x10 == 0 {
            0xE0 + self.input.get_keys2()
        } else {
            0
        }
    }

    pub fn read8(&self, addr: u16) -> (r: u8)
        requires
            self.wf(),
        ensures
            addr != DIVIDER ==> r == self.peek(addr),
    {
        if addr <= 0x7FFF {
            if (addr as usize) < self.cart.rom.len() {
                self.cart.rom[addr as usize]
            } else {
                0xFF
            }
        } else if addr <= 0x9FFF {
            self.gpu.video.vram[(addr - 0x8000) as usize]
        } else if addr <= 0xBFFF {
            self.sram[(addr - 0xA000) as usize]
        } else if addr <= 0xDFFF {
            self.wram[(addr - 0xC000) as usize]
        } else if addr <= 0xFDFF {
            self.wram[(addr - 0xE000) as usize]
        } else if addr <= 0xFEFF {
            self.gpu.video.oam[(addr - 0xFE00) as usize]
        } else if addr == 0xFF00 {
            self.read_input()
        } else if addr == DIVIDER {
            random_byte()
        } else if addr == INTERRUPT_FLAG {
            self.interrupt_flag
        } else if addr == 0xFF40 {
            self.gpu.status.lcdc
        } else if addr == 0xFF42 {
            self.gpu.status.scy
        } else if addr == 0xFF43 {
            self.gpu.status.scx
        } else if addr == 0xFF44 {
            self.gpu.status.ly
        } else if addr <= 0xFF7F {
            self.io[(addr - 0xFF00) as usize]
        } else if addr <= 0xFFFE {
            self.hram[(addr - 0xFF80) as usize]
        } else {
            self.interrupt_enable
        }
    }

    /// Two reads, little-endian; the address after 0xFFFF is 0x0000.
    pub fn read16(&self, addr: u16) -> (r: u16)
        requires
            self.wf(),
        ensures
            addr != DIVIDER && addr.wrapping_add(1) != DIVIDER ==> r == crate::registers::join16(
                self.peek(addr.wrapping_add(1)),
                self.peek(addr),
            ),
    {
        let lo = self.read8(addr);
        let hi = self.read8(addr.wrapping_add(1));
        crate::registers::join_bytes(hi, lo)
    }

    /// Copies 160 bytes from `value << 8` into the object table.
    fn copy(&mut self, value: u8)
        requires
            old(self).wf(),
        ensures
            final(self).wf(),
            final(self).same_timing(old(self)),
            final(self).gpu.video.vram == old(self).gpu.video.vram,
            final(self).gpu.video.tiles == old(self).gpu.video.tiles,
            final(self).gpu.video.background_palette == old(self).gpu.video.background_palette,
            final(self).gpu.video.sprite_palette == old(self).gpu.video.sprite_palette,
            final(self).gpu.status == old(self).gpu.status,
            final(self).wram == old(self).wram,
            final(self).sram == old(self).sram,
            final(self).hram == old(self).hram,
            final(self).io == old(self).io,
            final(self).interrupt_enable == old(self).interrupt_enable,
            final(self).interrupt_flag == old(self).interrupt_flag,
            forall|i: int| 0 <= i < 160 && dma_source(value, (0xFE00 + i) as u16) != DIVIDER
                ==> #[trigger] final(self).gpu.video.oam@[i] == old(self).peek(dma_source(value, (0xFE00 + i) as u16)),
            forall|i: int| 160 <= i < OAM_SIZE ==> #[trigger] final(self).gpu.video.oam@[i] == old(self).gpu.video.oam@[i],
    {
        let source: u16 = value as u16 * 256;
        let mut i: u16 = 0;
        while i < DMA_LENGTH
            invariant
                i <= DMA_LENGTH,
                source == value as int * 256,
                self.wf(),
                self.same_timing(old(self)),
                self.gpu.video.vram == old(self).gpu.video.vram,
                self.gpu.video.tiles == old(self).gpu.video.tiles,
                self.gpu.video.background_palette == old(self).gpu.video.background_palette,
                self.gpu.video.sprite_palette == old(self).gpu.video.sprite_palette,
                self.gpu.status == old(self).gpu.status,
                self.wram == old(self).wram,
                self.sram == old(self).sram,
                self.hram == old(self).hram,
                self.io == old(self).io,
                self.interrupt_enable == old(self).interrupt_enable,
                self.interrupt_flag == old(self).interrupt_flag,
                forall|j: int| 0 <= j < i && dma_source(value, (0xFE00 + j) as u16) != DIVIDER
                    ==> #[trigger] self.gpu.video.oam@[j] == old(self).peek(dma_source(value, (0xFE00 + j) as u16)),
                forall|j: int| i <= j < OAM_SIZE ==> #[trigger] self.gpu.video.oam@[j] == old(self).gpu.video.oam@[j],
            decreases DMA_LENGTH - i,
        {
            let src = source + i;
            assert(src == dma_source(value, (0xFE00 + i) as u16));
            assert(self.peek(src) == old(self).peek(src));
            let b = self.read8(src);
            self.gpu.video.oam[i as usize] = b;
            i = i + 1;
        }
    }

    fn update_background_palette(&mut self, value: u8)
        requires
            old(self).wf(),
        ensures
            final(self).wf(),
            final(self).same_timing(old(self)),
            final(self).io@ == old(self).io@.update(0x47, value),
            forall|i: int| 0 <= i < 4 ==> final(self).gpu.video.background_palette@[i] == shade(palette_field(value, i)),
            final(self).gpu.video.sprite_palette == old(self).gpu.video.sprite_palette,
            final(self).gpu.video.vram == old(self).gpu.video.vram,
            final(self).gpu.video.oam == old(self).gpu.video.oam,
            final(self).gpu.video.tiles == old(self).gpu.video.tiles,
            final(self).gpu.status == old(self).gpu.status,
            final(self).wram == old(self).wram,
            final(self).sram == old(self).sram,
            final(self).hram == old(self).hram,
            final(self).interrupt_enable == old(self).interrupt_enable,
            final(self).interrupt_flag == old(self).interrupt_flag,
    {
        self.gpu.update_background_palette(value);
        self.io[0x47] = value;
    }

    fn update_sprite_palette(&mut self, index: usize, value: u8)
        requires
            old(self).wf(),
            index < 2,
        ensures
            final(self).wf(),
            final(self).same_timing(old(self)),
            final(self).io@ == old(self).io@.update(0x48 + index, value),
            forall|i: int| 0 <= i < 4 ==> final(self).gpu.video.sprite_palette@[4 * index + i] == shade(palette_field(value, i)),
            forall|i: int| 0 <= i < 8 && (i / 4 != index) ==> final(self).gpu.video.sprite_palette@[i] == old(self).gpu.video.sprite_palette@[i],
            final(self).gpu.video.background_palette == old(self).gpu.video.background_palette,
            final(self).gpu.video.vram == old(self).gpu.video.vram,
            final(self).gpu.video.oam == old(self).gpu.video.oam,
            final(self).gpu.video.tiles == old(self).gpu.video.tiles,
            final(self).gpu.status == old(self).gpu.status,
            final(self).wram == old(self).wram,
            final(self).sram == old(self).sram,
            final(self).hram == old(self).hram,
            final(self).interrupt_enable == old(self).interrupt_enable,
            final(self).interrupt_flag == old(self).interrupt_flag,
    {
        self.gpu.update_sprite_palette(index, value);
        self.io[0x48 + index] = value;
    }

    /// Writes one byte: ROM ignores it, the PPU's registers and palettes take
    /// it, video RAM re-decodes its tile row, the DMA register starts a copy.
    pub fn write8(&mut self, addr: u16, val: u8)
        requires
            old(self).wf(),
        ensures
            final(self).wf(),
            final(self).written_by(old(self), addr, val),
            final(self).write_side_effects(old(self), addr, val),
    {
        if addr <= 0x7FFF {
        } else if addr <= 0x9FFF {
            self.gpu.video.write_vram((addr - 0x8000) as usize, val);
        } else if addr <= 0xBFFF {
            self.sram[(addr - 0xA000) as usize] = val;
        } else if addr <= 0xDFFF {
            self.wram[(addr - 0xC000) as usize] = val;
        } else if addr <= 0xFDFF {
            self.wram[(addr - 0xE000) as usize] = val;
        } else if addr <= 0xFEFF {
            self.gpu.video.oam[(addr - 0xFE00) as usize] = val;
        } else if addr == INTERRUPT_FLAG {
            self.interrupt_flag = val;
        } else if addr == 0xFF40 {
            self.gpu.status.lcdc = val;
        } else if addr == 0xFF42 {
            self.gpu.status.scy = val;
        } else if addr == 0xFF43 {
            self.gpu.status.scx = val;
        } else if addr == DMA {
            self.copy(val);
        } else if addr == 0xFF47 {
            self.update_background_palette(val);
        } else if addr == 0xFF48 {
            self.update_sprite_palette(0, val);
        } else if addr == 0xFF49 {
            self.update_sprite_palette(1, val);
        } else if addr <= 0xFF7F {
            self.io[(addr - 0xFF00) as usize] = val;
        } else if addr <= 0xFFFE {
            self.hram[(addr - 0xFF80) as usize] = val;
        } else {
            self.interrupt_enable = val;
        }
    }

    /// Two writes, little-endian; the address after 0xFFFF is 0x0000.
    pub fn write16(&mut self, addr: u16, val: u16)
        requires
            old(self).wf(),
        ensures
            final(self).wf(),
            final(self).written16_by(old(self), addr, val),
    {
        let (hi, lo) = split_word(val);
        self.write8(addr, lo);
        let ghost mid = *self;
        self.write8(addr.wrapping_add(1), hi);
        assert forall|a: u16|
            !dma_random(addr, lo, a) && !dma_random(addr.wrapping_add(1), hi, a) implies #[trigger] self.peek(a)
            == after_write(
            |b: u16| after_write(old(self).bus(), old(self).input, addr, lo, b),
            old(self).input,
            addr.wrapping_add(1),
            hi,
            a,
        ) by {
            if addr.wrapping_add(1) == DMA && 0xFE00 <= a < 0xFEA0 {
                let x = dma_source(hi, a);
                assert(mid.peek(x) == after_write(old(self).bus(), old(self).input, addr, lo, x));
            } else {
                assert(mid.peek(a) == after_write(old(self).bus(), old(self).input, addr, lo, a));
            }
        }
    }

    /// Sets the I/O registers to their values after power-on, the LCD control
    /// to 0x91, the scroll registers and the interrupt enable mask to 0, and
    /// the palettes from 0xFC (background) and 0xFF (sprites).
    pub fn reset(&mut self)
        requires
            old(self).wf(),
        ensures
            final(self).wf(),
            final(self).same_timing(old(self)),
            final(self).io@ == io_reset_table(),
            final(self).gpu.status == (Status { lcdc: 0x91, scy: 0, scx: 0, ..old(self).gpu.status }),
            final(self).interrupt_enable == 0,
            final(self).interrupt_flag == old(self).interrupt_flag,
            forall|i: int| 0 <= i < 4 ==> final(self).gpu.video.background_palette@[i] == shade(palette_field(0xFC, i)),
            forall|i: int| 0 <= i < 8 ==> final(self).gpu.video.sprite_palette@[i] == shade(palette_field(0xFF, i % 4)),
            final(self).gpu.video.vram == old(self).gpu.video.vram,
            final(self).gpu.video.oam == old(self).gpu.video.oam,
            final(self).gpu.video.tiles == old(self).gpu.video.tiles,
            final(self).wram == old(self).wram,
            final(self).sram == old(self).sram,
            final(self).hram == old(self).hram,
    {
        let table: [u8; 256] = [
            0x0F, 0x00, 0x7C, 0xFF, 0x00, 0x00, 0x00, 0x00, 0xFF, 0xFF, 0xFF, 0xFF, 0xFF, 0xFF, 0xFF, 0x01,
            0x80, 0xBF, 0xF3, 0xFF, 0xBF, 0xFF, 0x3F, 0x00, 0xFF, 0xBF, 0x7A, 0xFF, 0x9F, 0xFF, 0xBF, 0xFF,
            0xFF, 0x00, 0x00, 0xBF, 0x77, 0xF3, 0xF1, 0xFF, 0xFF, 0xFF, 0xFF, 0xFF, 0xFF, 0xFF, 0xFF, 0xFF,
            0x00, 0xFF, 0x00, 0xFF, 0x00, 0xFF, 0x00, 0xFF, 0x00, 0xFF, 0x00, 0xFF, 0x00, 0xFF, 0x00, 0xFF,
            0x91, 0x80, 0x00, 0x00, 0x00, 0x00, 0x00, 0xFC, 0xFF, 0xFF, 0x00, 0x00, 0xFF, 0x7E, 0xFF, 0xFE,
            0xFF, 0xFF, 0xFF, 0xFF, 0xFF, 0xFF, 0x3E, 0xFF, 0xFF, 0xFF, 0xFF, 0xFF, 0xFF, 0xFF, 0xFF, 0xFF,
            0xFF, 0xFF, 0xFF, 0xFF, 0xFF, 0xFF, 0xFF, 0xFF, 0xC0, 0xFF, 0xC1, 0x00, 0xFE, 0xFF, 0xFF, 0xFF,
            0xF8, 0xFF, 0x00, 0x00, 0x00, 0x8F, 0x00, 0x00, 0xFF, 0xFF, 0xFF, 0xFF, 0xFF, 0xFF, 0xFF, 0xFF,
            0xCE, 0xED, 0x66, 0x66, 0xCC, 0x0D, 0x00, 0x0B, 0x03, 0x73, 0x00, 0x83, 0x00, 0x0C, 0x00, 0x0D,
            0x00, 0x08, 0x11, 0x1F, 0x88, 0x89, 0x00, 0x0E, 0xDC, 0xCC, 0x6E, 0xE6, 0xDD, 0xDD, 0xD9, 0x99,
            0xBB, 0xBB, 0x67, 0x63, 0x6E, 0x0E, 0xEC, 0xCC, 0xDD, 0xDC, 0x99, 0x9F, 0xBB, 0xB9, 0x33, 0x3E,
            0x45, 0xEC, 0x52, 0xFA, 0x08, 0xB7, 0x07, 0x5D, 0x01, 0xFD, 0xC0, 0xFF, 0x08, 0xFC, 0x00, 0xE5,
            0x0B, 0xF8, 0xC2, 0xCE, 0xF4, 0xF9, 0x0F, 0x7F, 0x45, 0x6D, 0x3D, 0xFE, 0x46, 0x97, 0x33, 0x5E,
            0x08, 0xEF, 0xF1, 0xFF, 0x86, 0x83, 0x24, 0x74, 0x12, 0xFC, 0x00, 0x9F, 0xB4, 0xB7, 0x06, 0xD5,
            0xD0, 0x7A, 0x00, 0x9E, 0x04, 0x5F, 0x41, 0x2F, 0x1D, 0x77, 0x36, 0x75, 0x81, 0xAA, 0x70, 0x3A,
            0x98, 0xD1, 0x71, 0x02, 0x4D, 0x01, 0xC1, 0xFF, 0x0D, 0x00, 0xD3, 0x05, 0xF9, 0x00, 0x0B, 0x00,
        ];
        assert(table@ == io_reset_table());
        let mut i: usize = 0;
        while i < IO_SIZE
            invariant
                i <= IO_SIZE,
                self.wf(),
                table@ == io_reset_table(),
                self.same_timing(old(self)),
                self.gpu == old(self).gpu,
                self.wram == old(self).wram,
                self.sram == old(self).sram,
                self.hram == old(self).hram,
                self.interrupt_enable == old(self).interrupt_enable,
                self.interrupt_flag == old(self).interrupt_flag,
                forall|j: int| 0 <= j < i ==> #[trigger] self.io@[j] == io_reset_table()[j],
            decreases IO_SIZE - i,
        {
            self.io[i] = table[i];
            i = i + 1;
        }
        assert(self.io@ =~= io_reset_table());
        self.gpu.status.lcdc = 0x91;
        self.gpu.status.scy = 0;
        self.gpu.status.scx = 0;
        self.gpu.update_background_palette(0xFC);
        self.gpu.update_sprite_palette(0, 0xFF);
        let ghost first = self.gpu.video.sprite_palette@;
        self.gpu.update_sprite_palette(1, 0xFF);
        assert forall|i: int| 0 <= i < 8 implies self.gpu.video.sprite_palette@[i] == shade(palette_field(0xFF, i % 4)) by {
            if i < 4 {
                assert(first[4 * 0 + i] == shade(palette_field(0xFF, i)));
            } else {
                assert(self.gpu.video.sprite_palette@[4 * 1 + (i - 4)] == shade(palette_field(0xFF, i - 4)));
            }
        }
        self.interrupt_enable = 0;
    }

    /// Advances the PPU by `cycles` dots; entering VBlank requests the VBlank
    /// interrupt when that source is enabled.
    pub fn step_gpu(&mut self, cycles: u32) -> (vblank: bool)
        requires
            old(self).wf(),
        ensures
            final(self).wf(),
            final(self).ppu_advanced(old(self), cycles, vblank),
    {
        let vblank = self.gpu.step(cycles);
        if vblank && self.interrupt_enable & 0x01 != 0 {
            self.interrupt_flag = self.interrupt_flag | 0x01;
        }
        vblank
    }
}

/// Byte access to the bus.
pub trait MmuRead {
    /// The bus is in a usable state.
    spec fn ready(&self) -> bool;

    fn read_u8(&self, addr: u16) -> u8
        requires
            self.ready(),
    ;

    fn read_u16(&self, addr: u16) -> u16
        requires
            self.ready(),
    ;

    fn write_u8(&mut self, addr: u16, val: u8)
        requires
            old(self).ready(),
        ensures
            final(self).ready(),
    ;

    fn write_u16(&mut self, addr: u16, val: u16)
        requires
            old(self).ready(),
        ensures
            final(self).ready(),
    ;
}

impl MmuRead for Mmu {
    open spec fn ready(&self) -> bool {
        self.wf()
    }

    fn read_u8(&self, addr: u16) -> (r: u8)
        ensures
            addr != DIVIDER ==> r == self.peek(addr),
    {
        self.read8(addr)
    }

    fn read_u16(&self, addr: u16) -> (r: u16)
        ensures
            addr != DIVIDER && addr.wrapping_add(1) != DIVIDER ==> r == crate::registers::join16(
                self.peek(addr.wrapping_add(1)),
                self.peek(addr),
            ),
    {
        self.read16(addr)
    }

    fn write_u8(&mut self, addr: u16, val: u8)
        ensures
            final(self).written_by(old(self), addr, val),
            final(self).write_side_effects(old(self), addr, val),
    {
        self.write8(addr, val);
    }

    fn write_u16(&mut self, addr: u16, val: u16)
        ensures
            final(self).written16_by(old(self), addr, val),
    {
        self.write16(addr, val);
    }
}

} // verus!
