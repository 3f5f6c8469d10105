use rsgb::cartridge::Cartrige;
use rsgb::gpu::{Gpu, GpuMode};
use rsgb::input::Input;
use rsgb::interrupts::Interrupts;
use rsgb::mmu::{Mmu, MmuRead};
use rsgb::registers::{Flags, Reg16, Reg8, Registers};
use rsgb::system::System;

fn system_with_program(program: &[u8]) -> System {
    let mut rom = vec![0u8; 0x8000];
    for (i, b) in program.iter().enumerate() {
        rom[0x0100 + i] = *b;
    }
    System::new(Cartrige::from_bytes(rom), Input::new())
}

#[test]
fn xor_a_from_power_on() {
    let mut system = system_with_program(&[]);
    let cycles = system.cpu.execute(0xAF);
    let regs = system.cpu.regs;
    assert_eq!(regs.a, 0);
    assert!(regs.check(Flags::Zero));
    assert!(!regs.check(Flags::Carry));
    assert!(!regs.check(Flags::Negative));
    assert!(!regs.check(Flags::HalfCarry));
    assert_eq!(cycles, 2);
}

#[test]
fn push_then_pop_restores_pair_and_stack_pointer() {
    let mut system = system_with_program(&[]);
    system.cpu.regs.sp = 0xDFF0;
    system.cpu.regs.write_r16(Reg16::BC, 0xBEEF);
    system.cpu.push_r16(Reg16::BC);
    assert_eq!(system.cpu.regs.sp, 0xDFEE);
    system.cpu.regs.write_r16(Reg16::BC, 0x0000);
    system.cpu.pop_r16(Reg16::BC);
    assert_eq!(system.cpu.regs.read_r16(Reg16::BC), 0xBEEF);
    assert_eq!(system.cpu.regs.sp, 0xDFF0);
}

#[test]
fn push_af_keeps_flag_nibble_clear() {
    let mut system = system_with_program(&[]);
    system.cpu.regs.sp = 0xC100;
    system.cpu.regs.write_r16(Reg16::AF, 0x12F0);
    system.cpu.push_r16(Reg16::AF);
    system.cpu.regs.write_r16(Reg16::AF, 0x0000);
    system.cpu.pop_r16(Reg16::AF);
    assert_eq!(system.cpu.regs.read_r16(Reg16::AF), 0x12F0);
    assert_eq!(system.cpu.regs.sp, 0xC100);
}

#[test]
fn registers_pairs_and_flag_nibble() {
    let mut regs = Registers::new();
    assert_eq!(regs.read_r16(Reg16::AF), 0x01B0);
    assert_eq!(regs.read_r16(Reg16::BC), 0x0013);
    assert_eq!(regs.read_r16(Reg16::DE), 0x00D8);
    assert_eq!(regs.read_r16(Reg16::HL), 0x014D);
    regs.write_r16(Reg16::AF, 0xABCD);
    assert_eq!(regs.read_r8(Reg8::A), 0xAB);
    assert_eq!(regs.read_r8(Reg8::F), 0xC0);
    regs.write_r8(Reg8::F, 0xFF);
    assert_eq!(regs.read_r8(Reg8::F), 0xF0);
    regs.clear(Flags::Zero);
    assert!(!regs.check(Flags::Zero));
    assert!(regs.check(Flags::Carry));
    regs.set(Flags::Zero);
    assert!(regs.check(Flags::Zero));
}

#[test]
fn vblank_has_priority() {
    let mut system = system_with_program(&[]);
    system.cpu.regs.sp = 0xDFF0;
    system.cpu.regs.pc = 0x1234;
    system.cpu.mmu.write8(0xFFFF, 0x1F);
    system.cpu.mmu.write8(0xFF0F, 0x1F);
    let mut ints = Interrupts::new();
    let cycles = ints.step(&mut system.cpu.regs, &mut system.cpu.mmu);
    assert_eq!(cycles, 12);
    assert_eq!(system.cpu.regs.pc, 0x40);
    assert_eq!(system.cpu.mmu.read8(0xFF0F), 0x1E);
    assert!(!ints.master);
    assert_eq!(system.cpu.mmu.read16(0xDFEE), 0x1234);
}

#[test]
fn no_interrupt_when_master_disabled() {
    let mut system = system_with_program(&[]);
    system.cpu.mmu.write8(0xFFFF, 0x04);
    system.cpu.mmu.write8(0xFF0F, 0x04);
    let mut ints = Interrupts::new();
    ints.disable_interrupts();
    let pc = system.cpu.regs.pc;
    assert_eq!(ints.step(&mut system.cpu.regs, &mut system.cpu.mmu), 0);
    assert_eq!(system.cpu.regs.pc, pc);
    ints.enable_interrupts();
    assert_eq!(ints.step(&mut system.cpu.regs, &mut system.cpu.mmu), 12);
    assert_eq!(system.cpu.regs.pc, 0x50);
    assert_eq!(system.cpu.mmu.read8(0xFF0F), 0x00);
}

#[test]
fn full_scanline_in_one_feed() {
    let mut gpu = Gpu::new();
    gpu.status.ly = 10;
    assert!(!gpu.step(456));
    assert_eq!(gpu.mode, GpuMode::HBlank);
    assert_eq!(gpu.status.ly, 11);
    assert_eq!(gpu.tick, 0);
}

#[test]
fn scanline_mode_by_mode() {
    let mut gpu = Gpu::new();
    gpu.status.ly = 5;
    gpu.step(204);
    assert_eq!(gpu.mode, GpuMode::OAM);
    assert_eq!(gpu.status.ly, 6);
    gpu.step(80);
    assert_eq!(gpu.mode, GpuMode::VRAM);
    gpu.step(100);
    assert_eq!(gpu.mode, GpuMode::VRAM);
    assert_eq!(gpu.tick, 100);
    gpu.step(75);
    assert_eq!(gpu.mode, GpuMode::HBlank);
    assert_eq!(gpu.tick, 3);
}

#[test]
fn vblank_entered_after_line_143_and_left_after_153() {
    let mut gpu = Gpu::new();
    gpu.status.ly = 143;
    assert!(gpu.step(204));
    assert_eq!(gpu.mode, GpuMode::VBlank);
    assert_eq!(gpu.status.ly, 144);
    assert!(!gpu.step(456 * 9));
    assert_eq!(gpu.status.ly, 153);
    gpu.step(456);
    assert_eq!(gpu.mode, GpuMode::OAM);
    assert_eq!(gpu.status.ly, 0);
}

#[test]
fn vblank_raises_request_when_enabled() {
    let mut system = system_with_program(&[]);
    system.cpu.mmu.gpu.status.ly = 143;
    system.cpu.mmu.write8(0xFFFF, 0x01);
    assert!(system.cpu.mmu.step_gpu(204));
    assert_eq!(system.cpu.mmu.read8(0xFF0F) & 0x01, 0x01);
}

#[test]
fn rom_reads_back_the_image() {
    let mut rom = vec![0u8; 0x200];
    for i in 0..rom.len() {
        rom[i] = (i * 7 % 251) as u8;
    }
    let mmu = Mmu::new(Cartrige::from_bytes(rom.clone()), Input::new());
    for addr in 0..rom.len() {
        assert_eq!(mmu.read8(addr as u16), rom[addr]);
    }
    assert_eq!(mmu.read8(0x7FFF), 0xFF);
    assert_eq!(mmu.read16(0x0010), ((rom[0x11] as u16) << 8) | rom[0x10] as u16);
}

#[test]
fn rom_ignores_writes_and_ram_mirrors() {
    let mut mmu = Mmu::new(Cartrige::from_bytes(vec![0x11u8; 0x200]), Input::new());
    mmu.write8(0x0005, 0x99);
    assert_eq!(mmu.read8(0x0005), 0x11);
    mmu.write8(0xC123, 0x42);
    assert_eq!(mmu.read8(0xE123), 0x42);
    mmu.write8(0xE200, 0x24);
    assert_eq!(mmu.read8(0xC200), 0x24);
    mmu.write16(0xFF80, 0xA1B2);
    assert_eq!(mmu.read8(0xFF80), 0xB2);
    assert_eq!(mmu.read8(0xFF81), 0xA1);
    mmu.write8(0xA000, 0x77);
    assert_eq!(mmu.read8(0xA000), 0x77);
}

#[test]
fn dma_copies_to_object_table() {
    let mut mmu = Mmu::new(Cartrige::from_bytes(vec![0u8; 0x200]), Input::new());
    for i in 0..160u16 {
        mmu.write8(0xC000 + i, (i as u8) ^ 0x5A);
    }
    mmu.write8(0xFF46, 0xC0);
    for i in 0..160u16 {
        assert_eq!(mmu.read8(0xFE00 + i), (i as u8) ^ 0x5A);
    }
}

#[test]
fn lcd_registers_forward_to_ppu() {
    let mut mmu = Mmu::new(Cartrige::from_bytes(vec![0u8; 0x200]), Input::new());
    mmu.write8(0xFF40, 0x91);
    mmu.write8(0xFF42, 0x12);
    mmu.write8(0xFF43, 0x34);
    assert_eq!(mmu.gpu.status.lcdc, 0x91);
    assert_eq!(mmu.gpu.status.scy, 0x12);
    assert_eq!(mmu.gpu.status.scx, 0x34);
    assert_eq!(mmu.read8(0xFF42), 0x12);
    mmu.write8(0xFF47, 0xE4);
    assert_eq!(mmu.gpu.video.background_palette[0].r, 255);
    assert_eq!(mmu.gpu.video.background_palette[1].r, 192);
    assert_eq!(mmu.gpu.video.background_palette[2].r, 96);
    assert_eq!(mmu.gpu.video.background_palette[3].r, 0);
    mmu.write8(0xFF49, 0x1B);
    assert_eq!(mmu.gpu.video.sprite_palette[4].r, 0);
    assert_eq!(mmu.gpu.video.sprite_palette[7].r, 255);
    assert_eq!(mmu.read8(0xFF49), 0x1B);
}

#[test]
fn vram_write_decodes_tile_row() {
    let mut mmu = Mmu::new(Cartrige::from_bytes(vec![0u8; 0x200]), Input::new());
    // tile 1, row 2: low plane 0b1010_0000, high plane 0b1100_0000
    mmu.write8(0x8014, 0xA0);
    mmu.write8(0x8015, 0xC0);
    let row = 64 + 2 * 8;
    assert_eq!(mmu.gpu.video.tiles[row], 3);
    assert_eq!(mmu.gpu.video.tiles[row + 1], 2);
    assert_eq!(mmu.gpu.video.tiles[row + 2], 1);
    assert_eq!(mmu.gpu.video.tiles[row + 3], 0);
}

#[test]
fn joypad_reads_selected_group() {
    let mut input = Input::new();
    input.a = true;
    input.down = true;
    assert_eq!(input.get_keys1(), 0x07);
    assert_eq!(input.get_keys2(), 0x0E);
    let mut mmu = Mmu::new(Cartrige::from_bytes(vec![0u8; 0x200]), input);
    mmu.write8(0xFF00, 0x10);
    assert_eq!(mmu.read8(0xFF00), 0xD7);
    mmu.write8(0xFF00, 0x20);
    assert_eq!(mmu.read8(0xFF00), 0xEE);
}

#[test]
fn reset_sets_io_and_palettes() {
    let mut system = system_with_program(&[]);
    system.reset();
    assert_eq!(system.cpu.mmu.read8(0xFF40), 0x91);
    assert_eq!(system.cpu.mmu.read8(0xFF47), 0xFC);
    assert_eq!(system.cpu.mmu.read8(0xFF26), 0xF1);
    assert_eq!(system.cpu.mmu.read8(0xFFFF), 0x00);
    assert_eq!(system.cpu.mmu.gpu.video.background_palette[0].r, 255);
    assert_eq!(system.cpu.mmu.gpu.video.background_palette[1].r, 192);
}

#[test]
fn bus_reset_alone_applies_register_palette() {
    let mut mmu = Mmu::new(Cartrige::from_bytes(vec![0u8; 0x200]), Input::new());
    mmu.reset();
    assert_eq!(mmu.gpu.video.background_palette[0].r, 255);
    assert_eq!(mmu.gpu.video.background_palette[1].r, 0);
    assert_eq!(mmu.read8(0xFF07), 0x00);
}

#[test]
fn background_pixel_rendered_from_tile_cache() {
    let mut mmu = Mmu::new(Cartrige::from_bytes(vec![0u8; 0x200]), Input::new());
    mmu.write8(0xFF47, 0xE4);
    // tile 0, row 0: every pixel colour 3
    mmu.write8(0x8000, 0xFF);
    mmu.write8(0x8001, 0xFF);
    mmu.write8(0xFF40, 0x91);
    mmu.gpu.mode = GpuMode::VRAM;
    mmu.gpu.tick = 0;
    mmu.step_gpu(172);
    assert_eq!(mmu.gpu.mode, GpuMode::HBlank);
    assert_eq!(mmu.gpu.framebuffer[0].r, 0);
    assert_eq!(mmu.gpu.framebuffer[159].r, 0);
    assert_eq!(mmu.gpu.framebuffer[160].r, 255);
}

#[test]
fn sprite_drawn_over_background() {
    let mut mmu = Mmu::new(Cartrige::from_bytes(vec![0u8; 0x200]), Input::new());
    mmu.write8(0xFF47, 0xE4);
    mmu.write8(0xFF48, 0xE4);
    // tile 1, row 0: colour 1 across
    mmu.write8(0x8010, 0xFF);
    // sprite 0 at screen (0, 0) using tile 1
    mmu.write8(0xFE00, 16);
    mmu.write8(0xFE01, 8);
    mmu.write8(0xFE02, 1);
    mmu.write8(0xFE03, 0);
    mmu.write8(0xFF40, 0x93);
    mmu.gpu.mode = GpuMode::VRAM;
    mmu.step_gpu(172);
    assert_eq!(mmu.gpu.framebuffer[0].r, 192);
    assert_eq!(mmu.gpu.framebuffer[7].r, 192);
    assert_eq!(mmu.gpu.framebuffer[8].r, 255);
}

#[test]
fn program_runs_through_steps() {
    // LD A,0x05; LD B,0x03; ADD A,B; JR -2 (loops on itself); CB SWAP A
    let mut system = system_with_program(&[0x3E, 0x05, 0x06, 0x03, 0x80, 0xCB, 0x37]);
    system.step().unwrap();
    system.step().unwrap();
    let o = system.step().unwrap();
    assert_eq!(system.cpu.regs.a, 0x08);
    assert_eq!(o.instruction_cycles, 2);
    let o = system.step().unwrap();
    assert_eq!(system.cpu.regs.a, 0x80);
    assert_eq!(o.instruction_cycles, 8);
    assert_eq!(system.cpu.regs.pc, 0x0107);
}

#[test]
fn calls_and_returns() {
    // CALL 0x0110; at 0x0110: RET
    let mut program = vec![0u8; 0x20];
    program[0] = 0xCD;
    program[1] = 0x10;
    program[2] = 0x01;
    program[0x10] = 0xC9;
    let mut system = system_with_program(&program);
    system.cpu.regs.sp = 0xDFF0;
    system.step().unwrap();
    assert_eq!(system.cpu.regs.pc, 0x0110);
    assert_eq!(system.cpu.regs.sp, 0xDFEE);
    system.step().unwrap();
    assert_eq!(system.cpu.regs.pc, 0x0103);
    assert_eq!(system.cpu.regs.sp, 0xDFF0);
}

#[test]
fn conditional_jump_costs_depend_on_outcome() {
    // XOR A (zero set); JR NZ,+5 (not taken); JR Z,-2 (taken)
    let mut system = system_with_program(&[0xAF, 0x20, 0x05, 0x28, 0xFE]);
    system.step().unwrap();
    let o = system.step().unwrap();
    assert_eq!(o.instruction_cycles, 8);
    assert_eq!(system.cpu.regs.pc, 0x0103);
    let o = system.step().unwrap();
    assert_eq!(o.instruction_cycles, 12);
    assert_eq!(system.cpu.regs.pc, 0x0103);
}

#[test]
fn undefined_opcode_is_a_fault() {
    let mut system = system_with_program(&[0xD3]);
    let r = system.step();
    let f = r.unwrap_err();
    assert_eq!(f.opcode, 0xD3);
    assert_eq!(f.pc, 0x0100);
    assert_eq!(system.cpu.regs.pc, 0x0100);
}

#[test]
fn divider_reads_do_not_fail() {
    let mmu = Mmu::new(Cartrige::from_bytes(vec![0u8; 0x200]), Input::new());
    let _ = mmu.read8(0xFF04);
}

#[test]
fn cb_bit_res_set_on_memory() {
    // LD HL,0xC000; LD (HL),0x0F; CB SET 7,(HL); CB RES 0,(HL); CB BIT 7,(HL)
    let mut system = system_with_program(&[0x21, 0x00, 0xC0, 0x36, 0x0F, 0xCB, 0xFE, 0xCB, 0x86, 0xCB, 0x7E]);
    for _ in 0..5 {
        system.step().unwrap();
    }
    assert_eq!(system.cpu.mmu.read8(0xC000), 0x8E);
    assert!(!system.cpu.regs.check(Flags::Zero));
}

#[test]
fn bus_trait_reads_and_writes() {
    let mut rom = vec![0u8; 0x200];
    rom[0x150] = 0xAB;
    let mut mmu = Mmu::new(Cartrige::from_bytes(rom), Input::new());
    assert_eq!(mmu.read_u8(0x0150), 0xAB);
    mmu.write_u8(0x0150, 0x00);
    assert_eq!(mmu.read_u8(0x0150), 0xAB);
    mmu.write_u8(0xC010, 0x5C);
    assert_eq!(mmu.read_u8(0xE010), 0x5C);
    mmu.write_u16(0xD000, 0x1234);
    assert_eq!(mmu.read_u16(0xD000), 0x1234);
    mmu.write_u8(0xFF42, 0x21);
    mmu.write_u8(0xFF43, 0x43);
    assert_eq!(mmu.gpu.status.scy, 0x21);
    assert_eq!(mmu.gpu.status.scx, 0x43);
}

#[test]
fn fresh_system_has_power_on_registers() {
    let system = system_with_program(&[]);
    let regs = system.cpu.regs;
    assert_eq!(regs.read_r16(Reg16::AF), 0x01B0);
    assert_eq!(regs.read_r16(Reg16::BC), 0x0013);
    assert_eq!(regs.read_r16(Reg16::DE), 0x00D8);
    assert_eq!(regs.read_r16(Reg16::HL), 0x014D);
    assert_eq!(system.cpu.mmu.gpu.mode, GpuMode::HBlank);
    assert_eq!(system.cpu.mmu.gpu.status.ly, 0);
}

#[test]
fn extended_opcode_on_unpredictable_register_advances_pc() {
    // LD HL,0xFF04; CB BIT 0,(HL)
    let mut system = system_with_program(&[0x21, 0x04, 0xFF, 0xCB, 0x46]);
    system.step().unwrap();
    let o = system.step().unwrap();
    assert_eq!(system.cpu.regs.pc, 0x0105);
    assert_eq!(system.cpu.regs.read_r16(Reg16::HL), 0xFF04);
    assert_eq!(o.instruction_cycles, 12);
}
