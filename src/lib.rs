//! An emulator core for a classic 8-bit handheld console: register file,
//! arithmetic unit, memory bus, pixel-processing unit, interrupt controller,
//! instruction engine and the step of the scheduling loop.

pub mod registers;
pub mod alu;
pub mod gpu;
pub mod input;
pub mod cartridge;
pub mod mmu;
pub mod stack;
pub mod interrupts;
pub mod cpu;
pub mod system;
