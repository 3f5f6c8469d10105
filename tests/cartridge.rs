use rsgb::cartridge::{CartridgeType, Cartrige};
use rsgb::input::Input;
use rsgb::system::System;

fn image_with_type(t: u8) -> Vec<u8> {
    let mut rom = vec![0u8; 0x8000];
    rom[0x0147] = t;
    rom
}

#[test]
fn cartrige_from_u8() {
    let ct = CartridgeType::from_u8(1);
    assert!(ct == CartridgeType::Mbc1);
}

#[test]
fn cartridge_type_of_each_byte() {
    assert_eq!(CartridgeType::from_u8(0), CartridgeType::Plain);
    assert_eq!(CartridgeType::from_u8(2), CartridgeType::Mbc1Ram);
    assert_eq!(CartridgeType::from_u8(3), CartridgeType::Unknown);
    assert_eq!(CartridgeType::from_u8(0xFF), CartridgeType::Unknown);
}

#[test]
fn plain_image_builds_a_system() {
    let cart = Cartrige::from_bytes(image_with_type(0x00));
    assert_eq!(cart.cartirge_type, CartridgeType::Plain);
    let system = System::new(cart, Input::new());
    assert_eq!(system.cpu.regs.pc, 0x0100);
    assert_eq!(system.cpu.mmu.cart.rom.len(), 0x8000);
}

#[test]
fn unknown_image_still_builds_a_system() {
    let cart = Cartrige::from_bytes(image_with_type(0x03));
    assert_eq!(cart.cartirge_type, CartridgeType::Unknown);
    let system = System::new(cart, Input::new());
    assert_eq!(system.cpu.regs.sp, 0xFFFE);
}
