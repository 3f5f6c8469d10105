//! A cartridge image and the type that its header names.

use vstd::prelude::*;

verus! {

/// The offset of the header byte that names the cartridge type.
pub const TYPE_OFFSET: usize = 0x0147;

#[derive(Clone, Copy, Debug, PartialEq, Eq, Structural)]
pub enum CartridgeType {
    Plain,
    Mbc1,
    Mbc1Ram,
    Unknown,
}

pub open spec fn cartridge_type_of(value: u8) -> CartridgeType {
    if value == 0 {
        CartridgeType::Plain
    } else if value == 1 {
        CartridgeType::Mbc1
    } else if value == 2 {
        CartridgeType::Mbc1Ram
    } else {
        CartridgeType::Unknown
    }
}

impl CartridgeType {
    pub fn from_u8(value: u8) -> (r: CartridgeType)
        ensures
            r == cartridge_type_of(value),
    {
        match value {
            0 => CartridgeType::Plain,
            1 => CartridgeType::Mbc1,
            2 => CartridgeType::Mbc1Ram,
            _ => CartridgeType::Unknown,
        }
    }
}

/// A cartridge image read whole into memory.
#[derive(Debug)]
pub struct Cartrige {
    pub cartirge_type: CartridgeType,
    pub rom: Vec<u8>,
}

impl Cartrige {
    /// The cartridge of an image, typed by its header byte.
    pub fn from_bytes(rom: Vec<u8>) -> (c: Cartrige)
        requires
            rom@.len() > TYPE_OFFSET,
        ensures
            c.rom@ == rom@,
            c.cartirge_type == cartridge_type_of(rom@[TYPE_OFFSET as int]),
    {
        let t = CartridgeType::from_u8(rom[TYPE_OFFSET]);
        Cartrige { cartirge_type: t, rom }
    }
}

} // verus!
