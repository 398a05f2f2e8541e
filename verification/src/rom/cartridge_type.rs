//! The cartridge-type byte of the header: a fixed code table over the
//! controller families, several carrying feature flags.

use vstd::prelude::*;

use crate::rom::parse::{Parse, ParseResult};
use crate::text::hex_byte_rep;

verus! {

/// A decoded cartridge-type code. Exactly 28 distinct values are legal; all
/// other byte codes are parse errors.
#[derive(Debug, Eq, Hash, PartialEq, Structural)]
pub enum CartridgeType {
    Rom { battery: bool, ram: bool },
    Mbc1 { battery: bool, ram: bool },
    Mbc2 { battery: bool },
    Mbc3 { battery: bool, ram: bool, timer: bool },
    Mbc5 { battery: bool, ram: bool, rumble: bool },
    Mbc6,
    Mbc7,
    HuC1,
    HuC3,
    Mmm01 { battery: bool, ram: bool },
    BandaiTama5,
    PocketCamera,
}

/// The fixed code table: the cartridge type each header byte stands for,
/// or `None` for the codes no cartridge uses.
pub open spec fn cartridge_type_of(code: u8) -> Option<CartridgeType> {
    match code {
        0x00 => Some(CartridgeType::Rom { battery: false, ram: false }),
        0x01 => Some(CartridgeType::Mbc1 { battery: false, ram: false }),
        0x02 => Some(CartridgeType::Mbc1 { battery: false, ram: true }),
        0x03 => Some(CartridgeType::Mbc1 { battery: true, ram: true }),
        0x05 => Some(CartridgeType::Mbc2 { battery: false }),
        0x06 => Some(CartridgeType::Mbc2 { battery: true }),
        0x08 => Some(CartridgeType::Rom { battery: false, ram: true }),
        0x09 => Some(CartridgeType::Rom { battery: true, ram: true }),
        0x0B => Some(CartridgeType::Mmm01 { battery: false, ram: false }),
        0x0C => Some(CartridgeType::Mmm01 { battery: false, ram: true }),
        0x0D => Some(CartridgeType::Mmm01 { battery: true, ram: true }),
        0x0F => Some(CartridgeType::Mbc3 { battery: true, ram: false, timer: true }),
        0x10 => Some(CartridgeType::Mbc3 { battery: true, ram: true, timer: true }),
        0x11 => Some(CartridgeType::Mbc3 { battery: false, ram: false, timer: false }),
        0x12 => Some(CartridgeType::Mbc3 { battery: false, ram: true, timer: false }),
        0x13 => Some(CartridgeType::Mbc3 { battery: true, ram: true, timer: false }),
        0x19 => Some(CartridgeType::Mbc5 { battery: false, ram: false, rumble: false }),
        0x1A => Some(CartridgeType::Mbc5 { battery: false, ram: true, rumble: false }),
        0x1B => Some(CartridgeType::Mbc5 { battery: true, ram: true, rumble: false }),
        0x1C => Some(CartridgeType::Mbc5 { battery: false, ram: false, rumble: true }),
        0x1D => Some(CartridgeType::Mbc5 { battery: false, ram: true, rumble: true }),
        0x1E => Some(CartridgeType::Mbc5 { battery: true, ram: true, rumble: true }),
        0x20 => Some(CartridgeType::Mbc6),
        0x22 => Some(CartridgeType::Mbc7),
        0xFC => Some(CartridgeType::PocketCamera),
        0xFD => Some(CartridgeType::BandaiTama5),
        0xFE => Some(CartridgeType::HuC3),
        0xFF => Some(CartridgeType::HuC1),
        _ => None,
    }
}

/// The message an unrecognized cartridge-type code is reported with.
pub open spec fn cartridge_type_error_rep(code: u8) -> Seq<char> {
    "unrecognized cartridge type code "@ + hex_byte_rep(code)
}

impl CartridgeType {
    /// Decodes the cartridge-type byte against the fixed code table.
    pub fn parse(code: u8) -> (result: ParseResult<CartridgeType>)
        ensures
            result is Ok <==> cartridge_type_of(code) is Some,
            result matches Ok(cartridge_type) ==> cartridge_type_of(code) == Some(cartridge_type),
            result matches Err(message) ==> message@ == cartridge_type_error_rep(code),
    {
        match code {
            0x00 => Ok(CartridgeType::Rom { battery: false, ram: false }),
            0x01 => Ok(CartridgeType::Mbc1 { battery: false, ram: false }),
            0x02 => Ok(CartridgeType::Mbc1 { battery: false, ram: true }),
            0x03 => Ok(CartridgeType::Mbc1 { battery: true, ram: true }),
            0x05 => Ok(CartridgeType::Mbc2 { battery: false }),
            0x06 => Ok(CartridgeType::Mbc2 { battery: true }),
            0x08 => Ok(CartridgeType::Rom { battery: false, ram: true }),
            0x09 => Ok(CartridgeType::Rom { battery: true, ram: true }),
            0x0B => Ok(CartridgeType::Mmm01 { battery: false, ram: false }),
            0x0C => Ok(CartridgeType::Mmm01 { battery: false, ram: true }),
            0x0D => Ok(CartridgeType::Mmm01 { battery: true, ram: true }),
            0x0F => Ok(CartridgeType::Mbc3 { battery: true, ram: false, timer: true }),
            0x10 => Ok(CartridgeType::Mbc3 { battery: true, ram: true, timer: true }),
            0x11 => Ok(CartridgeType::Mbc3 { battery: false, ram: false, timer: false }),
            0x12 => Ok(CartridgeType::Mbc3 { battery: false, ram: true, timer: false }),
            0x13 => Ok(CartridgeType::Mbc3 { battery: true, ram: true, timer: false }),
            0x19 => Ok(CartridgeType::Mbc5 { battery: false, ram: false, rumble: false }),
            0x1A => Ok(CartridgeType::Mbc5 { battery: false, ram: true, rumble: false }),
            0x1B => Ok(CartridgeType::Mbc5 { battery: true, ram: true, rumble: false }),
            0x1C => Ok(CartridgeType::Mbc5 { battery: false, ram: false, rumble: true }),
            0x1D => Ok(CartridgeType::Mbc5 { battery: false, ram: true, rumble: true }),
            0x1E => Ok(CartridgeType::Mbc5 { battery: true, ram: true, rumble: true }),
            0x20 => Ok(CartridgeType::Mbc6),
            0x22 => Ok(CartridgeType::Mbc7),
            0xFC => Ok(CartridgeType::PocketCamera),
            0xFD => Ok(CartridgeType::BandaiTama5),
            0xFE => Ok(CartridgeType::HuC3),
            0xFF => Ok(CartridgeType::HuC1),
            _ => {
                let mut message = String::from_str("unrecognized cartridge type code ");
                let code_text = crate::text::hex_byte_string(code);
                message.append(code_text.as_str());
                Err(message)
            },
        }
    }
}

impl Parse for CartridgeType {
    fn parse(code: u8) -> ParseResult<CartridgeType> {
        CartridgeType::parse(code)
    }
}

} // verus!
