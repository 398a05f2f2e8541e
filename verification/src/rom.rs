//! The cartridge side of the system: bank-controller register facades, the
//! MBC1 controller proper, and the ROM header parser.

pub mod cartridge_type;
pub mod header;
pub mod mbc1;
pub mod parse;

use vstd::prelude::*;

use crate::rom::mbc1::{bank1_after, bank2_after, mode_after, ram_gate_after};

verus! {

/// The register state of a bank controller alone, as plain values.
#[verifier::ext_equal]
pub ghost struct RomView {
    pub ram_gate: bool,
    pub bank1: u8,
    pub bank2: u8,
    pub mode: bool,
}

impl RomView {
    /// The register invariant: `bank1` is a five-bit value that is never
    /// zero, and `bank2` is a two-bit value.
    pub open spec fn wf(self) -> bool {
        &&& 1 <= self.bank1 <= 0x1F
        &&& self.bank2 <= 0x3
    }
}

/// The register state after `value` is written at `address`; the regions and
/// the per-register effects are those of the MBC1 controller.
pub open spec fn rom_write(r: RomView, address: u16, value: u8) -> RomView
    recommends
        address <= mbc1::MODE_REGISTER_ADDRESS_END,
{
    if address <= mbc1::RAM_GATE_REGISTER_ADDRESS_END {
        RomView { ram_gate: ram_gate_after(value), ..r }
    } else if address <= mbc1::BANK_1_REGISTER_ADDRESS_END {
        RomView { bank1: bank1_after(value), ..r }
    } else if address <= mbc1::BANK_2_REGISTER_ADDRESS_END {
        RomView { bank2: bank2_after(value), ..r }
    } else {
        RomView { mode: mode_after(value), ..r }
    }
}

/// The write-only register set of a cartridge's bank controller, kept apart
/// from any loaded image. As implemented this supports only the common
/// memory bank controller MBC1.
pub struct Rom {
    pub ram_gate_register: bool,
    pub bank_register_1: u8,
    pub bank_register_2: u8,
    pub mode_register: bool,
}

impl View for Rom {
    type V = RomView;

    open spec fn view(&self) -> RomView {
        RomView {
            ram_gate: self.ram_gate_register,
            bank1: self.bank_register_1,
            bank2: self.bank_register_2,
            mode: self.mode_register,
        }
    }
}

impl Rom {
    /// The register set at reset: gate closed, bank 1 selected, mode 0.
    pub fn new() -> (rom: Rom)
        ensures
            rom@.wf(),
            !rom@.ram_gate,
            rom@.bank1 == 1,
            rom@.bank2 == 0,
            !rom@.mode,
    {
        Rom {
            ram_gate_register: false,
            bank_register_1: 1,
            bank_register_2: 0,
            mode_register: false,
        }
    }

    /// A write at `address` updates the register whose region it lands in.
    pub fn write_byte(&mut self, address: u16, value: u8)
        requires
            address <= mbc1::MODE_REGISTER_ADDRESS_END,
        ensures
            final(self)@ == rom_write(old(self)@, address, value),
            old(self)@.wf() ==> final(self)@.wf(),
    {
        proof {
            assert(value & 0x1F <= 0x1F && value & 0x3 <= 0x3) by (bit_vector);
        }
        if address <= mbc1::RAM_GATE_REGISTER_ADDRESS_END {
            self.ram_gate_register = value & 0xF == 0x0A;
        } else if address <= mbc1::BANK_1_REGISTER_ADDRESS_END {
            let mut masked = value & 0x1F;
            // Zero-bit adjustment - 0 is not a valid value and is coerced to 1
            if masked == 0 {
                masked = 1;
            }
            self.bank_register_1 = masked;
        } else if address <= mbc1::BANK_2_REGISTER_ADDRESS_END {
            self.bank_register_2 = value & 0x3;
        } else {
            self.mode_register = value & 0x1 == 1;
        }
    }
}

} // verus!
