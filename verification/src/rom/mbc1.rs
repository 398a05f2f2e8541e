//! The MBC1 cartridge bank controller: four write-only registers selecting
//! which physical ROM bank is visible, plus the loaded ROM image they index.

use vstd::prelude::*;
use vstd::string::StringExecFns;

use crate::rom::header::{header_error_rep, header_ok, Header};
use crate::text::decimal_rep;

verus! {

pub const RAM_GATE_REGISTER_ADDRESS_START: u16 = 0x0000;

pub const RAM_GATE_REGISTER_ADDRESS_END: u16 = 0x1FFF;

pub const BANK_1_REGISTER_ADDRESS_START: u16 = 0x2000;

pub const BANK_1_REGISTER_ADDRESS_END: u16 = 0x3FFF;

pub const BANK_2_REGISTER_ADDRESS_START: u16 = 0x4000;

pub const BANK_2_REGISTER_ADDRESS_END: u16 = 0x5FFF;

pub const MODE_REGISTER_ADDRESS_START: u16 = 0x6000;

pub const MODE_REGISTER_ADDRESS_END: u16 = 0x7FFF;

pub const LOW_ROM_BANK_ADDRESS_START: u16 = 0x0000;

pub const LOW_ROM_BANK_ADDRESS_END: u16 = 0x3FFF;

pub const HIGH_ROM_BANK_ADDRESS_START: u16 = 0x4000;

pub const HIGH_ROM_BANK_ADDRESS_END: u16 = 0x7FFF;

/// Offset of the header region within a cartridge image.
pub const HEADER_OFFSET: usize = 0x100;

/// One past the last byte of the header region within a cartridge image.
pub const HEADER_OFFSET_END: usize = 0x150;

/// Value of the ram-gate register after `value` is written to its region:
/// set exactly when the low nibble is 0b1010, cleared by any other nibble.
pub open spec fn ram_gate_after(value: u8) -> bool {
    value & 0xF == 0x0A
}

/// Value of the bank-1 register after `value` is written to its region:
/// the low five bits, except that the hardware coerces a written 0 to 1.
pub open spec fn bank1_after(value: u8) -> u8 {
    if value & 0x1F == 0 {
        1
    } else {
        value & 0x1F
    }
}

/// Value of the bank-2 register after `value` is written to its region:
/// the low two bits.
pub open spec fn bank2_after(value: u8) -> u8 {
    value & 0x3
}

/// Value of the mode register after `value` is written to its region:
/// only the low bit matters.
pub open spec fn mode_after(value: u8) -> bool {
    value & 0x1 == 1
}

/// The register state and ROM image of an MBC1 controller, as plain
/// mathematical values.
#[verifier::ext_equal]
pub ghost struct Mbc1View {
    pub ram_gate: bool,
    pub bank1: u8,
    pub bank2: u8,
    pub mode: bool,
    pub rom: Seq<u8>,
}

impl Mbc1View {
    /// The register invariant: `bank1` is a five-bit value that the hardware
    /// never lets be zero, and `bank2` is a two-bit value.
    pub open spec fn wf(self) -> bool {
        &&& 1 <= self.bank1 <= 0x1F
        &&& self.bank2 <= 0x3
    }
}

/// The controller state after `value` is written at `address`.
pub open spec fn mbc1_write(m: Mbc1View, address: u16, value: u8) -> Mbc1View
    recommends
        address <= MODE_REGISTER_ADDRESS_END,
{
    if address <= RAM_GATE_REGISTER_ADDRESS_END {
        Mbc1View { ram_gate: ram_gate_after(value), ..m }
    } else if address <= BANK_1_REGISTER_ADDRESS_END {
        Mbc1View { bank1: bank1_after(value), ..m }
    } else if address <= BANK_2_REGISTER_ADDRESS_END {
        Mbc1View { bank2: bank2_after(value), ..m }
    } else {
        Mbc1View { mode: mode_after(value), ..m }
    }
}

/// The physical ROM bank backing a read at `address`.
///
/// In the bank-0 window the bank is 0 in mode 0 and `bank2 << 5` in mode 1;
/// in the switchable window it is always `(bank2 << 5) + bank1`. Because
/// `bank1` is never zero, the switchable window can never resolve a multiple
/// of 0x20.
pub open spec fn active_rom_bank(m: Mbc1View, address: u16) -> u8
    recommends
        m.wf(),
        address <= HIGH_ROM_BANK_ADDRESS_END,
{
    if address <= LOW_ROM_BANK_ADDRESS_END {
        if !m.mode {
            0
        } else {
            m.bank2 << 5
        }
    } else {
        ((m.bank2 << 5) + m.bank1) as u8
    }
}

/// The byte a ROM read at `address` yields.
///
/// The resolved bank and the offset within its 16KB window index the loaded
/// image. A request that falls past the end of an undersized image wraps
/// modulo the image length; a read from an empty image yields 0xFF, the
/// open-bus value.
pub open spec fn mbc1_read(m: Mbc1View, address: u16) -> u8
    recommends
        m.wf(),
        address <= HIGH_ROM_BANK_ADDRESS_END,
{
    if m.rom.len() == 0 {
        0xFF
    } else {
        m.rom[(active_rom_bank(m, address) * 0x4000 + (address % 0x4000)) % (m.rom.len() as int)]
    }
}

/// The message an image too small to hold the header region is rejected
/// with.
pub open spec fn image_size_error_rep(len: nat) -> Seq<char> {
    "cartridge image was "@ + decimal_rep(len)
        + " bytes, but must be at least 336 bytes to hold the header"@
}

/// The common memory bank controller MBC1.
///
/// Four independently-addressed write-only registers; reads of the
/// controller's own registers are not exposed, only the derived active-bank
/// query and ROM-byte reads are.
#[derive(Debug)]
pub struct Mbc1 {
    pub ram_gate_register: bool,
    pub bank_register_1: u8,
    pub bank_register_2: u8,
    pub mode_register: bool,
    pub rom: Vec<u8>,
}

impl View for Mbc1 {
    type V = Mbc1View;

    open spec fn view(&self) -> Mbc1View {
        Mbc1View {
            ram_gate: self.ram_gate_register,
            bank1: self.bank_register_1,
            bank2: self.bank_register_2,
            mode: self.mode_register,
            rom: self.rom@,
        }
    }
}

impl Mbc1 {
    /// A controller at reset: gate closed, bank 1 selected, mode 0, and no
    /// image loaded.
    pub fn new() -> (mbc: Mbc1)
        ensures
            mbc@.wf(),
            !mbc@.ram_gate,
            mbc@.bank1 == 1,
            mbc@.bank2 == 0,
            !mbc@.mode,
            mbc@.rom == Seq::<u8>::empty(),
    {
        let mbc = Mbc1 {
            ram_gate_register: false,
            bank_register_1: 1,
            bank_register_2: 0,
            mode_register: false,
            rom: Vec::new(),
        };
        proof {
            assert(mbc@.rom =~= Seq::<u8>::empty());
        }
        mbc
    }

    /// Loads a cartridge image: the image must be large enough to hold the
    /// header region and the header must parse. The parsed header is used
    /// only for validation here; it does not drive live bank routing.
    pub fn from_bytes(bytes: &[u8]) -> (result: Result<Mbc1, String>)
        ensures
            result is Ok <==> bytes@.len() >= HEADER_OFFSET_END && header_ok(
                bytes@.subrange(HEADER_OFFSET as int, HEADER_OFFSET_END as int),
            ),
            result matches Ok(mbc) ==> {
                &&& mbc@.wf()
                &&& !mbc@.ram_gate
                &&& mbc@.bank1 == 1
                &&& mbc@.bank2 == 0
                &&& !mbc@.mode
                &&& mbc@.rom == bytes@
            },
            bytes@.len() < HEADER_OFFSET_END ==> (result matches Err(message) && message@
                == image_size_error_rep(bytes@.len())),
            bytes@.len() >= HEADER_OFFSET_END && !header_ok(
                bytes@.subrange(HEADER_OFFSET as int, HEADER_OFFSET_END as int),
            ) ==> (result matches Err(message) && message@ == header_error_rep(
                bytes@.subrange(HEADER_OFFSET as int, HEADER_OFFSET_END as int),
            )),
    {
        if bytes.len() < HEADER_OFFSET_END {
            let mut message = String::from_str("cartridge image was ");
            let len_text = crate::text::decimal_string(bytes.len());
            message.append(len_text.as_str());
            message.append(" bytes, but must be at least 336 bytes to hold the header");
            return Err(message);
        }
        let header_bytes = crate::rom::header::copy_range(bytes, HEADER_OFFSET, HEADER_OFFSET_END);
        match Header::parse(header_bytes.as_slice()) {
            Ok(_) => {
                let mut rom: Vec<u8> = Vec::new();
                let mut i: usize = 0;
                while i < bytes.len()
                    invariant
                        i <= bytes@.len(),
                        rom@ == bytes@.subrange(0, i as int),
                    decreases bytes@.len() - i,
                {
                    rom.push(bytes[i]);
                    proof {
                        assert(rom@ =~= bytes@.subrange(0, i + 1));
                    }
                    i = i + 1;
                }
                proof {
                    assert(rom@ =~= bytes@);
                }
                Ok(Mbc1 {
                    ram_gate_register: false,
                    bank_register_1: 1,
                    bank_register_2: 0,
                    mode_register: false,
                    rom,
                })
            },
            Err(message) => Err(message),
        }
    }

    /// Decides the register invariant for a concrete controller.
    pub fn registers_well_formed(&self) -> (result: bool)
        ensures
            result == self@.wf(),
    {
        1 <= self.bank_register_1 && self.bank_register_1 <= 0x1F && self.bank_register_2 <= 0x3
    }

    /// The physical ROM bank a read at `address` resolves to, derived from
    /// the current register state.
    pub fn active_rom_bank_number(&self, address: u16) -> (bank: u8)
        requires
            self@.wf(),
            address <= HIGH_ROM_BANK_ADDRESS_END,
        ensures
            bank == active_rom_bank(self@, address),
            bank <= 0x7F,
    {
        let b1 = self.bank_register_1;
        let b2 = self.bank_register_2;
        assert(b2 <= 3 && 1 <= b1 <= 0x1F ==> (b2 << 5) <= 0x60 && ((b2 << 5) + b1) < 0x80)
            by (bit_vector);
        if address <= LOW_ROM_BANK_ADDRESS_END {
            if !self.mode_register {
                0
            } else {
                b2 << 5
            }
        } else {
            (b2 << 5) + b1
        }
    }

    /// A ROM read at `address`: the active bank and the offset within its
    /// 16KB window index the image, wrapping modulo the image length.
    pub fn read_byte(&self, address: u16) -> (byte: u8)
        requires
            self@.wf(),
            address <= HIGH_ROM_BANK_ADDRESS_END,
        ensures
            byte == mbc1_read(self@, address),
    {
        if self.rom.len() == 0 {
            0xFF
        } else {
            let bank = self.active_rom_bank_number(address) as usize;
            let offset = (address & 0x3FFF) as usize;
            assert(address & 0x3FFF == address % 0x4000) by (bit_vector);
            let index = (bank * 0x4000 + offset) % self.rom.len();
            self.rom[index]
        }
    }

    /// A write at `address` updates the register whose region it lands in.
    pub fn write_byte(&mut self, address: u16, value: u8)
        requires
            address <= MODE_REGISTER_ADDRESS_END,
        ensures
            final(self)@ == mbc1_write(old(self)@, address, value),
            old(self)@.wf() ==> final(self)@.wf(),
    {
        proof {
            assert(value & 0x1F <= 0x1F && value & 0x3 <= 0x3) by (bit_vector);
        }
        if address <= RAM_GATE_REGISTER_ADDRESS_END {
            self.ram_gate_register = value & 0xF == 0x0A;
        } else if address <= BANK_1_REGISTER_ADDRESS_END {
            let mut masked = value & 0x1F;
            // Zero-bit adjustment - 0 is not a valid value and is coerced to 1
            if masked == 0 {
                masked = 1;
            }
            self.bank_register_1 = masked;
        } else if address <= BANK_2_REGISTER_ADDRESS_END {
            self.bank_register_2 = value & 0x3;
        } else {
            self.mode_register = value & 0x1 == 1;
        }
    }
}

/// Whatever byte a program writes to the bank-1 register region, the
/// register never holds zero afterwards: the hardware coerces 0 to 1.
pub proof fn lemma_bank1_write_never_zero(value: u8)
    ensures
        bank1_after(value) != 0,
{
    assert(value & 0x1F <= 0x1F) by (bit_vector);
}

/// Through the switchable window the resolved bank is never a multiple of
/// 0x20: its low five bits are `bank1`, which is never zero. Physical banks
/// 0x00, 0x20, 0x40 and 0x60 are therefore unreachable there; requesting one
/// yields the next bank up.
pub proof fn lemma_switchable_window_skips_bank_multiples(m: Mbc1View, address: u16)
    requires
        m.wf(),
        HIGH_ROM_BANK_ADDRESS_START <= address <= HIGH_ROM_BANK_ADDRESS_END,
    ensures
        active_rom_bank(m, address) % 0x20 == m.bank1,
        active_rom_bank(m, address) % 0x20 != 0,
{
    let b1 = m.bank1;
    let b2 = m.bank2;
    assert(b2 <= 3 && 1 <= b1 <= 0x1F ==> ((b2 << 5) + b1) as u8 % 0x20 == b1) by (bit_vector);
}

/// In mode 1 the bank-0 window resolves `bank2 << 5`: with `bank2 == 1` that
/// is bank 0x20, which the switchable window can never reach.
pub proof fn lemma_low_window_reaches_bank_multiples(m: Mbc1View, address: u16)
    requires
        m.wf(),
        m.mode,
        address <= LOW_ROM_BANK_ADDRESS_END,
    ensures
        active_rom_bank(m, address) == m.bank2 << 5,
        active_rom_bank(m, address) % 0x20 == 0,
{
    let b2 = m.bank2;
    assert(b2 <= 3 ==> (b2 << 5) % 0x20 == 0) by (bit_vector);
}

} // verus!
