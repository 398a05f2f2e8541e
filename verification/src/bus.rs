//! The address bus: routes 16-bit addresses to the cartridge controller or
//! to work RAM, and is the single source of truth for the memory map.

use vstd::prelude::*;

use crate::ram::Ram;
use crate::rom::mbc1::{mbc1_read, mbc1_write, Mbc1, Mbc1View};

verus! {

pub const CARTRIDGE_ADDRESS_START: u16 = 0x0000;

pub const CARTRIDGE_ADDRESS_END: u16 = 0x7FFF;

pub const RAM_ADDRESS_START: u16 = 0xC000;

pub const RAM_ADDRESS_END: u16 = 0xDFFF;

/// The number of bytes of work RAM the bus owns.
pub const WORK_RAM_BYTES: usize = 0x2000;

/// Whether `address` falls in a region the bus maps: the cartridge
/// controller's range or work RAM. An access anywhere else is a fault the
/// caller must rule out.
pub open spec fn mapped(address: u16) -> bool {
    ||| address <= CARTRIDGE_ADDRESS_END
    ||| RAM_ADDRESS_START <= address <= RAM_ADDRESS_END
}

/// Decides `mapped` for a concrete address.
pub fn mapped_address(address: u16) -> (result: bool)
    ensures
        result == mapped(address),
{
    address <= CARTRIDGE_ADDRESS_END || (RAM_ADDRESS_START <= address && address <= RAM_ADDRESS_END)
}

/// The devices the bus owns, as plain values.
#[verifier::ext_equal]
pub ghost struct BusView {
    pub cartridge: Mbc1View,
    pub ram: Seq<u8>,
}

impl BusView {
    pub open spec fn wf(self) -> bool {
        &&& self.cartridge.wf()
        &&& self.ram.len() == WORK_RAM_BYTES
    }
}

/// The byte a read at `address` yields: the controller serves its whole
/// range raw, work RAM is rebased to its own origin.
pub open spec fn bus_read(bus: BusView, address: u16) -> u8
    recommends
        bus.wf(),
        mapped(address),
{
    if address <= CARTRIDGE_ADDRESS_END {
        mbc1_read(bus.cartridge, address)
    } else {
        bus.ram[address - RAM_ADDRESS_START]
    }
}

/// The bus state after `value` is written at `address`.
pub open spec fn bus_write(bus: BusView, address: u16, value: u8) -> BusView
    recommends
        bus.wf(),
        mapped(address),
{
    if address <= CARTRIDGE_ADDRESS_END {
        BusView { cartridge: mbc1_write(bus.cartridge, address, value), ..bus }
    } else {
        BusView { ram: bus.ram.update(address - RAM_ADDRESS_START, value), ..bus }
    }
}

/// The bus owns exactly one cartridge controller and one 8KB block of work
/// RAM; the routing itself is stateless.
///
/// The union of the recognized address ranges never overlaps; raw addresses
/// in the cartridge range are delegated unrebased, because only the
/// controller can tell its register regions from bank data.
pub struct Bus {
    pub cartridge: Mbc1,
    pub ram: Ram<0x2000>,
}

impl View for Bus {
    type V = BusView;

    open spec fn view(&self) -> BusView {
        BusView { cartridge: self.cartridge@, ram: self.ram@ }
    }
}

impl Bus {
    pub fn new(cartridge: Mbc1) -> (bus: Bus)
        ensures
            bus@.cartridge == cartridge@,
            bus@.ram == Seq::new(WORK_RAM_BYTES as nat, |i: int| 0u8),
            cartridge@.wf() ==> bus@.wf(),
    {
        Bus { cartridge, ram: Ram::default() }
    }

    /// Decides whether the owned devices are well formed: the controller's
    /// register invariant holds and the work RAM has its full size.
    pub fn well_formed(&self) -> (result: bool)
        ensures
            result == self@.wf(),
    {
        self.cartridge.registers_well_formed() && self.ram.len() == WORK_RAM_BYTES
    }

    /// Reads one byte, dispatching on the address range.
    pub fn read_byte(&self, address: u16) -> (byte: u8)
        requires
            self@.wf(),
            mapped(address),
        ensures
            byte == bus_read(self@, address),
    {
        if address <= CARTRIDGE_ADDRESS_END {
            self.cartridge.read_byte(address)
        } else {
            self.ram.read_byte(address - RAM_ADDRESS_START)
        }
    }

    /// Writes one byte, dispatching on the address range.
    pub fn write_byte(&mut self, address: u16, value: u8)
        requires
            old(self)@.wf(),
            mapped(address),
        ensures
            final(self)@ == bus_write(old(self)@, address, value),
            final(self)@.wf(),
    {
        if address <= CARTRIDGE_ADDRESS_END {
            self.cartridge.write_byte(address, value);
        } else {
            self.ram.write_byte(address - RAM_ADDRESS_START, value);
        }
    }
}

} // verus!
