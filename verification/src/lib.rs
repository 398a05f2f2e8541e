//! An emulator core for the processor and memory subsystem of an 8-bit
//! handheld game console: an instruction decode/execute engine, an address
//! bus, a cartridge bank-switching controller, a ROM header parser, and a
//! bounded execution loop.

pub mod bus;
pub mod cpu;
pub mod ram;
pub mod rom;
pub mod system;
pub mod text;
