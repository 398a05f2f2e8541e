//! The fetch-decode-execute engine: eight 8-bit registers and a program
//! counter, stepped one instruction at a time over the bus.

use vstd::prelude::*;

use crate::bus::{bus_read, bus_write, mapped, Bus, BusView};

verus! {

/// The program counter a CPU starts at: the entry point real hardware uses
/// immediately after boot-ROM hand-off.
pub const DEFAULT_PC: u16 = 0x100;

/// One of the eight-bit registers an instruction can name.
#[derive(Clone, Copy, Debug, Eq, PartialEq, Structural)]
pub enum Reg {
    A,
    B,
    C,
    D,
    E,
    H,
    L,
}

/// The instruction classes this generation of the decoder covers. Any
/// opcode byte outside them is a fatal decode failure.
#[derive(Clone, Copy, Debug, Eq, PartialEq, Structural)]
pub enum Instruction {
    /// `LD r,r'`: copy one register into another; self-loads are legal
    /// no-ops that still cost a cycle.
    LdRegReg(Reg, Reg),
    /// `LD r,n`: fetch one operand byte into a register.
    LdRegImm(Reg),
    /// `LD r,[HL]`: read the byte HL addresses into a register.
    LdRegHlInd(Reg),
    /// `LD [HL],r`: write a register to the byte HL addresses.
    LdHlIndReg(Reg),
    /// `LD [HL],n`: fetch one operand byte and write it where HL points.
    LdHlIndImm,
    /// `LD [BC],A`.
    LdBcIndA,
    /// `LD A,[BC]`.
    LdABcInd,
    /// `LD [DE],A`.
    LdDeIndA,
    /// `LD A,[DE]`.
    LdADeInd,
    /// `JP nn`: a 16-bit little-endian operand is assigned directly to the
    /// program counter, so the target is not relative to the instruction.
    JpAbs,
    /// `LD [C],A`: write A to the I/O page at `0xFF00 + C`.
    LdHighCIndA,
    /// `LD A,[C]`: read A from the I/O page at `0xFF00 + C`.
    LdAHighCInd,
    /// `LD [nn],A`: write A at a 16-bit little-endian operand address.
    LdAbsIndA,
    /// `LD A,[nn]`: read A from a 16-bit little-endian operand address.
    LdAAbsInd,
}

/// The CPU registers: eight 8-bit registers plus the 16-bit program
/// counter. Compound registers BC/DE/HL are derived views, never stored.
pub struct Cpu {
    pub a: u8,
    pub f: u8,
    pub b: u8,
    pub c: u8,
    pub d: u8,
    pub e: u8,
    pub h: u8,
    pub l: u8,
    pub pc: u16,
}

/// Addition reduced modulo the 16-bit address space, as the program
/// counter advances.
pub open spec fn wrap16(x: int) -> u16 {
    (x % 0x10000) as u16
}

/// The value a named register holds.
pub open spec fn reg_val(cpu: Cpu, r: Reg) -> u8 {
    match r {
        Reg::A => cpu.a,
        Reg::B => cpu.b,
        Reg::C => cpu.c,
        Reg::D => cpu.d,
        Reg::E => cpu.e,
        Reg::H => cpu.h,
        Reg::L => cpu.l,
    }
}

/// The CPU with one named register replaced.
pub open spec fn with_reg(cpu: Cpu, r: Reg, value: u8) -> Cpu {
    match r {
        Reg::A => Cpu { a: value, ..cpu },
        Reg::B => Cpu { b: value, ..cpu },
        Reg::C => Cpu { c: value, ..cpu },
        Reg::D => Cpu { d: value, ..cpu },
        Reg::E => Cpu { e: value, ..cpu },
        Reg::H => Cpu { h: value, ..cpu },
        Reg::L => Cpu { l: value, ..cpu },
    }
}

/// The compound register `(high << 8) + low`.
pub open spec fn compound(high: u8, low: u8) -> u16 {
    (high * 0x100 + low) as u16
}

pub open spec fn spec_bc(cpu: Cpu) -> u16 {
    compound(cpu.b, cpu.c)
}

pub open spec fn spec_de(cpu: Cpu) -> u16 {
    compound(cpu.d, cpu.e)
}

pub open spec fn spec_hl(cpu: Cpu) -> u16 {
    compound(cpu.h, cpu.l)
}

/// The I/O-page address the C register shortcut addresses: `0xFF00 + C`.
pub open spec fn high_address(c: u8) -> u16 {
    (0xFF00 + c) as u16
}

/// The 16-bit little-endian word stored at `address`: the first byte is
/// the low byte.
pub open spec fn word_at(bus: BusView, address: u16) -> u16
    recommends
        bus.wf(),
        mapped(address),
        mapped(wrap16(address + 1)),
{
    (bus_read(bus, address) + bus_read(bus, wrap16(address + 1)) * 0x100) as u16
}

/// The fixed decode table: the instruction each opcode byte stands for, or
/// `None` for the opcodes this generation does not model. The reserved
/// halt encoding 0x76 is deliberately absent from the `LD` block.
pub open spec fn decode(opcode: u8) -> Option<Instruction> {
    match opcode {
        0x02 => Some(Instruction::LdBcIndA),
        0x06 => Some(Instruction::LdRegImm(Reg::B)),
        0x0A => Some(Instruction::LdABcInd),
        0x0E => Some(Instruction::LdRegImm(Reg::C)),
        0x12 => Some(Instruction::LdDeIndA),
        0x16 => Some(Instruction::LdRegImm(Reg::D)),
        0x1A => Some(Instruction::LdADeInd),
        0x1E => Some(Instruction::LdRegImm(Reg::E)),
        0x26 => Some(Instruction::LdRegImm(Reg::H)),
        0x2E => Some(Instruction::LdRegImm(Reg::L)),
        0x36 => Some(Instruction::LdHlIndImm),
        0x3E => Some(Instruction::LdRegImm(Reg::A)),
        0x40 => Some(Instruction::LdRegReg(Reg::B, Reg::B)),
        0x41 => Some(Instruction::LdRegReg(Reg::B, Reg::C)),
        0x42 => Some(Instruction::LdRegReg(Reg::B, Reg::D)),
        0x43 => Some(Instruction::LdRegReg(Reg::B, Reg::E)),
        0x44 => Some(Instruction::LdRegReg(Reg::B, Reg::H)),
        0x45 => Some(Instruction::LdRegReg(Reg::B, Reg::L)),
        0x46 => Some(Instruction::LdRegHlInd(Reg::B)),
        0x47 => Some(Instruction::LdRegReg(Reg::B, Reg::A)),
        0x48 => Some(Instruction::LdRegReg(Reg::C, Reg::B)),
        0x49 => Some(Instruction::LdRegReg(Reg::C, Reg::C)),
        0x4A => Some(Instruction::LdRegReg(Reg::C, Reg::D)),
        0x4B => Some(Instruction::LdRegReg(Reg::C, Reg::E)),
        0x4C => Some(Instruction::LdRegReg(Reg::C, Reg::H)),
        0x4D => Some(Instruction::LdRegReg(Reg::C, Reg::L)),
        0x4E => Some(Instruction::LdRegHlInd(Reg::C)),
        0x4F => Some(Instruction::LdRegReg(Reg::C, Reg::A)),
        0x50 => Some(Instruction::LdRegReg(Reg::D, Reg::B)),
        0x51 => Some(Instruction::LdRegReg(Reg::D, Reg::C)),
        0x52 => Some(Instruction::LdRegReg(Reg::D, Reg::D)),
        0x53 => Some(Instruction::LdRegReg(Reg::D, Reg::E)),
        0x54 => Some(Instruction::LdRegReg(Reg::D, Reg::H)),
        0x55 => Some(Instruction::LdRegReg(Reg::D, Reg::L)),
        0x56 => Some(Instruction::LdRegHlInd(Reg::D)),
        0x57 => Some(Instruction::LdRegReg(Reg::D, Reg::A)),
        0x58 => Some(Instruction::LdRegReg(Reg::E, Reg::B)),
        0x59 => Some(Instruction::LdRegReg(Reg::E, Reg::C)),
        0x5A => Some(Instruction::LdRegReg(Reg::E, Reg::D)),
        0x5B => Some(Instruction::LdRegReg(Reg::E, Reg::E)),
        0x5C => Some(Instruction::LdRegReg(Reg::E, Reg::H)),
        0x5D => Some(Instruction::LdRegReg(Reg::E, Reg::L)),
        0x5E => Some(Instruction::LdRegHlInd(Reg::E)),
        0x5F => Some(Instruction::LdRegReg(Reg::E, Reg::A)),
        0x60 => Some(Instruction::LdRegReg(Reg::H, Reg::B)),
        0x61 => Some(Instruction::LdRegReg(Reg::H, Reg::C)),
        0x62 => Some(Instruction::LdRegReg(Reg::H, Reg::D)),
        0x63 => Some(Instruction::LdRegReg(Reg::H, Reg::E)),
        0x64 => Some(Instruction::LdRegReg(Reg::H, Reg::H)),
        0x65 => Some(Instruction::LdRegReg(Reg::H, Reg::L)),
        0x66 => Some(Instruction::LdRegHlInd(Reg::H)),
        0x67 => Some(Instruction::LdRegReg(Reg::H, Reg::A)),
        0x68 => Some(Instruction::LdRegReg(Reg::L, Reg::B)),
        0x69 => Some(Instruction::LdRegReg(Reg::L, Reg::C)),
        0x6A => Some(Instruction::LdRegReg(Reg::L, Reg::D)),
        0x6B => Some(Instruction::LdRegReg(Reg::L, Reg::E)),
        0x6C => Some(Instruction::LdRegReg(Reg::L, Reg::H)),
        0x6D => Some(Instruction::LdRegReg(Reg::L, Reg::L)),
        0x6E => Some(Instruction::LdRegHlInd(Reg::L)),
        0x6F => Some(Instruction::LdRegReg(Reg::L, Reg::A)),
        0x70 => Some(Instruction::LdHlIndReg(Reg::B)),
        0x71 => Some(Instruction::LdHlIndReg(Reg::C)),
        0x72 => Some(Instruction::LdHlIndReg(Reg::D)),
        0x73 => Some(Instruction::LdHlIndReg(Reg::E)),
        0x74 => Some(Instruction::LdHlIndReg(Reg::H)),
        0x75 => Some(Instruction::LdHlIndReg(Reg::L)),
        0x77 => Some(Instruction::LdHlIndReg(Reg::A)),
        0x78 => Some(Instruction::LdRegReg(Reg::A, Reg::B)),
        0x79 => Some(Instruction::LdRegReg(Reg::A, Reg::C)),
        0x7A => Some(Instruction::LdRegReg(Reg::A, Reg::D)),
        0x7B => Some(Instruction::LdRegReg(Reg::A, Reg::E)),
        0x7C => Some(Instruction::LdRegReg(Reg::A, Reg::H)),
        0x7D => Some(Instruction::LdRegReg(Reg::A, Reg::L)),
        0x7E => Some(Instruction::LdRegHlInd(Reg::A)),
        0x7F => Some(Instruction::LdRegReg(Reg::A, Reg::A)),
        0xC3 => Some(Instruction::JpAbs),
        0xE2 => Some(Instruction::LdHighCIndA),
        0xEA => Some(Instruction::LdAbsIndA),
        0xF2 => Some(Instruction::LdAHighCInd),
        0xFA => Some(Instruction::LdAAbsInd),
        _ => None,
    }
}

/// The machine-cycle cost of an instruction.
pub open spec fn cycles_of(instruction: Instruction) -> u8 {
    match instruction {
        Instruction::LdRegReg(_, _) => 1,
        Instruction::LdRegImm(_) => 2,
        Instruction::LdRegHlInd(_) => 2,
        Instruction::LdHlIndReg(_) => 2,
        Instruction::LdHlIndImm => 3,
        Instruction::LdBcIndA => 2,
        Instruction::LdABcInd => 2,
        Instruction::LdDeIndA => 2,
        Instruction::LdADeInd => 2,
        Instruction::JpAbs => 4,
        Instruction::LdHighCIndA => 2,
        Instruction::LdAHighCInd => 2,
        Instruction::LdAbsIndA => 4,
        Instruction::LdAAbsInd => 4,
    }
}

/// Whether one fetch-decode-execute step can run to completion: the opcode
/// at `pc` is one this generation models, and every address the step
/// fetches from or touches is mapped by the bus. Where this fails, the
/// hardware model has only a fatal failure, which the engine rules out by
/// precondition.
pub open spec fn step_enabled(cpu: Cpu, bus: BusView) -> bool {
    &&& bus.wf()
    &&& mapped(cpu.pc)
    &&& match decode(bus_read(bus, cpu.pc)) {
        None => false,
        Some(instruction) => {
            let pc1 = wrap16(cpu.pc + 1);
            match instruction {
                Instruction::LdRegReg(_, _) => true,
                Instruction::LdRegImm(_) => mapped(pc1),
                Instruction::LdRegHlInd(_) => mapped(spec_hl(cpu)),
                Instruction::LdHlIndReg(_) => mapped(spec_hl(cpu)),
                Instruction::LdHlIndImm => mapped(pc1) && mapped(spec_hl(cpu)),
                Instruction::LdBcIndA => mapped(spec_bc(cpu)),
                Instruction::LdABcInd => mapped(spec_bc(cpu)),
                Instruction::LdDeIndA => mapped(spec_de(cpu)),
                Instruction::LdADeInd => mapped(spec_de(cpu)),
                Instruction::JpAbs => mapped(pc1) && mapped(wrap16(pc1 + 1)),
                Instruction::LdHighCIndA => mapped(high_address(cpu.c)),
                Instruction::LdAHighCInd => mapped(high_address(cpu.c)),
                Instruction::LdAbsIndA => mapped(pc1) && mapped(wrap16(pc1 + 1)) && mapped(
                    word_at(bus, pc1),
                ),
                Instruction::LdAAbsInd => mapped(pc1) && mapped(wrap16(pc1 + 1)) && mapped(
                    word_at(bus, pc1),
                ),
            }
        },
    }
}

/// One fetch-decode-execute step: the CPU and bus afterwards, and the
/// machine-cycle cost. The opcode byte is fetched at `pc`, which advances
/// by one (wrapping) before the instruction's own effects apply.
pub open spec fn step_spec(cpu: Cpu, bus: BusView) -> (Cpu, BusView, u8)
    recommends
        step_enabled(cpu, bus),
{
    let opcode = bus_read(bus, cpu.pc);
    let pc1 = wrap16(cpu.pc + 1);
    let fetched = Cpu { pc: pc1, ..cpu };
    match decode(opcode) {
        None => (cpu, bus, 0),
        Some(instruction) => match instruction {
            Instruction::LdRegReg(dst, src) => (
                with_reg(fetched, dst, reg_val(fetched, src)),
                bus,
                cycles_of(instruction),
            ),
            Instruction::LdRegImm(dst) => {
                let operand = bus_read(bus, pc1);
                let stepped = Cpu { pc: wrap16(pc1 + 1), ..fetched };
                (with_reg(stepped, dst, operand), bus, cycles_of(instruction))
            },
            Instruction::LdRegHlInd(dst) => (
                with_reg(fetched, dst, bus_read(bus, spec_hl(fetched))),
                bus,
                cycles_of(instruction),
            ),
            Instruction::LdHlIndReg(src) => (
                fetched,
                bus_write(bus, spec_hl(fetched), reg_val(fetched, src)),
                cycles_of(instruction),
            ),
            Instruction::LdHlIndImm => {
                let operand = bus_read(bus, pc1);
                let stepped = Cpu { pc: wrap16(pc1 + 1), ..fetched };
                (stepped, bus_write(bus, spec_hl(stepped), operand), cycles_of(instruction))
            },
            Instruction::LdBcIndA => (fetched, bus_write(bus, spec_bc(fetched), fetched.a), cycles_of(instruction)),
            Instruction::LdABcInd => (
                Cpu { a: bus_read(bus, spec_bc(fetched)), ..fetched },
                bus,
                cycles_of(instruction),
            ),
            Instruction::LdDeIndA => (fetched, bus_write(bus, spec_de(fetched), fetched.a), cycles_of(instruction)),
            Instruction::LdADeInd => (
                Cpu { a: bus_read(bus, spec_de(fetched)), ..fetched },
                bus,
                cycles_of(instruction),
            ),
            Instruction::JpAbs => (Cpu { pc: word_at(bus, pc1), ..fetched }, bus, cycles_of(instruction)),
            Instruction::LdHighCIndA => (
                fetched,
                bus_write(bus, high_address(fetched.c), fetched.a),
                cycles_of(instruction),
            ),
            Instruction::LdAHighCInd => (
                Cpu { a: bus_read(bus, high_address(fetched.c)), ..fetched },
                bus,
                cycles_of(instruction),
            ),
            Instruction::LdAbsIndA => {
                let target = word_at(bus, pc1);
                let stepped = Cpu { pc: wrap16(pc1 + 2), ..fetched };
                (stepped, bus_write(bus, target, stepped.a), cycles_of(instruction))
            },
            Instruction::LdAAbsInd => {
                let target = word_at(bus, pc1);
                let stepped = Cpu { pc: wrap16(pc1 + 2), ..fetched };
                (Cpu { a: bus_read(bus, target), ..stepped }, bus, cycles_of(instruction))
            },
        },
    }
}

impl Cpu {
    /// Performs one read->decode->execute cycle on the CPU.
    /// Returns the number of machine cycles the instruction takes to
    /// execute; all register writes, bus accesses and control-flow updates
    /// happen before it returns.
    pub fn read_decode_execute(&mut self, bus: &mut Bus) -> (cycles: u8)
        requires
            step_enabled(*old(self), old(bus)@),
        ensures
            *final(self) == step_spec(*old(self), old(bus)@).0,
            final(bus)@ == step_spec(*old(self), old(bus)@).1,
            cycles == step_spec(*old(self), old(bus)@).2,
            final(bus)@.wf(),
    {
        let instruction = self.read_byte_advance_pc(bus);
        match Cpu::decode_instruction(instruction) {
            Some(Instruction::LdRegReg(dst, src)) => {
                let value = self.get_register(src);
                self.set_register(dst, value);
                1
            },
            Some(Instruction::LdRegImm(dst)) => {
                let value = self.read_byte_advance_pc(bus);
                self.set_register(dst, value);
                2
            },
            Some(Instruction::LdRegHlInd(dst)) => {
                let value = bus.read_byte(self.hl());
                self.set_register(dst, value);
                2
            },
            Some(Instruction::LdHlIndReg(src)) => {
                let value = self.get_register(src);
                bus.write_byte(self.hl(), value);
                2
            },
            Some(Instruction::LdHlIndImm) => {
                let address = self.hl();
                let value = self.read_byte_advance_pc(bus);
                bus.write_byte(address, value);
                3
            },
            Some(Instruction::LdBcIndA) => {
                bus.write_byte(self.bc(), self.a);
                2
            },
            Some(Instruction::LdABcInd) => {
                self.a = bus.read_byte(self.bc());
                2
            },
            Some(Instruction::LdDeIndA) => {
                bus.write_byte(self.de(), self.a);
                2
            },
            Some(Instruction::LdADeInd) => {
                self.a = bus.read_byte(self.de());
                2
            },
            Some(Instruction::JpAbs) => {
                self.pc = self.read_word_advance_pc(bus);
                4
            },
            Some(Instruction::LdHighCIndA) => {
                bus.write_byte(self.c_as_high_ram_address(), self.a);
                2
            },
            Some(Instruction::LdAHighCInd) => {
                self.a = bus.read_byte(self.c_as_high_ram_address());
                2
            },
            Some(Instruction::LdAbsIndA) => {
                let target = self.read_word_advance_pc(bus);
                bus.write_byte(target, self.a);
                4
            },
            Some(Instruction::LdAAbsInd) => {
                let target = self.read_word_advance_pc(bus);
                self.a = bus.read_byte(target);
                4
            },
            None => {
                proof {
                    assert(false);
                }
                0
            },
        }
    }

    /// The decode table as executable dispatch, one arm per opcode.
    pub(crate) fn decode_instruction(opcode: u8) -> (instruction: Option<Instruction>)
        ensures
            instruction == decode(opcode),
    {
        match opcode {
            0x02 => Some(Instruction::LdBcIndA),
            0x06 => Some(Instruction::LdRegImm(Reg::B)),
            0x0A => Some(Instruction::LdABcInd),
            0x0E => Some(Instruction::LdRegImm(Reg::C)),
            0x12 => Some(Instruction::LdDeIndA),
            0x16 => Some(Instruction::LdRegImm(Reg::D)),
            0x1A => Some(Instruction::LdADeInd),
            0x1E => Some(Instruction::LdRegImm(Reg::E)),
            0x26 => Some(Instruction::LdRegImm(Reg::H)),
            0x2E => Some(Instruction::LdRegImm(Reg::L)),
            0x36 => Some(Instruction::LdHlIndImm),
            0x3E => Some(Instruction::LdRegImm(Reg::A)),
            0x40 => Some(Instruction::LdRegReg(Reg::B, Reg::B)),
            0x41 => Some(Instruction::LdRegReg(Reg::B, Reg::C)),
            0x42 => Some(Instruction::LdRegReg(Reg::B, Reg::D)),
            0x43 => Some(Instruction::LdRegReg(Reg::B, Reg::E)),
            0x44 => Some(Instruction::LdRegReg(Reg::B, Reg::H)),
            0x45 => Some(Instruction::LdRegReg(Reg::B, Reg::L)),
            0x46 => Some(Instruction::LdRegHlInd(Reg::B)),
            0x47 => Some(Instruction::LdRegReg(Reg::B, Reg::A)),
            0x48 => Some(Instruction::LdRegReg(Reg::C, Reg::B)),
            0x49 => Some(Instruction::LdRegReg(Reg::C, Reg::C)),
            0x4A => Some(Instruction::LdRegReg(Reg::C, Reg::D)),
            0x4B => Some(Instruction::LdRegReg(Reg::C, Reg::E)),
            0x4C => Some(Instruction::LdRegReg(Reg::C, Reg::H)),
            0x4D => Some(Instruction::LdRegReg(Reg::C, Reg::L)),
            0x4E => Some(Instruction::LdRegHlInd(Reg::C)),
            0x4F => Some(Instruction::LdRegReg(Reg::C, Reg::A)),
            0x50 => Some(Instruction::LdRegReg(Reg::D, Reg::B)),
            0x51 => Some(Instruction::LdRegReg(Reg::D, Reg::C)),
            0x52 => Some(Instruction::LdRegReg(Reg::D, Reg::D)),
            0x53 => Some(Instruction::LdRegReg(Reg::D, Reg::E)),
            0x54 => Some(Instruction::LdRegReg(Reg::D, Reg::H)),
            0x55 => Some(Instruction::LdRegReg(Reg::D, Reg::L)),
            0x56 => Some(Instruction::LdRegHlInd(Reg::D)),
            0x57 => Some(Instruction::LdRegReg(Reg::D, Reg::A)),
            0x58 => Some(Instruction::LdRegReg(Reg::E, Reg::B)),
            0x59 => Some(Instruction::LdRegReg(Reg::E, Reg::C)),
            0x5A => Some(Instruction::LdRegReg(Reg::E, Reg::D)),
            0x5B => Some(Instruction::LdRegReg(Reg::E, Reg::E)),
            0x5C => Some(Instruction::LdRegReg(Reg::E, Reg::H)),
            0x5D => Some(Instruction::LdRegReg(Reg::E, Reg::L)),
            0x5E => Some(Instruction::LdRegHlInd(Reg::E)),
            0x5F => Some(Instruction::LdRegReg(Reg::E, Reg::A)),
            0x60 => Some(Instruction::LdRegReg(Reg::H, Reg::B)),
            0x61 => Some(Instruction::LdRegReg(Reg::H, Reg::C)),
            0x62 => Some(Instruction::LdRegReg(Reg::H, Reg::D)),
            0x63 => Some(Instruction::LdRegReg(Reg::H, Reg::E)),
            0x64 => Some(Instruction::LdRegReg(Reg::H, Reg::H)),
            0x65 => Some(Instruction::LdRegReg(Reg::H, Reg::L)),
            0x66 => Some(Instruction::LdRegHlInd(Reg::H)),
            0x67 => Some(Instruction::LdRegReg(Reg::H, Reg::A)),
            0x68 => Some(Instruction::LdRegReg(Reg::L, Reg::B)),
            0x69 => Some(Instruction::LdRegReg(Reg::L, Reg::C)),
            0x6A => Some(Instruction::LdRegReg(Reg::L, Reg::D)),
            0x6B => Some(Instruction::LdRegReg(Reg::L, Reg::E)),
            0x6C => Some(Instruction::LdRegReg(Reg::L, Reg::H)),
            0x6D => Some(Instruction::LdRegReg(Reg::L, Reg::L)),
            0x6E => Some(Instruction::LdRegHlInd(Reg::L)),
            0x6F => Some(Instruction::LdRegReg(Reg::L, Reg::A)),
            0x70 => Some(Instruction::LdHlIndReg(Reg::B)),
            0x71 => Some(Instruction::LdHlIndReg(Reg::C)),
            0x72 => Some(Instruction::LdHlIndReg(Reg::D)),
            0x73 => Some(Instruction::LdHlIndReg(Reg::E)),
            0x74 => Some(Instruction::LdHlIndReg(Reg::H)),
            0x75 => Some(Instruction::LdHlIndReg(Reg::L)),
            0x77 => Some(Instruction::LdHlIndReg(Reg::A)),
            0x78 => Some(Instruction::LdRegReg(Reg::A, Reg::B)),
            0x79 => Some(Instruction::LdRegReg(Reg::A, Reg::C)),
            0x7A => Some(Instruction::LdRegReg(Reg::A, Reg::D)),
            0x7B => Some(Instruction::LdRegReg(Reg::A, Reg::E)),
            0x7C => Some(Instruction::LdRegReg(Reg::A, Reg::H)),
            0x7D => Some(Instruction::LdRegReg(Reg::A, Reg::L)),
            0x7E => Some(Instruction::LdRegHlInd(Reg::A)),
            0x7F => Some(Instruction::LdRegReg(Reg::A, Reg::A)),
            0xC3 => Some(Instruction::JpAbs),
            0xE2 => Some(Instruction::LdHighCIndA),
            0xEA => Some(Instruction::LdAbsIndA),
            0xF2 => Some(Instruction::LdAHighCInd),
            0xFA => Some(Instruction::LdAAbsInd),
            _ => None,
        }
    }

    fn get_register(&self, r: Reg) -> (value: u8)
        ensures
            value == reg_val(*self, r),
    {
        match r {
            Reg::A => self.a,
            Reg::B => self.b,
            Reg::C => self.c,
            Reg::D => self.d,
            Reg::E => self.e,
            Reg::H => self.h,
            Reg::L => self.l,
        }
    }

    fn set_register(&mut self, r: Reg, value: u8)
        ensures
            *final(self) == with_reg(*old(self), r, value),
    {
        match r {
            Reg::A => self.a = value,
            Reg::B => self.b = value,
            Reg::C => self.c = value,
            Reg::D => self.d = value,
            Reg::E => self.e = value,
            Reg::H => self.h = value,
            Reg::L => self.l = value,
        }
    }

    /// Reads the byte at `pc` through the bus and advances `pc` by one,
    /// wrapping.
    fn read_byte_advance_pc(&mut self, bus: &Bus) -> (byte: u8)
        requires
            bus@.wf(),
            mapped(old(self).pc),
        ensures
            byte == bus_read(bus@, old(self).pc),
            *final(self) == (Cpu { pc: wrap16(old(self).pc + 1), ..*old(self) }),
    {
        let byte = bus.read_byte(self.pc);
        self.pc = if self.pc == 0xFFFF {
            0
        } else {
            self.pc + 1
        };
        byte
    }

    /// Reads a 16-bit little-endian word at `pc`: the first fetched byte is
    /// the low byte; `pc` advances by two, wrapping.
    fn read_word_advance_pc(&mut self, bus: &Bus) -> (word: u16)
        requires
            bus@.wf(),
            mapped(old(self).pc),
            mapped(wrap16(old(self).pc + 1)),
        ensures
            word == word_at(bus@, old(self).pc),
            *final(self) == (Cpu { pc: wrap16(old(self).pc + 2), ..*old(self) }),
    {
        let least_significant_byte = self.read_byte_advance_pc(bus);
        let most_significant_byte = self.read_byte_advance_pc(bus);
        (least_significant_byte as u16) + (most_significant_byte as u16) * 0x100
    }

    pub fn bc(&self) -> (word: u16)
        ensures
            word == spec_bc(*self),
    {
        Cpu::compound_register(self.b, self.c)
    }

    pub fn de(&self) -> (word: u16)
        ensures
            word == spec_de(*self),
    {
        Cpu::compound_register(self.d, self.e)
    }

    pub fn hl(&self) -> (word: u16)
        ensures
            word == spec_hl(*self),
    {
        Cpu::compound_register(self.h, self.l)
    }

    /// Returns HL, then increments the compound register by one, the carry
    /// out of `l` rolling into `h` and the whole view wrapping at 16 bits.
    pub fn get_and_increment_hl(&mut self) -> (word: u16)
        ensures
            word == spec_hl(*old(self)),
            spec_hl(*final(self)) == wrap16(spec_hl(*old(self)) + 1),
            final(self).l == ((old(self).l + 1) % 0x100),
            final(self).h == (if old(self).l == 0xFF {
                (old(self).h + 1) % 0x100
            } else {
                old(self).h as int
            }),
            final(self).a == old(self).a,
            final(self).f == old(self).f,
            final(self).b == old(self).b,
            final(self).c == old(self).c,
            final(self).d == old(self).d,
            final(self).e == old(self).e,
            final(self).pc == old(self).pc,
    {
        let hl = self.hl();
        if self.l == 0xFF {
            self.l = 0;
            self.h = if self.h == 0xFF {
                0
            } else {
                self.h + 1
            };
        } else {
            self.l = self.l + 1;
        }
        hl
    }

    /// The compound register `(r1 << 8) + r2`: a derived 16-bit view of two
    /// 8-bit registers, with no independent storage.
    pub fn compound_register(r1: u8, r2: u8) -> (word: u16)
        ensures
            word == compound(r1, r2),
    {
        let high = r1 as u16;
        assert(high <= 0xFF ==> (high << 8) == high * 0x100) by (bit_vector);
        (high << 8) + (r2 as u16)
    }

    /// The I/O-page address the C register addresses: `0xFF00 + C`.
    pub fn c_as_high_ram_address(&self) -> (address: u16)
        ensures
            address == high_address(self.c),
    {
        0xFF00 + self.c as u16
    }
}

impl Default for Cpu {
    /// A CPU as constructed at cartridge load: every data register zero and
    /// the program counter at the post-boot entry point.
    fn default() -> (cpu: Cpu)
        ensures
            cpu.a == 0,
            cpu.f == 0,
            cpu.b == 0,
            cpu.c == 0,
            cpu.d == 0,
            cpu.e == 0,
            cpu.h == 0,
            cpu.l == 0,
            cpu.pc == DEFAULT_PC,
    {
        Cpu { a: 0, f: 0, b: 0, c: 0, d: 0, e: 0, h: 0, l: 0, pc: DEFAULT_PC }
    }
}

} // verus!
