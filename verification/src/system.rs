//! The composed system: one bus and one CPU, driven by a bounded run loop.

use vstd::prelude::*;

use crate::bus::{Bus, BusView};
use crate::cpu::{step_enabled, step_spec, Cpu, Instruction, DEFAULT_PC};
use crate::rom::mbc1::Mbc1;

verus! {

/// A step budget for the run loop: either unbounded, or a count consumed
/// one unit per instruction step.
pub enum Gas {
    UNLIMITED,
    LIMITED(usize),
}

/// The steps a budget still allows, counting an unbounded budget as none
/// spent: the run loop's termination measure.
pub open spec fn gas_left(gas: Gas) -> int {
    match gas {
        Gas::UNLIMITED => 0,
        Gas::LIMITED(remaining) => remaining as int,
    }
}

/// The whole machine state, as plain values.
#[verifier::ext_equal]
pub ghost struct SystemView {
    pub cpu: Cpu,
    pub bus: BusView,
}

/// Whether the machine can perform its next instruction step without a
/// fatal fault.
pub open spec fn sys_enabled(s: SystemView) -> bool {
    step_enabled(s.cpu, s.bus)
}

/// The machine after one instruction step.
pub open spec fn sys_step(s: SystemView) -> SystemView
    recommends
        sys_enabled(s),
{
    SystemView { cpu: step_spec(s.cpu, s.bus).0, bus: step_spec(s.cpu, s.bus).1 }
}

/// Whether the machine can perform `n` instruction steps in a row without
/// a fatal fault.
pub open spec fn steps_enabled(s: SystemView, n: nat) -> bool
    decreases n,
{
    n > 0 ==> (sys_enabled(s) && steps_enabled(sys_step(s), (n - 1) as nat))
}

/// The machine after `n` instruction steps.
pub open spec fn run_steps(s: SystemView, n: nat) -> SystemView
    recommends
        steps_enabled(s, n),
    decreases n,
{
    if n == 0 {
        s
    } else {
        run_steps(sys_step(s), (n - 1) as nat)
    }
}

/// Running one step more runs the step after the first `n`.
pub proof fn lemma_run_steps_snoc(s: SystemView, n: nat)
    ensures
        run_steps(s, n + 1) == sys_step(run_steps(s, n)),
    decreases n,
{
    if n > 0 {
        lemma_run_steps_snoc(sys_step(s), (n - 1) as nat);
    } else {
        assert(run_steps(s, 1) == run_steps(sys_step(s), 0));
        assert(run_steps(sys_step(s), 0) == sys_step(s));
    }
}

/// One bus and one CPU in single-owner composition; nothing is shared.
pub struct System {
    bus: Bus,
    cpu: Cpu,
}

impl View for System {
    type V = SystemView;

    closed spec fn view(&self) -> SystemView {
        SystemView { cpu: self.cpu, bus: self.bus@ }
    }
}

impl System {
    /// Composes a freshly reset CPU and bus around a loaded cartridge.
    pub fn load_cartridge(cartridge: Mbc1) -> (system: System)
        ensures
            system@.bus.cartridge == cartridge@,
            system@.bus.ram == Seq::new(crate::bus::WORK_RAM_BYTES as nat, |i: int| 0u8),
            cartridge@.wf() ==> system@.bus.wf(),
            system@.cpu.a == 0,
            system@.cpu.f == 0,
            system@.cpu.b == 0,
            system@.cpu.c == 0,
            system@.cpu.d == 0,
            system@.cpu.e == 0,
            system@.cpu.h == 0,
            system@.cpu.l == 0,
            system@.cpu.pc == DEFAULT_PC,
    {
        System { bus: Bus::new(cartridge), cpu: Cpu::default() }
    }

    /// Whether the next instruction step would run without a fatal fault:
    /// the opcode at `pc` is modeled and every address the step touches is
    /// mapped. A host that wants to step indefinitely tests this before
    /// each step and stops (or reports) where the hardware would fault.
    pub fn can_step(&self) -> (enabled: bool)
        ensures
            enabled == sys_enabled(self@),
    {
        if !self.bus.well_formed() {
            return false;
        }
        if !crate::bus::mapped_address(self.cpu.pc) {
            return false;
        }
        let opcode = self.bus.read_byte(self.cpu.pc);
        let instruction = match Cpu::decode_instruction(opcode) {
            Some(instruction) => instruction,
            None => {
                return false;
            },
        };
        let pc1 = if self.cpu.pc == 0xFFFF {
            0
        } else {
            self.cpu.pc + 1
        };
        let pc2 = if pc1 == 0xFFFF {
            0
        } else {
            pc1 + 1
        };
        match instruction {
            Instruction::LdRegReg(_, _) => true,
            Instruction::LdRegImm(_) => crate::bus::mapped_address(pc1),
            Instruction::LdRegHlInd(_) => crate::bus::mapped_address(self.cpu.hl()),
            Instruction::LdHlIndReg(_) => crate::bus::mapped_address(self.cpu.hl()),
            Instruction::LdHlIndImm => crate::bus::mapped_address(pc1) && crate::bus::mapped_address(
                self.cpu.hl(),
            ),
            Instruction::LdBcIndA => crate::bus::mapped_address(self.cpu.bc()),
            Instruction::LdABcInd => crate::bus::mapped_address(self.cpu.bc()),
            Instruction::LdDeIndA => crate::bus::mapped_address(self.cpu.de()),
            Instruction::LdADeInd => crate::bus::mapped_address(self.cpu.de()),
            Instruction::JpAbs => crate::bus::mapped_address(pc1) && crate::bus::mapped_address(
                pc2,
            ),
            Instruction::LdHighCIndA => crate::bus::mapped_address(
                self.cpu.c_as_high_ram_address(),
            ),
            Instruction::LdAHighCInd => crate::bus::mapped_address(
                self.cpu.c_as_high_ram_address(),
            ),
            Instruction::LdAbsIndA | Instruction::LdAAbsInd => {
                if !(crate::bus::mapped_address(pc1) && crate::bus::mapped_address(pc2)) {
                    false
                } else {
                    let low = self.bus.read_byte(pc1);
                    let high = self.bus.read_byte(pc2);
                    let target = (low as u16) + (high as u16) * 0x100;
                    crate::bus::mapped_address(target)
                }
            },
        }
    }

    /// Steps until a limited budget is exhausted: on each iteration, a
    /// spent budget stops the loop before the next step; otherwise the
    /// budget is decremented and one CPU step runs.
    ///
    /// An unbounded budget would have this loop step forever; a verified
    /// function must terminate, so the contract covers limited budgets
    /// only, and a host drives an unbounded run one limited step at a
    /// time, guarded by `can_step`.
    pub fn run_with_gas(&mut self, gas: Gas)
        requires
            (gas matches Gas::LIMITED(budget) && steps_enabled(old(self)@, budget as nat)),
        ensures
            (gas matches Gas::LIMITED(budget) ==> final(self)@ == run_steps(
                old(self)@,
                budget as nat,
            )),
    {
        let ghost s0 = old(self)@;
        let ghost mut done: nat = 0;
        let mut remaining_gas = gas;
        loop
            invariant
                s0 == old(self)@,
                (gas matches Gas::LIMITED(budget) ==> {
                    &&& remaining_gas matches Gas::LIMITED(remaining)
                    &&& done + remaining == budget
                    &&& self@ == run_steps(s0, done)
                    &&& steps_enabled(self@, remaining as nat)
                }),
                gas is LIMITED,
            decreases gas_left(remaining_gas),
        {
            if let Gas::LIMITED(remaining) = remaining_gas {
                if remaining == 0 {
                    return ;
                }
                remaining_gas = Gas::LIMITED(remaining - 1);
            }
            let ghost prev = self@;
            self.cpu.read_decode_execute(&mut self.bus);
            proof {
                assert(self@ == sys_step(prev));
                lemma_run_steps_snoc(s0, done);
                done = done + 1;
            }
        }
    }

    pub fn bus(&self) -> (bus: &Bus)
        ensures
            bus@ == self@.bus,
    {
        &self.bus
    }

    pub fn cpu(&self) -> (cpu: &Cpu)
        ensures
            *cpu == self@.cpu,
    {
        &self.cpu
    }
}

} // verus!
