//! A stepping debugger that keeps the registers from before the last step.
use vstd::prelude::*;
use crate::cpu::CPU;
use crate::machine::{CpuState, Machine};

verus! {

/// A processor under the debugger, with the state before its last step.
pub struct Debugger {
    cpu: CPU,
    state: CpuState,
}

impl Debugger {
    /// The processor.
    pub closed spec fn machine(&self) -> Machine {
        self.cpu@
    }

    /// The registers as they were before the last step.
    pub closed spec fn saved(&self) -> CpuState {
        self.state
    }

    /// Takes over `cpu`; the saved registers start as its current ones.
    pub fn new(cpu: CPU) -> (r: Debugger)
        ensures
            r.machine() == cpu@,
            r.saved() == cpu@.regs,
    {
        let state = cpu.registers();
        Debugger { cpu: cpu, state: state }
    }

    /// Saves the registers, then runs one instruction.
    pub fn step(&mut self)
        ensures
            final(self).saved() == old(self).machine().regs,
            final(self).machine() == old(self).machine().step(),
    {
        self.state.store(&self.cpu);
        self.cpu.step();
    }

    /// The processor.
    pub fn cpu(&self) -> (r: &CPU)
        ensures
            r@ == self.machine(),
    {
        &self.cpu
    }

    /// The registers as they were before the last step.
    pub fn state(&self) -> (r: CpuState)
        ensures
            r == self.saved(),
    {
        self.state
    }
}

} // verus!
