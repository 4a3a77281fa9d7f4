//! The bare processor state without a pipeline: the banked registers seen
//! through the current mode.

use vstd::prelude::*;
use crate::register::RegisterBank;

verus! {

/// A register file on its own, in User mode at first.
#[derive(Copy, Clone, Debug)]
pub struct Cpu {
    pub registers: RegisterBank,
}

impl Default for Cpu {
    fn default() -> (cpu: Cpu)
        ensures
            cpu.registers.initial(),
    {
        Cpu { registers: RegisterBank::default() }
    }
}

impl Cpu {
    /// Register `index` as the current mode sees it, to be read or written
    /// through.
    pub fn reg(&mut self, index: usize) -> (r: &mut u32)
        requires
            index < 16,
        ensures
            *r == old(self).registers.get(index as int),
            final(self).registers == old(self).registers.set(index as int, *final(r)),
    {
        self.registers.reg_mut(index)
    }

    /// Without a pipeline there is nothing to advance: the state stays as
    /// it is.
    pub fn tick(&mut self)
        ensures
            *final(self) == *old(self),
    {
    }
}

} // verus!
