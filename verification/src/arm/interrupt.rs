//! The software interrupt: entry into Supervisor mode.

use vstd::prelude::*;
use vstd::string::StringExecFns;
use crate::bus::{Bus, BusModel};
use crate::disasm::{hex, hex_spec};
use crate::error::CoreError;
use crate::instruction::{InstructionExecutor, Outcome};
use crate::register::RegisterBank;
use crate::status::{CpuMode, ProgramStatusRegister};

verus! {

pub const SOFTWARE_INTERRUPT_MASK: u32 = 0x0F00_0000;

pub const SOFTWARE_INTERRUPT_FORMAT: u32 = 0x0F00_0000;

/// The address of the software interrupt vector.
pub const SOFTWARE_INTERRUPT_VECTOR: u32 = 8;

/// A software interrupt, decoded.
#[derive(Copy, Clone, Debug, Eq, PartialEq, Structural)]
pub struct SoftwareInterruptInstruction {
    /// The address of the instruction after the interrupt.
    pub past_address: u32,
    /// The 24 bits that the instruction leaves to the handler.
    pub comment: u32,
}

impl SoftwareInterruptInstruction {
    /// The interrupt that an encoding stands for. The return address is the
    /// program counter at decode time: the instruction after this one.
    pub open spec fn decode_spec(pc: u32, opcode: u32) -> SoftwareInterruptInstruction {
        SoftwareInterruptInstruction { past_address: pc, comment: opcode & 0x00FF_FFFF }
    }

    /// The registers after the interrupt is taken: Supervisor's saved status
    /// holds the status at entry, the mode is Supervisor with interrupts
    /// masked, Supervisor's R14 holds the return address, the program
    /// counter is at the vector, and the pipeline is asked to flush.
    pub open spec fn apply_spec(self, registers: RegisterBank) -> RegisterBank {
        registers.with_saved_status(CpuMode::Supervisor, registers.cpsr).with_cpsr(
            ProgramStatusRegister {
                mode: CpuMode::Supervisor,
                irq_disable: true,
                ..registers.cpsr
            },
        ).write(14, CpuMode::Supervisor, self.past_address).with_pc(
            SOFTWARE_INTERRUPT_VECTOR,
        ).with_flush(true)
    }

    pub fn decode(registers: &mut RegisterBank, opcode: u32) -> (instruction: Self)
        ensures
            *final(registers) == *old(registers),
            instruction == Self::decode_spec(old(registers).pc_value(), opcode),
    {
        Self { past_address: registers.pc(), comment: opcode & 0x00FF_FFFF }
    }
}

impl InstructionExecutor for SoftwareInterruptInstruction {
    open spec fn mnemonic_spec(&self) -> Seq<char> {
        "swi"@
    }

    /// The comment field as an immediate.
    open spec fn description_spec(&self, registers: RegisterBank, bus: BusModel) -> Seq<char> {
        "#0x"@ + hex_spec(self.comment)
    }

    fn mnemonic(&self) -> (text: String) {
        String::from_str("swi")
    }

    fn description(&self, registers: &RegisterBank, bus: &mut Bus) -> (text: String) {
        let mut text = String::from_str("#0x");
        text.append(hex(self.comment).as_str());
        text
    }

    open spec fn wf(&self) -> bool {
        true
    }

    open spec fn effect(&self, registers: RegisterBank, bus: BusModel) -> Outcome {
        Outcome { registers: self.apply_spec(registers), bus, result: Ok(1) }
    }

    fn execute(&self, registers: &mut RegisterBank, bus: &mut Bus) -> (result: Result<
        usize,
        CoreError,
    >) {
        let entry = registers.cpsr;
        registers.cpsr.mode = CpuMode::Supervisor;
        registers.cpsr.irq_disable = true;
        *registers.spsr_mut() = entry;
        *registers.reg_mut(14) = self.past_address;
        *registers.pc_mut() = SOFTWARE_INTERRUPT_VECTOR;
        registers.pipeline_flush = true;
        Ok(1)
    }
}

} // verus!
