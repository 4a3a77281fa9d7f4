//! What the decoder hands to the executor: operands, the instruction
//! families, and the contract that every family's executor meets.

use vstd::prelude::*;
use crate::arm::arithmetic::DataProcessingInstruction;
use crate::arm::branch::{BranchAndExchangeInstruction, BranchInstruction};
use crate::arm::halfword::HalfwordDataTransferRegInstruction;
use crate::arm::interrupt::SoftwareInterruptInstruction;
use crate::arm::transfer::{BlockDataTransferInstruction, PsrTransferMrsInstruction,
    PsrTransferMsrInstruction, SingleDataSwapInstruction, SingleDataTransferInstruction};
use crate::bus::{Bus, BusModel};
use crate::thumb::branch::LongBranchWithLinkInstruction;
use crate::error::CoreError;
use crate::register::RegisterBank;
use crate::shift::Shift;
use crate::status::CpuMode;

verus! {

/// The second operand of an instruction.
#[derive(Copy, Clone, Eq, PartialEq, Structural, Debug)]
pub enum Operand {
    /// A value known at decode time, with the carry that the shifter gives
    /// for it.
    Immediate(u32, bool),
    /// The value of a register; the carry flag passes through.
    Register(u32),
    /// A register sent through the barrel shifter.
    RegisterShifted(Shift),
}

impl Operand {
    pub open spec fn wf(self) -> bool {
        match self {
            Operand::Immediate(_, _) => true,
            Operand::Register(index) => index < 16,
            Operand::RegisterShifted(shift) => shift.wf(),
        }
    }

    /// Whether the operand is shifted by an amount held in a register.
    pub open spec fn shifts_by_register(self) -> bool {
        match self {
            Operand::RegisterShifted(shift) => shift.by_register(),
            _ => false,
        }
    }

    /// The operand's value and the shifter's carry out.
    pub open spec fn value_spec(self, registers: RegisterBank) -> (u32, bool) {
        match self {
            Operand::Immediate(value, carry) => (value, carry),
            Operand::Register(index) => (registers.get(index as int), registers.cpsr.carry),
            Operand::RegisterShifted(shift) => shift.shift_spec(registers),
        }
    }

    pub fn value(&self, registers: &RegisterBank) -> (result: (u32, bool))
        requires
            self.wf(),
        ensures
            result == self.value_spec(*registers),
    {
        match self {
            Operand::Immediate(value, carry) => (*value, *carry),
            Operand::Register(index) => (registers.reg(*index as usize), registers.cpsr.carry),
            Operand::RegisterShifted(shift) => shift.shift(registers),
        }
    }

    pub fn uses_register_shift(&self) -> (by_register: bool)
        ensures
            by_register == self.shifts_by_register(),
    {
        match self {
            Operand::RegisterShifted(Shift::Register(_)) => true,
            _ => false,
        }
    }
}

/// The state that an instruction leaves behind, and what it reports: the
/// cycles it took, or the fault that stopped it.
pub struct Outcome {
    pub registers: RegisterBank,
    pub bus: BusModel,
    pub result: Result<usize, CoreError>,
}

impl RegisterBank {
    /// The bank after an instruction stores `value` in register `index` as
    /// seen under `mode`. A store to R15 moves the program counter, so it
    /// also asks the pipeline to flush.
    pub open spec fn store(self, index: int, mode: CpuMode, value: u32) -> RegisterBank {
        if index == 15 {
            self.write(index, mode, value).with_flush(true)
        } else {
            self.write(index, mode, value)
        }
    }

    /// Stores `value` in register `index` as seen under `mode`, and asks for
    /// a pipeline flush where that register is the program counter.
    pub fn store_with_mode(&mut self, index: usize, mode: CpuMode, value: u32)
        requires
            index < 16,
        ensures
            *final(self) == old(self).store(index as int, mode, value),
    {
        *self.reg_with_mode_mut(index, mode) = value;
        if index == 15 {
            self.pipeline_flush = true;
        }
    }

    /// Stores `value` in register `index` as seen under the current mode.
    pub fn store_current(&mut self, index: usize, value: u32)
        requires
            index < 16,
        ensures
            *final(self) == old(self).store(index as int, old(self).cpsr.mode, value),
    {
        let mode = self.cpsr.mode;
        self.store_with_mode(index, mode, value);
    }
}

/// What the pipeline asks of a decoded instruction.
pub trait InstructionExecutor {
    /// The register indices that the instruction names are below 16, and
    /// its fields agree with each other.
    spec fn wf(&self) -> bool;

    /// What executing the instruction does to registers and memory.
    spec fn effect(&self, registers: RegisterBank, bus: BusModel) -> Outcome;

    /// The instruction's name as an assembler writes it.
    spec fn mnemonic_spec(&self) -> Seq<char>;

    /// The instruction's operands as the debugger shows them.
    spec fn description_spec(&self, registers: RegisterBank, bus: BusModel) -> Seq<char>;

    fn mnemonic(&self) -> (text: String)
        ensures
            text@ == self.mnemonic_spec(),
    ;

    fn description(&self, registers: &RegisterBank, bus: &mut Bus) -> (text: String)
        requires
            self.wf(),
            old(bus)@.wf(),
        ensures
            final(bus)@ == old(bus)@,
            text@ == self.description_spec(*registers, old(bus)@),
    ;

    fn execute(&self, registers: &mut RegisterBank, bus: &mut Bus) -> (result: Result<
        usize,
        CoreError,
    >)
        requires
            self.wf(),
            old(bus)@.wf(),
        ensures
            final(bus)@.wf(),
            *final(registers) == self.effect(*old(registers), old(bus)@).registers,
            final(bus)@ == self.effect(*old(registers), old(bus)@).bus,
            result == self.effect(*old(registers), old(bus)@).result,
    ;
}

/// A decoded instruction of any family.
#[derive(Copy, Clone, Eq, PartialEq, Structural, Debug)]
pub enum Instruction {
    Branch(BranchInstruction),
    BranchAndExchange(BranchAndExchangeInstruction),
    LongBranchWithLink(LongBranchWithLinkInstruction),
    DataProcessing(DataProcessingInstruction),
    SingleDataTransfer(SingleDataTransferInstruction),
    SoftwareInterrupt(SoftwareInterruptInstruction),
    BlockDataTransfer(BlockDataTransferInstruction),
    PsrTransferMrs(PsrTransferMrsInstruction),
    PsrTransferMsr(PsrTransferMsrInstruction),
    SingleDataSwap(SingleDataSwapInstruction),
    HalfwordDataTransfer(HalfwordDataTransferRegInstruction),
}

impl InstructionExecutor for Instruction {
    open spec fn mnemonic_spec(&self) -> Seq<char> {
        match self {
            Instruction::Branch(i) => i.mnemonic_spec(),
            Instruction::BranchAndExchange(i) => i.mnemonic_spec(),
            Instruction::LongBranchWithLink(i) => i.mnemonic_spec(),
            Instruction::DataProcessing(i) => i.mnemonic_spec(),
            Instruction::SingleDataTransfer(i) => i.mnemonic_spec(),
            Instruction::SoftwareInterrupt(i) => i.mnemonic_spec(),
            Instruction::BlockDataTransfer(i) => i.mnemonic_spec(),
            Instruction::PsrTransferMrs(i) => i.mnemonic_spec(),
            Instruction::PsrTransferMsr(i) => i.mnemonic_spec(),
            Instruction::SingleDataSwap(i) => i.mnemonic_spec(),
            Instruction::HalfwordDataTransfer(i) => i.mnemonic_spec(),
        }
    }

    open spec fn description_spec(&self, registers: RegisterBank, bus: BusModel) -> Seq<char> {
        match self {
            Instruction::Branch(i) => i.description_spec(registers, bus),
            Instruction::BranchAndExchange(i) => i.description_spec(registers, bus),
            Instruction::LongBranchWithLink(i) => i.description_spec(registers, bus),
            Instruction::DataProcessing(i) => i.description_spec(registers, bus),
            Instruction::SingleDataTransfer(i) => i.description_spec(registers, bus),
            Instruction::SoftwareInterrupt(i) => i.description_spec(registers, bus),
            Instruction::BlockDataTransfer(i) => i.description_spec(registers, bus),
            Instruction::PsrTransferMrs(i) => i.description_spec(registers, bus),
            Instruction::PsrTransferMsr(i) => i.description_spec(registers, bus),
            Instruction::SingleDataSwap(i) => i.description_spec(registers, bus),
            Instruction::HalfwordDataTransfer(i) => i.description_spec(registers, bus),
        }
    }

    fn mnemonic(&self) -> (text: String) {
        match self {
            Instruction::Branch(i) => i.mnemonic(),
            Instruction::BranchAndExchange(i) => i.mnemonic(),
            Instruction::LongBranchWithLink(i) => i.mnemonic(),
            Instruction::DataProcessing(i) => i.mnemonic(),
            Instruction::SingleDataTransfer(i) => i.mnemonic(),
            Instruction::SoftwareInterrupt(i) => i.mnemonic(),
            Instruction::BlockDataTransfer(i) => i.mnemonic(),
            Instruction::PsrTransferMrs(i) => i.mnemonic(),
            Instruction::PsrTransferMsr(i) => i.mnemonic(),
            Instruction::SingleDataSwap(i) => i.mnemonic(),
            Instruction::HalfwordDataTransfer(i) => i.mnemonic(),
        }
    }

    fn description(&self, registers: &RegisterBank, bus: &mut Bus) -> (text: String) {
        match self {
            Instruction::Branch(i) => i.description(registers, bus),
            Instruction::BranchAndExchange(i) => i.description(registers, bus),
            Instruction::LongBranchWithLink(i) => i.description(registers, bus),
            Instruction::DataProcessing(i) => i.description(registers, bus),
            Instruction::SingleDataTransfer(i) => i.description(registers, bus),
            Instruction::SoftwareInterrupt(i) => i.description(registers, bus),
            Instruction::BlockDataTransfer(i) => i.description(registers, bus),
            Instruction::PsrTransferMrs(i) => i.description(registers, bus),
            Instruction::PsrTransferMsr(i) => i.description(registers, bus),
            Instruction::SingleDataSwap(i) => i.description(registers, bus),
            Instruction::HalfwordDataTransfer(i) => i.description(registers, bus),
        }
    }

    open spec fn wf(&self) -> bool {
        match self {
            Instruction::Branch(i) => i.wf(),
            Instruction::BranchAndExchange(i) => i.wf(),
            Instruction::LongBranchWithLink(i) => i.wf(),
            Instruction::DataProcessing(i) => i.wf(),
            Instruction::SingleDataTransfer(i) => i.wf(),
            Instruction::SoftwareInterrupt(i) => i.wf(),
            Instruction::BlockDataTransfer(i) => i.wf(),
            Instruction::PsrTransferMrs(i) => i.wf(),
            Instruction::PsrTransferMsr(i) => i.wf(),
            Instruction::SingleDataSwap(i) => i.wf(),
            Instruction::HalfwordDataTransfer(i) => i.wf(),
        }
    }

    open spec fn effect(&self, registers: RegisterBank, bus: BusModel) -> Outcome {
        match self {
            Instruction::Branch(i) => i.effect(registers, bus),
            Instruction::BranchAndExchange(i) => i.effect(registers, bus),
            Instruction::LongBranchWithLink(i) => i.effect(registers, bus),
            Instruction::DataProcessing(i) => i.effect(registers, bus),
            Instruction::SingleDataTransfer(i) => i.effect(registers, bus),
            Instruction::SoftwareInterrupt(i) => i.effect(registers, bus),
            Instruction::BlockDataTransfer(i) => i.effect(registers, bus),
            Instruction::PsrTransferMrs(i) => i.effect(registers, bus),
            Instruction::PsrTransferMsr(i) => i.effect(registers, bus),
            Instruction::SingleDataSwap(i) => i.effect(registers, bus),
            Instruction::HalfwordDataTransfer(i) => i.effect(registers, bus),
        }
    }

    fn execute(&self, registers: &mut RegisterBank, bus: &mut Bus) -> (result: Result<
        usize,
        CoreError,
    >) {
        match self {
            Instruction::Branch(i) => i.execute(registers, bus),
            Instruction::BranchAndExchange(i) => i.execute(registers, bus),
            Instruction::LongBranchWithLink(i) => i.execute(registers, bus),
            Instruction::DataProcessing(i) => i.execute(registers, bus),
            Instruction::SingleDataTransfer(i) => i.execute(registers, bus),
            Instruction::SoftwareInterrupt(i) => i.execute(registers, bus),
            Instruction::BlockDataTransfer(i) => i.execute(registers, bus),
            Instruction::PsrTransferMrs(i) => i.execute(registers, bus),
            Instruction::PsrTransferMsr(i) => i.execute(registers, bus),
            Instruction::SingleDataSwap(i) => i.execute(registers, bus),
            Instruction::HalfwordDataTransfer(i) => i.execute(registers, bus),
        }
    }
}

/// A decoded instruction with where it came from and when it runs.
#[derive(Copy, Clone, Eq, PartialEq, Structural, Debug)]
pub struct Operation {
    /// The address that the instruction was fetched from.
    pub location: u32,
    /// The raw encoding.
    pub opcode: u32,
    /// The four-bit condition under which the instruction runs.
    pub condition: u32,
    pub instruction: Instruction,
}

} // verus!
