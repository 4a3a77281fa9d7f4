//! The three-stage pipeline: each tick executes what was decoded, decodes
//! what was fetched, and fetches the next instruction.

use vstd::prelude::*;
use crate::arm::arithmetic::{DataProcessingInstruction, DATA_PROCESSING_FORMAT,
    DATA_PROCESSING_MASK};
use crate::arm::branch::{BranchAndExchangeInstruction, BranchInstruction,
    BRANCH_AND_EXCHANGE_FORMAT, BRANCH_AND_EXCHANGE_MASK, BRANCH_FORMAT, BRANCH_MASK};
use crate::arm::halfword::{HalfwordDataTransferRegInstruction, HALFWORD_DATA_TRANSFER_KIND,
    HALFWORD_DATA_TRANSFER_REG_FORMAT, HALFWORD_DATA_TRANSFER_REG_MASK};
use crate::arm::interrupt::{SoftwareInterruptInstruction, SOFTWARE_INTERRUPT_FORMAT,
    SOFTWARE_INTERRUPT_MASK};
use crate::arm::multiply::{is_multiply, MULTIPLY_FORMAT, MULTIPLY_LONG_FORMAT, MULTIPLY_MASK};
use crate::arm::transfer::{BlockDataTransferInstruction, PsrTransferMrsInstruction,
    PsrTransferMsrInstruction, SingleDataSwapInstruction, SingleDataTransferInstruction,
    BLOCK_TRANSFER_FORMAT, BLOCK_TRANSFER_MASK, PSR_TRANSFER_MRS_FORMAT, PSR_TRANSFER_MRS_MASK,
    PSR_TRANSFER_MSR_FORMAT, PSR_TRANSFER_MSR_MASK, SINGLE_DATA_SWAP_FORMAT,
    SINGLE_DATA_SWAP_MASK, SINGLE_TRANSFER_FORMAT, SINGLE_TRANSFER_MASK};
use crate::bus::{Bus, BusModel};
use crate::disasm::{condition_label_spec, get_condition_label, log_line, log_line_spec};
use crate::error::CoreError;
use crate::instruction::{Instruction, InstructionExecutor, Operation};
use crate::register::RegisterBank;
use crate::status::{CpuMode, InstructionMode, ProgramStatusRegister};
use crate::thumb;
use crate::thumb::branch::LongBranchWithLinkInstruction;

verus! {

/// Whether the flags satisfy a four-bit condition code. The reserved code
/// 15 never holds.
pub open spec fn condition_holds(status: ProgramStatusRegister, condition: u32) -> bool {
    if condition == 0x0 {
        status.zero
    } else if condition == 0x1 {
        !status.zero
    } else if condition == 0x2 {
        status.carry
    } else if condition == 0x3 {
        !status.carry
    } else if condition == 0x4 {
        status.signed
    } else if condition == 0x5 {
        !status.signed
    } else if condition == 0x6 {
        status.overflow
    } else if condition == 0x7 {
        !status.overflow
    } else if condition == 0x8 {
        status.carry && !status.zero
    } else if condition == 0x9 {
        !status.carry || status.zero
    } else if condition == 0xA {
        status.signed == status.overflow
    } else if condition == 0xB {
        status.signed != status.overflow
    } else if condition == 0xC {
        !status.zero && status.signed == status.overflow
    } else if condition == 0xD {
        status.zero || status.signed != status.overflow
    } else if condition == 0xF {
        false
    } else {
        true
    }
}

/// The instruction that a 32-bit ARM encoding stands for. The forms are
/// tried in a fixed order, since later ones are special cases of earlier
/// masks; multiplies are recognised and reported as not implemented, as is
/// every encoding that matches no form.
pub open spec fn decode_arm_spec(registers: RegisterBank, opcode: u32) -> Result<
    Instruction,
    CoreError,
> {
    if opcode & BRANCH_AND_EXCHANGE_MASK == BRANCH_AND_EXCHANGE_FORMAT {
        Ok(
            Instruction::BranchAndExchange(
                BranchAndExchangeInstruction { target_register: opcode & 0xF },
            ),
        )
    } else if opcode & BLOCK_TRANSFER_MASK == BLOCK_TRANSFER_FORMAT {
        Ok(Instruction::BlockDataTransfer(BlockDataTransferInstruction::decode_spec(opcode)))
    } else if opcode & BRANCH_MASK == BRANCH_FORMAT {
        Ok(Instruction::Branch(BranchInstruction::decode_spec(registers.pc_value(), opcode)))
    } else if opcode & SOFTWARE_INTERRUPT_MASK == SOFTWARE_INTERRUPT_FORMAT {
        Ok(
            Instruction::SoftwareInterrupt(
                SoftwareInterruptInstruction::decode_spec(registers.pc_value(), opcode),
            ),
        )
    } else if opcode & SINGLE_TRANSFER_MASK == SINGLE_TRANSFER_FORMAT {
        Ok(Instruction::SingleDataTransfer(SingleDataTransferInstruction::decode_spec(opcode)))
    } else if opcode & SINGLE_DATA_SWAP_MASK == SINGLE_DATA_SWAP_FORMAT {
        Ok(Instruction::SingleDataSwap(SingleDataSwapInstruction::decode_spec(opcode)))
    } else if is_multiply(opcode) {
        Err(CoreError::OpcodeNotImplemented(opcode))
    } else if opcode & HALFWORD_DATA_TRANSFER_REG_MASK == HALFWORD_DATA_TRANSFER_REG_FORMAT
        && opcode & HALFWORD_DATA_TRANSFER_KIND != 0 {
        Ok(
            Instruction::HalfwordDataTransfer(
                HalfwordDataTransferRegInstruction::decode_spec(opcode),
            ),
        )
    } else if opcode & PSR_TRANSFER_MRS_MASK == PSR_TRANSFER_MRS_FORMAT {
        Ok(Instruction::PsrTransferMrs(PsrTransferMrsInstruction::decode_spec(opcode)))
    } else if opcode & PSR_TRANSFER_MSR_MASK == PSR_TRANSFER_MSR_FORMAT {
        Ok(Instruction::PsrTransferMsr(PsrTransferMsrInstruction::decode_spec(opcode)))
    } else if opcode & DATA_PROCESSING_MASK == DATA_PROCESSING_FORMAT {
        Ok(
            Instruction::DataProcessing(
                DataProcessingInstruction::decode_spec(registers.cpsr.carry, opcode),
            ),
        )
    } else {
        Err(CoreError::OpcodeNotImplemented(opcode))
    }
}

/// Decodes a 32-bit ARM encoding. The registers are read for the return
/// address of a link and for the carry of an immediate; they are not
/// changed.
pub fn decode_arm_instruction(registers: &mut RegisterBank, opcode: u32) -> (decoded: Result<
    Instruction,
    CoreError,
>)
    ensures
        *final(registers) == *old(registers),
        decoded == decode_arm_spec(*old(registers), opcode),
        decoded is Ok ==> decoded->Ok_0.wf(),
{
    if (opcode & BRANCH_AND_EXCHANGE_MASK) == BRANCH_AND_EXCHANGE_FORMAT {
        Ok(Instruction::BranchAndExchange(BranchAndExchangeInstruction::decode(registers, opcode)))
    } else if (opcode & BLOCK_TRANSFER_MASK) == BLOCK_TRANSFER_FORMAT {
        Ok(Instruction::BlockDataTransfer(BlockDataTransferInstruction::decode(registers, opcode)))
    } else if (opcode & BRANCH_MASK) == BRANCH_FORMAT {
        Ok(Instruction::Branch(BranchInstruction::decode(registers, opcode)))
    } else if (opcode & SOFTWARE_INTERRUPT_MASK) == SOFTWARE_INTERRUPT_FORMAT {
        Ok(Instruction::SoftwareInterrupt(SoftwareInterruptInstruction::decode(registers, opcode)))
    } else if (opcode & SINGLE_TRANSFER_MASK) == SINGLE_TRANSFER_FORMAT {
        Ok(
            Instruction::SingleDataTransfer(
                SingleDataTransferInstruction::decode(registers, opcode),
            ),
        )
    } else if (opcode & SINGLE_DATA_SWAP_MASK) == SINGLE_DATA_SWAP_FORMAT {
        Ok(Instruction::SingleDataSwap(SingleDataSwapInstruction::decode(opcode)))
    } else if (opcode & MULTIPLY_MASK) == MULTIPLY_FORMAT {
        Err(CoreError::OpcodeNotImplemented(opcode))
    } else if (opcode & MULTIPLY_MASK) == MULTIPLY_LONG_FORMAT {
        Err(CoreError::OpcodeNotImplemented(opcode))
    } else if (opcode & HALFWORD_DATA_TRANSFER_REG_MASK) == HALFWORD_DATA_TRANSFER_REG_FORMAT && (
    opcode & HALFWORD_DATA_TRANSFER_KIND) != 0 {
        Ok(Instruction::HalfwordDataTransfer(HalfwordDataTransferRegInstruction::decode(opcode)))
    } else if (opcode & PSR_TRANSFER_MRS_MASK) == PSR_TRANSFER_MRS_FORMAT {
        Ok(Instruction::PsrTransferMrs(PsrTransferMrsInstruction::decode(opcode)))
    } else if (opcode & PSR_TRANSFER_MSR_MASK) == PSR_TRANSFER_MSR_FORMAT {
        Ok(Instruction::PsrTransferMsr(PsrTransferMsrInstruction::decode(registers, opcode)))
    } else if (opcode & DATA_PROCESSING_MASK) == DATA_PROCESSING_FORMAT {
        Ok(Instruction::DataProcessing(DataProcessingInstruction::decode(registers, opcode)))
    } else {
        Err(CoreError::OpcodeNotImplemented(opcode))
    }
}

/// The condition under which a 16-bit Thumb encoding runs: bits 11 to 8 of
/// a conditional branch, and always for every other form.
pub open spec fn thumb_condition(opcode: u32) -> u32 {
    if opcode & thumb::branch::CONDITIONAL_BRANCH_MASK == thumb::branch::CONDITIONAL_BRANCH_FORMAT {
        (opcode >> 8) & 0xF
    } else {
        0xE
    }
}

/// The instruction that a 16-bit Thumb encoding stands for. The forms are
/// tried in a fixed order. The software interrupt, the unconditional
/// branch, the multiple load and store, the load of an address and the
/// multiplication are recognised and reported as not implemented, as is
/// every encoding that matches no form.
pub open spec fn decode_thumb_spec(opcode: u32) -> Result<Instruction, CoreError> {
    if opcode & thumb::branch::SOFTWARE_INTERRUPT_MASK == thumb::branch::SOFTWARE_INTERRUPT_FORMAT {
        Err(CoreError::OpcodeNotImplemented(opcode))
    } else if opcode & thumb::branch::UNCONDITIONAL_BRANCH_MASK
        == thumb::branch::UNCONDITIONAL_BRANCH_FORMAT {
        Err(CoreError::OpcodeNotImplemented(opcode))
    } else if opcode & thumb::branch::CONDITIONAL_BRANCH_MASK
        == thumb::branch::CONDITIONAL_BRANCH_FORMAT {
        Ok(thumb::branch::conditional_branch_spec(opcode))
    } else if opcode & thumb::load::MULTIPLE_LOAD_STORE_MASK
        == thumb::load::MULTIPLE_LOAD_STORE_FORMAT {
        Err(CoreError::OpcodeNotImplemented(opcode))
    } else if opcode & thumb::branch::LONG_BRANCH_WITH_LINK_MASK
        == thumb::branch::LONG_BRANCH_WITH_LINK_FORMAT {
        Ok(Instruction::LongBranchWithLink(LongBranchWithLinkInstruction::decode_spec(opcode)))
    } else if opcode & thumb::stack::ADD_OFFSET_TO_STACK_POINTER_MASK
        == thumb::stack::ADD_OFFSET_TO_STACK_POINTER_FORMAT {
        Ok(thumb::stack::add_offset_stack_pointer_spec(opcode))
    } else if opcode & thumb::stack::PUSH_POP_REGISTERS_MASK
        == thumb::stack::PUSH_POP_REGISTERS_FORMAT {
        Ok(thumb::stack::push_pop_registers_spec(opcode))
    } else if opcode & thumb::load::LOAD_STORE_HALFWORD_MASK
        == thumb::load::LOAD_STORE_HALFWORD_FORMAT {
        Ok(thumb::load::load_store_halfword_spec(opcode))
    } else if opcode & thumb::load::SP_RELATIVE_LOAD_STORE_MASK
        == thumb::load::SP_RELATIVE_LOAD_STORE_FORMAT {
        Ok(thumb::load::sp_relative_load_store_spec(opcode))
    } else if opcode & thumb::load::LOAD_ADDRESS_MASK == thumb::load::LOAD_ADDRESS_FORMAT {
        Err(CoreError::OpcodeNotImplemented(opcode))
    } else if opcode & thumb::load::LOAD_STORE_WITH_IMMEDIATE_OFFSET_MASK
        == thumb::load::LOAD_STORE_WITH_IMMEDIATE_OFFSET_FORMAT {
        Ok(thumb::load::load_store_immediate_offset_spec(opcode))
    } else if opcode & thumb::load::LOAD_STORE_WITH_REGISTER_OFFSET_MASK
        == thumb::load::LOAD_STORE_WITH_REGISTER_OFFSET_FORMAT {
        Ok(thumb::load::load_store_register_offset_spec(opcode))
    } else if opcode & thumb::load::LOAD_STORE_SIGN_EXT_BYTE_HALFWORD_MASK
        == thumb::load::LOAD_STORE_SIGN_EXT_BYTE_HALFWORD_FORMAT {
        Ok(thumb::load::load_store_sign_extended_spec(opcode))
    } else if opcode & thumb::load::PC_RELATIVE_LOAD_MASK == thumb::load::PC_RELATIVE_LOAD_FORMAT {
        Ok(thumb::load::pc_relative_load_spec(opcode))
    } else if opcode & thumb::branch::HI_REGISTER_OPERATIONS_BRANCH_EXCHANGE_MASK
        == thumb::branch::HI_REGISTER_OPERATIONS_BRANCH_EXCHANGE_FORMAT {
        Ok(thumb::branch::hi_reg_branch_exchange_spec(opcode))
    } else if opcode & thumb::alu::ALU_OPERATION_MASK == thumb::alu::ALU_OPERATION_FORMAT {
        thumb::alu::alu_operations_spec(opcode)
    } else if opcode & thumb::alu::MOVE_COMPARE_ADD_SUBTRACT_IMMEDIATE_MASK
        == thumb::alu::MOVE_COMPARE_ADD_SUBTRACT_IMMEDIATE_FORMAT {
        Ok(thumb::alu::mcas_immediate_spec(opcode))
    } else if opcode & thumb::alu::ADD_SUBTRACT_MASK == thumb::alu::ADD_SUBTRACT_FORMAT {
        Ok(thumb::alu::add_subtract_spec(opcode))
    } else if opcode & thumb::alu::MOVE_SHIFTED_REGISTER_MASK
        == thumb::alu::MOVE_SHIFTED_REGISTER_FORMAT {
        Ok(thumb::alu::move_shifted_register_spec(opcode))
    } else {
        Err(CoreError::OpcodeNotImplemented(opcode))
    }
}

/// Decodes a 16-bit Thumb encoding.
pub fn decode_thumb_instruction(opcode: u32) -> (decoded: Result<Instruction, CoreError>)
    ensures
        decoded == decode_thumb_spec(opcode),
        decoded is Ok ==> decoded->Ok_0.wf(),
{
    if (opcode & thumb::branch::SOFTWARE_INTERRUPT_MASK) == thumb::branch::SOFTWARE_INTERRUPT_FORMAT {
        Err(CoreError::OpcodeNotImplemented(opcode))
    } else if (opcode & thumb::branch::UNCONDITIONAL_BRANCH_MASK)
        == thumb::branch::UNCONDITIONAL_BRANCH_FORMAT {
        Err(CoreError::OpcodeNotImplemented(opcode))
    } else if (opcode & thumb::branch::CONDITIONAL_BRANCH_MASK)
        == thumb::branch::CONDITIONAL_BRANCH_FORMAT {
        Ok(thumb::branch::decode_conditional_branch(opcode))
    } else if (opcode & thumb::load::MULTIPLE_LOAD_STORE_MASK)
        == thumb::load::MULTIPLE_LOAD_STORE_FORMAT {
        Err(CoreError::OpcodeNotImplemented(opcode))
    } else if (opcode & thumb::branch::LONG_BRANCH_WITH_LINK_MASK)
        == thumb::branch::LONG_BRANCH_WITH_LINK_FORMAT {
        Ok(Instruction::LongBranchWithLink(LongBranchWithLinkInstruction::decode(opcode)))
    } else if (opcode & thumb::stack::ADD_OFFSET_TO_STACK_POINTER_MASK)
        == thumb::stack::ADD_OFFSET_TO_STACK_POINTER_FORMAT {
        Ok(thumb::stack::decode_add_offset_stack_pointer(opcode))
    } else if (opcode & thumb::stack::PUSH_POP_REGISTERS_MASK)
        == thumb::stack::PUSH_POP_REGISTERS_FORMAT {
        Ok(thumb::stack::decode_push_pop_registers(opcode))
    } else if (opcode & thumb::load::LOAD_STORE_HALFWORD_MASK)
        == thumb::load::LOAD_STORE_HALFWORD_FORMAT {
        Ok(thumb::load::decode_load_store_halfword(opcode))
    } else if (opcode & thumb::load::SP_RELATIVE_LOAD_STORE_MASK)
        == thumb::load::SP_RELATIVE_LOAD_STORE_FORMAT {
        Ok(thumb::load::decode_sp_relative_load_store(opcode))
    } else if (opcode & thumb::load::LOAD_ADDRESS_MASK) == thumb::load::LOAD_ADDRESS_FORMAT {
        Err(CoreError::OpcodeNotImplemented(opcode))
    } else if (opcode & thumb::load::LOAD_STORE_WITH_IMMEDIATE_OFFSET_MASK)
        == thumb::load::LOAD_STORE_WITH_IMMEDIATE_OFFSET_FORMAT {
        Ok(thumb::load::decode_load_store_immediate_offset(opcode))
    } else if (opcode & thumb::load::LOAD_STORE_WITH_REGISTER_OFFSET_MASK)
        == thumb::load::LOAD_STORE_WITH_REGISTER_OFFSET_FORMAT {
        Ok(thumb::load::decode_load_store_register_offset(opcode))
    } else if (opcode & thumb::load::LOAD_STORE_SIGN_EXT_BYTE_HALFWORD_MASK)
        == thumb::load::LOAD_STORE_SIGN_EXT_BYTE_HALFWORD_FORMAT {
        Ok(thumb::load::decode_load_store_sign_extended(opcode))
    } else if (opcode & thumb::load::PC_RELATIVE_LOAD_MASK) == thumb::load::PC_RELATIVE_LOAD_FORMAT {
        Ok(thumb::load::decode_pc_relative_load(opcode))
    } else if (opcode & thumb::branch::HI_REGISTER_OPERATIONS_BRANCH_EXCHANGE_MASK)
        == thumb::branch::HI_REGISTER_OPERATIONS_BRANCH_EXCHANGE_FORMAT {
        Ok(thumb::branch::decode_hi_reg_branch_exchange(opcode))
    } else if (opcode & thumb::alu::ALU_OPERATION_MASK) == thumb::alu::ALU_OPERATION_FORMAT {
        thumb::alu::decode_alu_operations(opcode)
    } else if (opcode & thumb::alu::MOVE_COMPARE_ADD_SUBTRACT_IMMEDIATE_MASK)
        == thumb::alu::MOVE_COMPARE_ADD_SUBTRACT_IMMEDIATE_FORMAT {
        Ok(thumb::alu::decode_mcas_immediate(opcode))
    } else if (opcode & thumb::alu::ADD_SUBTRACT_MASK) == thumb::alu::ADD_SUBTRACT_FORMAT {
        Ok(thumb::alu::decode_add_subtract(opcode))
    } else if (opcode & thumb::alu::MOVE_SHIFTED_REGISTER_MASK)
        == thumb::alu::MOVE_SHIFTED_REGISTER_FORMAT {
        Ok(thumb::alu::decode_move_shifted_register(opcode))
    } else {
        Err(CoreError::OpcodeNotImplemented(opcode))
    }
}

/// The processor: its registers and the two slots of the pipeline.
#[derive(Copy, Clone, Debug)]
pub struct Interpreter {
    pub registers: RegisterBank,
    /// The raw word that the last tick fetched, and its address.
    pub fetched_instruction: Option<(u32, u32)>,
    /// The instruction that the last tick decoded.
    pub decoded_instruction: Option<Operation>,
    pub logging_enabled: bool,
}

/// The machine after one stage or one tick, and what it reports.
pub struct Step {
    pub cpu: Interpreter,
    pub bus: BusModel,
    pub result: Result<usize, CoreError>,
}

/// A 16-bit word as a 32-bit word.
pub open spec fn widen_word(read: Result<u16, CoreError>) -> Result<u32, CoreError> {
    match read {
        Ok(word) => Ok(word as u32),
        Err(e) => Err(e),
    }
}

impl Interpreter {
    /// The decoded instruction, if any, names registers below 16 and has a
    /// condition of four bits.
    pub open spec fn wf(self) -> bool {
        match self.decoded_instruction {
            Some(operation) => operation.instruction.wf() && operation.condition < 16,
            None => true,
        }
    }

    /// The line that the debugger shows for the instruction that the next
    /// tick executes; nothing where logging is off or nothing is decoded.
    pub open spec fn pending_log_spec(self, bus: BusModel) -> Option<Seq<char>> {
        match self.decoded_instruction {
            Some(operation) => if self.logging_enabled {
                Some(
                    log_line_spec(
                        operation.location,
                        operation.opcode,
                        operation.condition,
                        operation.instruction.mnemonic_spec(),
                        operation.instruction.description_spec(self.registers, bus),
                    ),
                )
            } else {
                None
            },
            None => None,
        }
    }

    /// The processor with the flush that an instruction asked for carried
    /// out: both slots empty and the request cleared.
    pub open spec fn flushed(self) -> Interpreter {
        if self.registers.pipeline_flush {
            Interpreter {
                registers: self.registers.with_flush(false),
                fetched_instruction: None,
                decoded_instruction: None,
                logging_enabled: self.logging_enabled,
            }
        } else {
            self
        }
    }

    /// The first stage: the decoded instruction is executed if its
    /// condition holds, and a flush that it asks for is carried out. With
    /// nothing decoded, or a condition that fails, one cycle passes.
    pub open spec fn execute_spec(self, bus: BusModel) -> Step {
        match self.decoded_instruction {
            Some(operation) => if condition_holds(self.registers.cpsr, operation.condition) {
                let outcome = operation.instruction.effect(self.registers, bus);
                Step {
                    cpu: (Interpreter { registers: outcome.registers, ..self }).flushed(),
                    bus: outcome.bus,
                    result: outcome.result,
                }
            } else {
                Step { cpu: self, bus, result: Ok(1) }
            },
            None => Step { cpu: self, bus, result: Ok(1) },
        }
    }

    /// The operation that a fetched word stands for when it is read as an
    /// instruction of the set `mode`. In Thumb only the low sixteen bits
    /// count.
    pub open spec fn decoded_spec(
        self,
        mode: InstructionMode,
        raw: u32,
        location: u32,
    ) -> Result<Operation, CoreError> {
        match mode {
            InstructionMode::Arm => match decode_arm_spec(self.registers, raw) {
                Ok(instruction) => Ok(
                    Operation { location, opcode: raw, condition: raw >> 28, instruction },
                ),
                Err(e) => Err(e),
            },
            InstructionMode::Thumb => match decode_thumb_spec(raw & 0xFFFF) {
                Ok(instruction) => Ok(
                    Operation {
                        location,
                        opcode: raw & 0xFFFF,
                        condition: thumb_condition(raw & 0xFFFF),
                        instruction,
                    },
                ),
                Err(e) => Err(e),
            },
        }
    }

    /// The fetched word, if any, decoded as an instruction of the set
    /// `mode` into the decoded slot. A fault of the decoder leaves the slot
    /// as it was.
    pub open spec fn decode_as(self, mode: InstructionMode) -> (Interpreter, Result<(), CoreError>) {
        match self.fetched_instruction {
            None => (self, Ok(())),
            Some((raw, location)) => match self.decoded_spec(mode, raw, location) {
                Ok(operation) => (
                    Interpreter { decoded_instruction: Some(operation), ..self },
                    Ok(()),
                ),
                Err(e) => (self, Err(e)),
            },
        }
    }

    /// The second stage: the fetched word is decoded under the current
    /// instruction set.
    pub open spec fn decode_spec(self) -> (Interpreter, Result<(), CoreError>) {
        self.decode_as(self.registers.cpsr.instruction_mode)
    }

    /// The third stage: a word in ARM, a halfword in Thumb, is read at the
    /// program counter into the fetched slot, and the program counter moves
    /// on by one instruction. A fault of the bus leaves everything as it was.
    pub open spec fn fetch_spec(self, bus: BusModel) -> (Interpreter, Result<(), CoreError>) {
        let location = self.registers.pc_value();
        let read = match self.registers.cpsr.instruction_mode {
            InstructionMode::Arm => bus.read_dword(location),
            InstructionMode::Thumb => widen_word(bus.read_word(location)),
        };
        match read {
            Err(e) => (self, Err(e)),
            Ok(raw) => (
                Interpreter {
                    fetched_instruction: Some((raw, location)),
                    registers: self.registers.with_pc(
                        ((location + self.registers.cpsr.instruction_mode.stride_spec())
                            % 0x1_0000_0000) as u32,
                    ),
                    ..self
                },
                Ok(()),
            ),
        }
    }

    /// One tick: execute, decode, fetch. The first fault ends the tick; a
    /// tick without fault reports the cycles of the executed instruction.
    #[verifier::opaque]
    pub open spec fn tick_spec(self, bus: BusModel) -> Step {
        let executed = self.execute_spec(bus);
        if executed.result is Err {
            executed
        } else {
            let (decoded, decode_result) = executed.cpu.decode_spec();
            match decode_result {
                Err(e) => Step { cpu: decoded, bus: executed.bus, result: Err(e) },
                Ok(_) => {
                    let (fetched, fetch_result) = decoded.fetch_spec(executed.bus);
                    match fetch_result {
                        Err(e) => Step { cpu: fetched, bus: executed.bus, result: Err(e) },
                        Ok(_) => Step { cpu: fetched, bus: executed.bus, result: executed.result },
                    }
                },
            }
        }
    }

    /// The processor after reset: registers as at power-up but in System
    /// mode, and an empty pipeline.
    pub open spec fn is_reset(self) -> bool {
        &&& self.fetched_instruction is None
        &&& self.decoded_instruction is None
        &&& (RegisterBank {
            cpsr: ProgramStatusRegister { mode: CpuMode::User, ..self.registers.cpsr },
            ..self.registers
        }).initial()
        &&& self.registers.cpsr.mode == CpuMode::System
    }

    pub fn tick(&mut self, bus: &mut Bus) -> (result: Result<usize, CoreError>)
        requires
            old(self).wf(),
            old(bus)@.wf(),
        ensures
            final(self).wf(),
            final(bus)@.wf(),
            *final(self) == old(self).tick_spec(old(bus)@).cpu,
            final(bus)@ == old(self).tick_spec(old(bus)@).bus,
            result == old(self).tick_spec(old(bus)@).result,
    {
        reveal(Interpreter::tick_spec);
        let cycles = match self.execute(bus) {
            Ok(cycles) => cycles,
            Err(e) => { return Err(e); },
        };
        match self.decode() {
            Ok(()) => {},
            Err(e) => { return Err(e); },
        }
        match self.fetch(bus) {
            Ok(()) => {},
            Err(e) => { return Err(e); },
        }
        Ok(cycles)
    }

    pub fn fetch(&mut self, bus: &mut Bus) -> (result: Result<(), CoreError>)
        requires
            old(bus)@.wf(),
        ensures
            final(bus)@ == old(bus)@,
            *final(self) == old(self).fetch_spec(old(bus)@).0,
            result == old(self).fetch_spec(old(bus)@).1,
    {
        let fetch_location = self.registers.pc();
        let raw: u32 = match self.registers.cpsr.instruction_mode {
            InstructionMode::Arm => match bus.read_dword(fetch_location) {
                Ok(word) => word,
                Err(e) => { return Err(e); },
            },
            InstructionMode::Thumb => match bus.read_word(fetch_location) {
                Ok(half) => half as u32,
                Err(e) => { return Err(e); },
            },
        };
        self.fetched_instruction = Some((raw, fetch_location));
        self.registers.increment_pc();
        Ok(())
    }

    pub fn decode(&mut self) -> (result: Result<(), CoreError>)
        requires
            old(self).wf(),
        ensures
            final(self).wf(),
            *final(self) == old(self).decode_spec().0,
            result == old(self).decode_spec().1,
    {
        match self.registers.cpsr.instruction_mode {
            InstructionMode::Arm => self.decode_arm(),
            InstructionMode::Thumb => self.decode_thumb(),
        }
    }

    pub fn decode_arm(&mut self) -> (result: Result<(), CoreError>)
        requires
            old(self).wf(),
        ensures
            final(self).wf(),
            *final(self) == old(self).decode_as(InstructionMode::Arm).0,
            result == old(self).decode_as(InstructionMode::Arm).1,
    {
        if let Some((fetched_instruction, pc)) = self.fetched_instruction {
            proof {
                lemma_condition_field(fetched_instruction);
            }
            let instruction = match decode_arm_instruction(
                &mut self.registers,
                fetched_instruction,
            ) {
                Ok(instruction) => instruction,
                Err(e) => { return Err(e); },
            };
            self.decoded_instruction = Some(
                Operation {
                    location: pc,
                    condition: fetched_instruction >> 28,
                    opcode: fetched_instruction,
                    instruction,
                },
            );
        }
        Ok(())
    }

    pub fn decode_thumb(&mut self) -> (result: Result<(), CoreError>)
        requires
            old(self).wf(),
        ensures
            final(self).wf(),
            *final(self) == old(self).decode_as(InstructionMode::Thumb).0,
            result == old(self).decode_as(InstructionMode::Thumb).1,
    {
        if let Some((fetched_instruction, pc)) = self.fetched_instruction {
            let fetched_instruction: u32 = fetched_instruction & 0xFFFF;
            proof {
                lemma_condition_field(fetched_instruction);
            }
            let instruction = match decode_thumb_instruction(fetched_instruction) {
                Ok(instruction) => instruction,
                Err(e) => { return Err(e); },
            };
            let condition: u32 = if (fetched_instruction & thumb::branch::CONDITIONAL_BRANCH_MASK)
                == thumb::branch::CONDITIONAL_BRANCH_FORMAT {
                (fetched_instruction >> 8) & 0xF
            } else {
                0xE
            };
            self.decoded_instruction = Some(
                Operation { location: pc, condition, opcode: fetched_instruction, instruction },
            );
        }
        Ok(())
    }

    pub fn execute(&mut self, bus: &mut Bus) -> (result: Result<usize, CoreError>)
        requires
            old(self).wf(),
            old(bus)@.wf(),
        ensures
            final(self).wf(),
            final(bus)@.wf(),
            *final(self) == old(self).execute_spec(old(bus)@).cpu,
            final(bus)@ == old(self).execute_spec(old(bus)@).bus,
            result == old(self).execute_spec(old(bus)@).result,
    {
        if let Some(decoded_instruction) = self.decoded_instruction {
            if self.check_condition(decoded_instruction.condition) {
                let cycles = decoded_instruction.instruction.execute(&mut self.registers, bus);
                if self.registers.pipeline_flush {
                    self.decoded_instruction = None;
                    self.fetched_instruction = None;
                    self.registers.pipeline_flush = false;
                }
                return cycles;
            }
        }
        Ok(1)
    }

    pub fn check_condition(&self, condition: u32) -> (holds: bool)
        ensures
            holds == condition_holds(self.registers.cpsr, condition),
    {
        let status = &self.registers.cpsr;
        match condition {
            0x0 => status.zero,
            0x1 => !status.zero,
            0x2 => status.carry,
            0x3 => !status.carry,
            0x4 => status.signed,
            0x5 => !status.signed,
            0x6 => status.overflow,
            0x7 => !status.overflow,
            0x8 => status.carry && !status.zero,
            0x9 => !status.carry || status.zero,
            0xA => status.signed == status.overflow,
            0xB => status.signed != status.overflow,
            0xC => !status.zero && status.signed == status.overflow,
            0xD => status.zero || status.signed != status.overflow,
            0xE => true,
            0xF => false,
            _ => true,
        }
    }

    /// The two letters that an assembler writes for a condition code.
    pub fn get_condition_label(condition_code: u32) -> (label: &'static str)
        requires
            condition_code < 16,
        ensures
            label@ == condition_label_spec(condition_code),
    {
        get_condition_label(condition_code)
    }

    /// The line that describes an instruction, where logging is on.
    pub fn log_instruction(
        &self,
        address: u32,
        opcode: u32,
        condition: u32,
        mnemonic: &str,
        description: &str,
    ) -> (line: Option<String>)
        requires
            condition < 16,
        ensures
            match line {
                Some(text) => self.logging_enabled && text@ == log_line_spec(
                    address,
                    opcode,
                    condition,
                    mnemonic@,
                    description@,
                ),
                None => !self.logging_enabled,
            },
    {
        if self.logging_enabled {
            Some(log_line(address, opcode, condition, mnemonic, description))
        } else {
            None
        }
    }

    /// The line that describes the instruction which the next tick
    /// executes, for the caller to print before the tick.
    pub fn pending_log(&self, bus: &mut Bus) -> (line: Option<String>)
        requires
            self.wf(),
            old(bus)@.wf(),
        ensures
            final(bus)@ == old(bus)@,
            match line {
                Some(text) => self.pending_log_spec(old(bus)@) == Some(text@),
                None => self.pending_log_spec(old(bus)@) is None,
            },
    {
        if let Some(decoded_instruction) = self.decoded_instruction {
            let mnemonic = decoded_instruction.instruction.mnemonic();
            let description = decoded_instruction.instruction.description(&self.registers, bus);
            self.log_instruction(
                decoded_instruction.location,
                decoded_instruction.opcode,
                decoded_instruction.condition,
                mnemonic.as_str(),
                description.as_str(),
            )
        } else {
            None
        }
    }

    /// The registers, for inspection.
    pub fn registers(&self) -> (registers: &RegisterBank)
        ensures
            *registers == self.registers,
    {
        &self.registers
    }

    /// Puts the processor back to its state after reset. Whether logging is
    /// on stays as it is.
    pub fn reset(&mut self)
        ensures
            final(self).is_reset(),
            final(self).wf(),
            final(self).logging_enabled == old(self).logging_enabled,
            final(self).registers.pc_value() == 0,
            final(self).registers.cpsr.instruction_mode == InstructionMode::Arm,
    {
        self.registers = RegisterBank::default();
        self.registers.cpsr.mode = CpuMode::System;
        self.fetched_instruction = None;
        self.decoded_instruction = None;
    }

    /// Decodes a data-processing encoding and executes it at once, outside
    /// the pipeline. Reports the cycle it took.
    pub fn process_data(&mut self, opcode: u32) -> (cycles: usize)
        ensures
            cycles == 1,
            final(self).registers == DataProcessingInstruction::decode_spec(
                old(self).registers.cpsr.carry,
                opcode,
            ).apply_spec(old(self).registers),
            final(self).fetched_instruction == old(self).fetched_instruction,
            final(self).decoded_instruction == old(self).decoded_instruction,
            final(self).logging_enabled == old(self).logging_enabled,
    {
        let instruction = DataProcessingInstruction::decode(&mut self.registers, opcode);
        instruction.apply(&mut self.registers);
        1
    }

    /// Multiplication is not implemented: the encoding is reported back and
    /// nothing changes.
    pub fn multiply(&mut self, opcode: u32) -> (result: Result<usize, CoreError>)
        ensures
            *final(self) == *old(self),
            result == Err::<usize, CoreError>(CoreError::OpcodeNotImplemented(opcode)),
    {
        Err(CoreError::OpcodeNotImplemented(opcode))
    }

    /// Long multiplication is not implemented: the encoding is reported back
    /// and nothing changes.
    pub fn multiply_long(&mut self, opcode: u32) -> (result: Result<usize, CoreError>)
        ensures
            *final(self) == *old(self),
            result == Err::<usize, CoreError>(CoreError::OpcodeNotImplemented(opcode)),
    {
        Err(CoreError::OpcodeNotImplemented(opcode))
    }
}

proof fn lemma_condition_field(opcode: u32)
    by (bit_vector)
    ensures
        opcode >> 28 < 16,
        (opcode >> 8) & 0xF < 16,
{
}

impl Default for Interpreter {
    fn default() -> (cpu: Interpreter)
        ensures
            cpu.registers.initial(),
            cpu.fetched_instruction is None,
            cpu.decoded_instruction is None,
            !cpu.logging_enabled,
            cpu.wf(),
    {
        Interpreter {
            registers: RegisterBank::default(),
            fetched_instruction: None,
            decoded_instruction: None,
            logging_enabled: false,
        }
    }
}

} // verus!
