//! Thumb stack forms: push and pop, lowered to a block transfer, and the
//! adjustment of the stack pointer, lowered to data processing.

use vstd::prelude::*;
use crate::arm::arithmetic::{DataProcessingInstruction, DataProcessingOperation};
use crate::arm::transfer::{count_listed, BlockDataTransferInstruction};
use crate::bits::{bit, test_bit};
use crate::instruction::{Instruction, InstructionExecutor, Operand};

verus! {

pub const PUSH_POP_REGISTERS_FORMAT: u32 = 0xB400;

pub const PUSH_POP_REGISTERS_MASK: u32 = 0xF600;

pub const ADD_OFFSET_TO_STACK_POINTER_FORMAT: u32 = 0xB000;

pub const ADD_OFFSET_TO_STACK_POINTER_MASK: u32 = 0xFF00;

/// The register list of a push or pop: the low eight bits name R0 to R7;
/// bit 8 adds R14 to a push and R15 to a pop.
pub open spec fn push_pop_list(opcode: u32) -> u32 {
    let low = opcode & 0xFF;
    if (opcode >> 8) & 1 != 0 {
        if (opcode >> 11) & 1 != 0 {
            low | 0x8000
        } else {
            low | 0x4000
        }
    } else {
        low
    }
}

/// Push and pop on the stack that R13 points to: a pop loads, going up from
/// the stack pointer; a push stores, going down to below it. Both leave the
/// new top of the stack in R13.
pub open spec fn push_pop_registers_spec(opcode: u32) -> Instruction {
    let load = (opcode >> 11) & 1 != 0;
    Instruction::BlockDataTransfer(
        BlockDataTransferInstruction {
            base_register_index: 13,
            registers: push_pop_list(opcode) as u16,
            load,
            write_back: true,
            increment: load,
            pre_index: !load,
            psr_and_force_user: false,
            number_of_registers: (count_listed(opcode & 0xFF, 8) + if (opcode >> 8) & 1 != 0 {
                1nat
            } else {
                0nat
            }) as u32,
        },
    )
}

pub fn decode_push_pop_registers(opcode: u32) -> (instruction: Instruction)
    ensures
        instruction == push_pop_registers_spec(opcode),
        instruction.wf(),
{
    let low: u32 = opcode & 0xFF;
    let mut number_of_registers: u32 = 0;
    let mut i: u32 = 0;
    while i < 8
        invariant
            i <= 8,
            low == opcode & 0xFF,
            number_of_registers == count_listed(low, i as int),
            number_of_registers <= i,
        decreases 8 - i,
    {
        if test_bit(low, i) {
            number_of_registers += 1;
        }
        i += 1;
    }
    let load = (opcode >> 11) & 1 != 0;
    let store_lr = (opcode >> 8) & 1 != 0;
    let mut register_list: u32 = low;
    if store_lr {
        register_list = if load {
            low | 0x8000
        } else {
            low | 0x4000
        };
        number_of_registers += 1;
    }
    Instruction::BlockDataTransfer(
        BlockDataTransferInstruction::new(
            13,
            register_list as u16,
            load,
            true,
            load,
            !load,
            false,
            number_of_registers,
        ),
    )
}

/// The stack pointer moved by a seven-bit number of words: bit 7 chooses
/// down over up. The flags stay as they are.
pub open spec fn add_offset_stack_pointer_spec(opcode: u32) -> Instruction {
    Instruction::DataProcessing(
        DataProcessingInstruction {
            update_conditions: false,
            source_register_index: 13,
            operand: Operand::Immediate((opcode & 0x7F) << 2, false),
            destination_register_index: Some(13),
            operation: if (opcode >> 7) & 1 != 0 {
                DataProcessingOperation::Subtract
            } else {
                DataProcessingOperation::Add
            },
        },
    )
}

pub fn decode_add_offset_stack_pointer(opcode: u32) -> (instruction: Instruction)
    ensures
        instruction == add_offset_stack_pointer_spec(opcode),
        instruction.wf(),
{
    let offset: u32 = (opcode & 0x7F) << 2;
    let sign = (opcode >> 7) & 1 != 0;
    Instruction::DataProcessing(
        DataProcessingInstruction::new(
            false,
            13,
            Operand::Immediate(offset, false),
            Some(13),
            if sign {
                DataProcessingOperation::Subtract
            } else {
                DataProcessingOperation::Add
            },
        ),
    )
}

} // verus!
