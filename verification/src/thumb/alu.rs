//! Thumb arithmetic forms, each lowered to a data-processing instruction.

use vstd::prelude::*;
use crate::arm::arithmetic::{DataProcessingInstruction, DataProcessingOperation};
use crate::bits::lemma_field_bounds;
use crate::error::CoreError;
use crate::instruction::{Instruction, InstructionExecutor, Operand};
use crate::shift::{ImmediateShift, RegisterShift, Shift, ShiftType};

verus! {

pub const MOVE_COMPARE_ADD_SUBTRACT_IMMEDIATE_FORMAT: u32 = 0x2000;

pub const MOVE_COMPARE_ADD_SUBTRACT_IMMEDIATE_MASK: u32 = 0xE000;

pub const ADD_SUBTRACT_FORMAT: u32 = 0x1800;

pub const ADD_SUBTRACT_MASK: u32 = 0xF800;

pub const ALU_OPERATION_FORMAT: u32 = 0x4000;

pub const ALU_OPERATION_MASK: u32 = 0xFC00;

pub const MOVE_SHIFTED_REGISTER_FORMAT: u32 = 0x0000;

pub const MOVE_SHIFTED_REGISTER_MASK: u32 = 0xE000;

/// Move, compare, add or subtract with an eight-bit immediate: bits 12 and
/// 11 choose the operation, bits 10 to 8 the register, which is both source
/// and destination. All but the comparison write the register; all set the
/// flags.
pub open spec fn mcas_immediate_spec(opcode: u32) -> Instruction {
    let operation = (opcode >> 11) & 0x3;
    let rd = (opcode >> 8) & 0x7;
    let immediate = Operand::Immediate(opcode & 0xFF, false);
    Instruction::DataProcessing(
        if operation == 0 {
            DataProcessingInstruction {
                update_conditions: true,
                source_register_index: rd,
                operand: immediate,
                destination_register_index: Some(rd),
                operation: DataProcessingOperation::Move,
            }
        } else if operation == 1 {
            DataProcessingInstruction {
                update_conditions: true,
                source_register_index: rd,
                operand: immediate,
                destination_register_index: None,
                operation: DataProcessingOperation::Compare,
            }
        } else if operation == 2 {
            DataProcessingInstruction {
                update_conditions: true,
                source_register_index: rd,
                operand: immediate,
                destination_register_index: Some(rd),
                operation: DataProcessingOperation::Add,
            }
        } else {
            DataProcessingInstruction {
                update_conditions: true,
                source_register_index: rd,
                operand: immediate,
                destination_register_index: Some(rd),
                operation: DataProcessingOperation::Subtract,
            }
        },
    )
}

pub fn decode_mcas_immediate(opcode: u32) -> (instruction: Instruction)
    ensures
        instruction == mcas_immediate_spec(opcode),
        instruction.wf(),
{
    proof {
        lemma_field_bounds(opcode);
    }
    let operation: u32 = (opcode >> 11) & 0x3;
    let rd: u32 = (opcode >> 8) & 0x7;
    let immediate = Operand::Immediate(opcode & 0xFF, false);
    if operation == 0 {
        Instruction::DataProcessing(
            DataProcessingInstruction::new(
                true,
                rd,
                immediate,
                Some(rd),
                DataProcessingOperation::Move,
            ),
        )
    } else if operation == 1 {
        Instruction::DataProcessing(
            DataProcessingInstruction::new(
                true,
                rd,
                immediate,
                None,
                DataProcessingOperation::Compare,
            ),
        )
    } else if operation == 2 {
        Instruction::DataProcessing(
            DataProcessingInstruction::new(
                true,
                rd,
                immediate,
                Some(rd),
                DataProcessingOperation::Add,
            ),
        )
    } else {
        Instruction::DataProcessing(
            DataProcessingInstruction::new(
                true,
                rd,
                immediate,
                Some(rd),
                DataProcessingOperation::Subtract,
            ),
        )
    }
}

/// Add or subtract a register or a three-bit immediate: bit 10 chooses the
/// immediate, bit 9 the subtraction; bits 8 to 6 hold the register or the
/// immediate, bits 5 to 3 the source, bits 2 to 0 the destination.
pub open spec fn add_subtract_spec(opcode: u32) -> Instruction {
    let rn = (opcode >> 6) & 0x7;
    Instruction::DataProcessing(
        DataProcessingInstruction {
            update_conditions: true,
            source_register_index: (opcode >> 3) & 0x7,
            operand: if (opcode >> 10) & 1 != 0 {
                Operand::Immediate(rn, false)
            } else {
                Operand::Register(rn)
            },
            destination_register_index: Some(opcode & 0x7),
            operation: if (opcode >> 9) & 1 != 0 {
                DataProcessingOperation::Subtract
            } else {
                DataProcessingOperation::Add
            },
        },
    )
}

pub fn decode_add_subtract(opcode: u32) -> (instruction: Instruction)
    ensures
        instruction == add_subtract_spec(opcode),
        instruction.wf(),
{
    proof {
        lemma_field_bounds(opcode);
    }
    let operation = (opcode >> 9) & 1 != 0;
    let rd: u32 = opcode & 0x7;
    let rs: u32 = (opcode >> 3) & 0x7;
    let rn: u32 = (opcode >> 6) & 0x7;
    let operand = if (opcode >> 10) & 1 != 0 {
        Operand::Immediate(rn, false)
    } else {
        Operand::Register(rn)
    };
    Instruction::DataProcessing(
        DataProcessingInstruction::new(
            true,
            rs,
            operand,
            Some(rd),
            if operation {
                DataProcessingOperation::Subtract
            } else {
                DataProcessingOperation::Add
            },
        ),
    )
}

/// The data-processing instruction with the flags updated that a Thumb
/// operation on two low registers lowers to.
pub open spec fn lowered(
    source: u32,
    operand: Operand,
    destination: Option<u32>,
    operation: DataProcessingOperation,
) -> Instruction {
    Instruction::DataProcessing(
        DataProcessingInstruction {
            update_conditions: true,
            source_register_index: source,
            operand,
            destination_register_index: destination,
            operation,
        },
    )
}

/// A shift of `rd` by the amount in `rs`, as a second operand.
pub open spec fn shifted_by_register(rd: u32, rs: u32, kind: ShiftType) -> Operand {
    Operand::RegisterShifted(
        Shift::Register(RegisterShift { base_register: rd, shift_register: rs, shift_type: kind }),
    )
}

/// An operation on two low registers: bits 9 to 6 choose it, bits 5 to 3
/// hold the second register, bits 2 to 0 the first, which is also the
/// destination. The shifts become a move of the shifted register; the
/// negation becomes a subtraction from zero; the three tests have no
/// destination. The multiplication is not implemented.
pub open spec fn alu_operations_spec(opcode: u32) -> Result<Instruction, CoreError> {
    let operation = (opcode >> 6) & 0xF;
    let rs = (opcode >> 3) & 0x7;
    let rd = opcode & 0x7;
    let register = Operand::Register(rs);
    if operation == 0 {
        Ok(lowered(rd, register, Some(rd), DataProcessingOperation::And))
    } else if operation == 1 {
        Ok(lowered(rd, register, Some(rd), DataProcessingOperation::ExclusiveOr))
    } else if operation == 2 {
        Ok(
            lowered(
                rd,
                shifted_by_register(rd, rs, ShiftType::LogicalLeft),
                Some(rd),
                DataProcessingOperation::Move,
            ),
        )
    } else if operation == 3 {
        Ok(
            lowered(
                rd,
                shifted_by_register(rd, rs, ShiftType::LogicalRight),
                Some(rd),
                DataProcessingOperation::Move,
            ),
        )
    } else if operation == 4 {
        Ok(
            lowered(
                rd,
                shifted_by_register(rd, rs, ShiftType::ArithmeticRight),
                Some(rd),
                DataProcessingOperation::Move,
            ),
        )
    } else if operation == 5 {
        Ok(lowered(rd, register, Some(rd), DataProcessingOperation::AddWithCarry))
    } else if operation == 6 {
        Ok(lowered(rd, register, Some(rd), DataProcessingOperation::SubtractWithCarry))
    } else if operation == 7 {
        Ok(
            lowered(
                rd,
                shifted_by_register(rd, rs, ShiftType::RotateRight),
                Some(rd),
                DataProcessingOperation::Move,
            ),
        )
    } else if operation == 8 {
        Ok(lowered(rd, register, None, DataProcessingOperation::Test))
    } else if operation == 9 {
        Ok(
            lowered(
                rs,
                Operand::Immediate(0, false),
                Some(rd),
                DataProcessingOperation::ReverseSubtract,
            ),
        )
    } else if operation == 10 {
        Ok(lowered(rd, register, None, DataProcessingOperation::Compare))
    } else if operation == 11 {
        Ok(lowered(rd, register, None, DataProcessingOperation::CompareNegate))
    } else if operation == 12 {
        Ok(lowered(rd, register, Some(rd), DataProcessingOperation::Or))
    } else if operation == 13 {
        Err(CoreError::OpcodeNotImplemented(opcode))
    } else if operation == 14 {
        Ok(lowered(rd, register, Some(rd), DataProcessingOperation::AndNot))
    } else {
        Ok(lowered(rd, register, Some(rd), DataProcessingOperation::MoveNegate))
    }
}

fn lower(
    source: u32,
    operand: Operand,
    destination: Option<u32>,
    operation: DataProcessingOperation,
) -> (instruction: Instruction)
    ensures
        instruction == lowered(source, operand, destination, operation),
{
    Instruction::DataProcessing(
        DataProcessingInstruction::new(true, source, operand, destination, operation),
    )
}

fn shift_by_register(rd: u32, rs: u32, kind: ShiftType) -> (operand: Operand)
    ensures
        operand == shifted_by_register(rd, rs, kind),
{
    Operand::RegisterShifted(Shift::Register(RegisterShift::new(rd, rs, kind)))
}

pub fn decode_alu_operations(opcode: u32) -> (decoded: Result<Instruction, CoreError>)
    ensures
        decoded == alu_operations_spec(opcode),
        decoded is Ok ==> decoded->Ok_0.wf(),
{
    proof {
        lemma_field_bounds(opcode);
    }
    let operation: u32 = (opcode >> 6) & 0xF;
    let rs: u32 = (opcode >> 3) & 0x7;
    let rd: u32 = opcode & 0x7;
    let register = Operand::Register(rs);
    let instruction = match operation {
        0 => lower(rd, register, Some(rd), DataProcessingOperation::And),
        1 => lower(rd, register, Some(rd), DataProcessingOperation::ExclusiveOr),
        2 => lower(
            rd,
            shift_by_register(rd, rs, ShiftType::LogicalLeft),
            Some(rd),
            DataProcessingOperation::Move,
        ),
        3 => lower(
            rd,
            shift_by_register(rd, rs, ShiftType::LogicalRight),
            Some(rd),
            DataProcessingOperation::Move,
        ),
        4 => lower(
            rd,
            shift_by_register(rd, rs, ShiftType::ArithmeticRight),
            Some(rd),
            DataProcessingOperation::Move,
        ),
        5 => lower(rd, register, Some(rd), DataProcessingOperation::AddWithCarry),
        6 => lower(rd, register, Some(rd), DataProcessingOperation::SubtractWithCarry),
        7 => lower(
            rd,
            shift_by_register(rd, rs, ShiftType::RotateRight),
            Some(rd),
            DataProcessingOperation::Move,
        ),
        8 => lower(rd, register, None, DataProcessingOperation::Test),
        9 => lower(
            rs,
            Operand::Immediate(0, false),
            Some(rd),
            DataProcessingOperation::ReverseSubtract,
        ),
        10 => lower(rd, register, None, DataProcessingOperation::Compare),
        11 => lower(rd, register, None, DataProcessingOperation::CompareNegate),
        12 => lower(rd, register, Some(rd), DataProcessingOperation::Or),
        13 => { return Err(CoreError::OpcodeNotImplemented(opcode)); },
        14 => lower(rd, register, Some(rd), DataProcessingOperation::AndNot),
        _ => lower(rd, register, Some(rd), DataProcessingOperation::MoveNegate),
    };
    Ok(instruction)
}

/// A move of a register shifted by a five-bit amount: bits 12 and 11 choose
/// the shift, bits 10 to 6 hold the amount, bits 5 to 3 the source, bits 2
/// to 0 the destination.
pub open spec fn move_shifted_register_spec(opcode: u32) -> Instruction {
    let rs = (opcode >> 3) & 0x7;
    lowered(
        rs,
        Operand::RegisterShifted(
            Shift::Immediate(
                ImmediateShift {
                    base_register: rs,
                    shift_amount: (opcode >> 6) & 0x1F,
                    shift_type: ShiftType::from_bits_spec((opcode >> 11) & 0x3),
                },
            ),
        ),
        Some(opcode & 0x7),
        DataProcessingOperation::Move,
    )
}

pub fn decode_move_shifted_register(opcode: u32) -> (instruction: Instruction)
    ensures
        instruction == move_shifted_register_spec(opcode),
        instruction.wf(),
{
    proof {
        lemma_field_bounds(opcode);
    }
    let shift_type = ShiftType::from_u32((opcode >> 11) & 0x3);
    let offset: u32 = (opcode >> 6) & 0x1F;
    let rs: u32 = (opcode >> 3) & 0x7;
    let rd: u32 = opcode & 0x7;
    lower(
        rs,
        Operand::RegisterShifted(Shift::Immediate(ImmediateShift::new(rs, offset, shift_type))),
        Some(rd),
        DataProcessingOperation::Move,
    )
}

} // verus!
