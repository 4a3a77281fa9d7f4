//! Thumb branches: conditional, through a high register, and the two halves
//! of the long branch with link.

use vstd::prelude::*;
use crate::arm::arithmetic::{DataProcessingInstruction, DataProcessingOperation};
use crate::arm::branch::{BranchAndExchangeInstruction, BranchInstruction};
use crate::bits::{lemma_field_bounds, wrapping_add, wrapping_add_spec, wrapping_sub,
    wrapping_sub_spec};
use vstd::string::StringExecFns;
use crate::bus::{Bus, BusModel};
use crate::disasm::{hex, hex_padded, hex_padded_spec, hex_spec};
use crate::error::CoreError;
use crate::instruction::{Instruction, InstructionExecutor, Operand, Outcome};
use crate::register::RegisterBank;

verus! {

pub const SOFTWARE_INTERRUPT_FORMAT: u32 = 0xDF00;

pub const SOFTWARE_INTERRUPT_MASK: u32 = 0xFF00;

pub const UNCONDITIONAL_BRANCH_FORMAT: u32 = 0xE000;

pub const UNCONDITIONAL_BRANCH_MASK: u32 = 0xF800;

pub const CONDITIONAL_BRANCH_FORMAT: u32 = 0xD000;

pub const CONDITIONAL_BRANCH_MASK: u32 = 0xF000;

pub const HI_REGISTER_OPERATIONS_BRANCH_EXCHANGE_FORMAT: u32 = 0x4400;

pub const HI_REGISTER_OPERATIONS_BRANCH_EXCHANGE_MASK: u32 = 0xFC00;

pub const LONG_BRANCH_WITH_LINK_FORMAT: u32 = 0xF000;

pub const LONG_BRANCH_WITH_LINK_MASK: u32 = 0xF000;

/// One half of the long branch with link.
#[derive(Copy, Clone, Debug, Eq, PartialEq, Structural)]
pub struct LongBranchWithLinkInstruction {
    /// Eleven bits of the target's offset.
    pub offset: u32,
    /// Clear in the first half, set in the second.
    pub h: bool,
}

/// The upper part of the offset in the first half: the eleven bits moved up
/// by twelve places, with the sign of the topmost copied upwards.
pub open spec fn upper_offset(offset: u32) -> u32 {
    if offset & 0x400 != 0 {
        (offset << 12) | 0xFF80_0000
    } else {
        offset << 12
    }
}

impl LongBranchWithLinkInstruction {
    pub open spec fn decode_spec(opcode: u32) -> LongBranchWithLinkInstruction {
        LongBranchWithLinkInstruction { offset: opcode & 0x7FF, h: (opcode >> 11) & 1 != 0 }
    }

    /// The registers after one half. The first leaves the program counter
    /// plus the upper offset in R14. The second sends the program counter to
    /// R14 plus twice its offset, leaves in R14 the address after itself
    /// with bit 0 set, and asks the pipeline to flush.
    pub open spec fn apply_spec(self, registers: RegisterBank) -> RegisterBank {
        if self.h {
            let target = wrapping_add_spec(registers.get(14), self.offset << 1);
            let after = wrapping_sub_spec(registers.pc_value(), 2);
            registers.with_pc(target).set(14, after | 1).with_flush(true)
        } else {
            registers.set(14, wrapping_add_spec(registers.pc_value(), upper_offset(self.offset)))
        }
    }

    pub fn decode(opcode: u32) -> (instruction: Self)
        ensures
            instruction == Self::decode_spec(opcode),
    {
        Self { offset: opcode & 0x7FF, h: (opcode >> 11) & 1 != 0 }
    }
}

impl InstructionExecutor for LongBranchWithLinkInstruction {
    open spec fn mnemonic_spec(&self) -> Seq<char> {
        if self.h {
            "blh"@
        } else {
            "bl"@
        }
    }

    /// The offset field, and the address that this half works out: the
    /// target for the second half, the program counter moved by the upper
    /// offset for the first.
    open spec fn description_spec(&self, registers: RegisterBank, bus: BusModel) -> Seq<char> {
        let hint = if self.h {
            wrapping_add_spec(registers.get(14), self.offset << 1)
        } else {
            wrapping_add_spec(registers.pc_value(), upper_offset(self.offset))
        };
        "#"@ + hex_spec(self.offset) + " (=$"@ + hex_padded_spec(hint, 8) + ")"@
    }

    fn mnemonic(&self) -> (text: String) {
        String::from_str(if self.h { "blh" } else { "bl" })
    }

    fn description(&self, registers: &RegisterBank, bus: &mut Bus) -> (text: String) {
        let hint = if self.h {
            wrapping_add(registers.reg(14), self.offset << 1)
        } else {
            let upper: u32 = if self.offset & 0x400 != 0 {
                (self.offset << 12) | 0xFF80_0000
            } else {
                self.offset << 12
            };
            wrapping_add(registers.pc(), upper)
        };
        let mut text = String::from_str("#");
        text.append(hex(self.offset).as_str());
        text.append(" (=$");
        text.append(hex_padded(hint, 8).as_str());
        text.append(")");
        text
    }

    open spec fn wf(&self) -> bool {
        true
    }

    open spec fn effect(&self, registers: RegisterBank, bus: BusModel) -> Outcome {
        Outcome { registers: self.apply_spec(registers), bus, result: Ok(1) }
    }

    fn execute(&self, registers: &mut RegisterBank, bus: &mut Bus) -> (result: Result<
        usize,
        CoreError,
    >) {
        if self.h {
            let target = wrapping_add(registers.reg(14), self.offset << 1);
            let after = wrapping_sub(registers.pc(), 2);
            *registers.pc_mut() = target;
            *registers.reg_mut(14) = after | 1;
            registers.pipeline_flush = true;
        } else {
            let upper: u32 = if self.offset & 0x400 != 0 {
                (self.offset << 12) | 0xFF80_0000
            } else {
                self.offset << 12
            };
            let address = wrapping_add(registers.pc(), upper);
            *registers.reg_mut(14) = address;
        }
        Ok(1)
    }
}

/// The byte offset of a conditional branch: the low byte of the encoding
/// read as a signed number of halfwords.
pub open spec fn conditional_offset(opcode: u32) -> int {
    let field = opcode & 0xFF;
    if field >= 0x80 {
        (field - 0x100) * 2
    } else {
        field * 2
    }
}

/// A conditional branch lowered to a branch without link. The condition is
/// not part of it: the pipeline reads it from bits 11 to 8.
pub open spec fn conditional_branch_spec(opcode: u32) -> Instruction {
    Instruction::Branch(BranchInstruction { link: None, offset: conditional_offset(opcode) as i32 })
}

/// The offset of a decoded conditional branch is a whole number of
/// halfwords, within 256 bytes either way.
pub proof fn lemma_conditional_offset(opcode: u32)
    ensures
        conditional_branch_spec(opcode)->Branch_0.offset == conditional_offset(opcode),
        -0x100 <= conditional_offset(opcode) < 0x100,
        conditional_offset(opcode) % 2 == 0,
{
    lemma_field_bounds(opcode);
}

pub fn decode_conditional_branch(opcode: u32) -> (instruction: Instruction)
    ensures
        instruction == conditional_branch_spec(opcode),
        instruction.wf(),
        instruction->Branch_0.offset == conditional_offset(opcode),
        instruction->Branch_0.offset % 2 == 0,
{
    proof {
        lemma_field_bounds(opcode);
    }
    let field: u32 = opcode & 0xFF;
    let offset: i32 = if field >= 0x80 {
        (field as i32 - 0x100) * 2
    } else {
        field as i32 * 2
    };
    Instruction::Branch(BranchInstruction::new(None, offset))
}

/// The destination of an operation on high registers: bits 2 to 0 with bit
/// 7 above them.
pub open spec fn hi_destination(opcode: u32) -> u32 {
    (opcode & 0x7) | (((opcode >> 7) & 1) << 3)
}

/// An operation on any two registers, or a branch and exchange: bits 9 and
/// 8 choose among add, compare, move and the branch; bits 6 to 3 hold the
/// second register. Only the comparison sets the flags.
pub open spec fn hi_reg_branch_exchange_spec(opcode: u32) -> Instruction {
    let operation = (opcode >> 8) & 0x3;
    let rs = (opcode >> 3) & 0xF;
    let rd = hi_destination(opcode);
    if operation == 0 {
        Instruction::DataProcessing(
            DataProcessingInstruction {
                update_conditions: false,
                source_register_index: rd,
                operand: Operand::Register(rs),
                destination_register_index: Some(rd),
                operation: DataProcessingOperation::Add,
            },
        )
    } else if operation == 1 {
        Instruction::DataProcessing(
            DataProcessingInstruction {
                update_conditions: true,
                source_register_index: rd,
                operand: Operand::Register(rs),
                destination_register_index: None,
                operation: DataProcessingOperation::Compare,
            },
        )
    } else if operation == 2 {
        Instruction::DataProcessing(
            DataProcessingInstruction {
                update_conditions: false,
                source_register_index: rd,
                operand: Operand::Register(rs),
                destination_register_index: Some(rd),
                operation: DataProcessingOperation::Move,
            },
        )
    } else {
        Instruction::BranchAndExchange(BranchAndExchangeInstruction { target_register: rs })
    }
}

pub fn decode_hi_reg_branch_exchange(opcode: u32) -> (instruction: Instruction)
    ensures
        instruction == hi_reg_branch_exchange_spec(opcode),
        instruction.wf(),
{
    proof {
        lemma_field_bounds(opcode);
        lemma_hi_destination(opcode);
    }
    let operation: u32 = (opcode >> 8) & 0x3;
    let rs: u32 = (opcode >> 3) & 0xF;
    let rd: u32 = (opcode & 0x7) | (((opcode >> 7) & 1) << 3);
    if operation == 0 {
        Instruction::DataProcessing(
            DataProcessingInstruction::new(
                false,
                rd,
                Operand::Register(rs),
                Some(rd),
                DataProcessingOperation::Add,
            ),
        )
    } else if operation == 1 {
        Instruction::DataProcessing(
            DataProcessingInstruction::new(
                true,
                rd,
                Operand::Register(rs),
                None,
                DataProcessingOperation::Compare,
            ),
        )
    } else if operation == 2 {
        Instruction::DataProcessing(
            DataProcessingInstruction::new(
                false,
                rd,
                Operand::Register(rs),
                Some(rd),
                DataProcessingOperation::Move,
            ),
        )
    } else {
        Instruction::BranchAndExchange(BranchAndExchangeInstruction::new(rs))
    }
}

proof fn lemma_hi_destination(opcode: u32)
    by (bit_vector)
    ensures
        (opcode & 0x7) | (((opcode >> 7) & 1) << 3) < 16,
{
}

} // verus!
