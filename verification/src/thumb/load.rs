//! Thumb loads and stores, each lowered to a single transfer or to a
//! halfword transfer.

use vstd::prelude::*;
use crate::arm::halfword::{HalfwordDataOffset, HalfwordDataTransferRegInstruction};
use crate::arm::transfer::SingleDataTransferInstruction;
use crate::bits::lemma_field_bounds;
use crate::instruction::{Instruction, InstructionExecutor, Operand};

verus! {

pub const MULTIPLE_LOAD_STORE_FORMAT: u32 = 0xC000;

pub const MULTIPLE_LOAD_STORE_MASK: u32 = 0xF000;

pub const LOAD_ADDRESS_FORMAT: u32 = 0xA000;

pub const LOAD_ADDRESS_MASK: u32 = 0xF000;

pub const LOAD_STORE_WITH_IMMEDIATE_OFFSET_FORMAT: u32 = 0x6000;

pub const LOAD_STORE_WITH_IMMEDIATE_OFFSET_MASK: u32 = 0xE000;

pub const LOAD_STORE_WITH_REGISTER_OFFSET_FORMAT: u32 = 0x5000;

pub const LOAD_STORE_WITH_REGISTER_OFFSET_MASK: u32 = 0xF200;

pub const PC_RELATIVE_LOAD_FORMAT: u32 = 0x4800;

pub const PC_RELATIVE_LOAD_MASK: u32 = 0xF800;

pub const SP_RELATIVE_LOAD_STORE_FORMAT: u32 = 0x9000;

pub const SP_RELATIVE_LOAD_STORE_MASK: u32 = 0xF000;

pub const LOAD_STORE_HALFWORD_FORMAT: u32 = 0x8000;

pub const LOAD_STORE_HALFWORD_MASK: u32 = 0xF000;

pub const LOAD_STORE_SIGN_EXT_BYTE_HALFWORD_FORMAT: u32 = 0x5200;

pub const LOAD_STORE_SIGN_EXT_BYTE_HALFWORD_MASK: u32 = 0xF200;

/// A transfer of the register `rd` at `base` plus `offset`, with no update of
/// the base.
pub open spec fn offset_transfer(
    rd: u32,
    base: u32,
    offset: Operand,
    load: bool,
    byte: bool,
    align: bool,
) -> Instruction {
    Instruction::SingleDataTransfer(
        SingleDataTransferInstruction {
            source_register_index: rd,
            base_register_index: base,
            offset,
            load,
            write_back: false,
            byte_transfer: byte,
            up: true,
            pre_index: true,
            force_word_alignment: align,
        },
    )
}

fn transfer_at_offset(rd: u32, base: u32, offset: Operand, load: bool, byte: bool, align: bool) -> (instruction:
    Instruction)
    ensures
        instruction == offset_transfer(rd, base, offset, load, byte, align),
{
    Instruction::SingleDataTransfer(
        SingleDataTransferInstruction::new(rd, base, offset, load, false, byte, true, true, align),
    )
}

/// Load or store with a five-bit offset: bit 12 chooses a byte, bit 11 a
/// load; the offset counts bytes for a byte and words for a word.
pub open spec fn load_store_immediate_offset_spec(opcode: u32) -> Instruction {
    let byte = (opcode >> 12) & 1 != 0;
    let field = (opcode >> 6) & 0x1F;
    offset_transfer(
        opcode & 0x7,
        (opcode >> 3) & 0x7,
        Operand::Immediate(
            if byte {
                field
            } else {
                field << 2
            },
            false,
        ),
        (opcode >> 11) & 1 != 0,
        byte,
        false,
    )
}

pub fn decode_load_store_immediate_offset(opcode: u32) -> (instruction: Instruction)
    ensures
        instruction == load_store_immediate_offset_spec(opcode),
        instruction.wf(),
{
    proof {
        lemma_field_bounds(opcode);
    }
    let load = (opcode >> 11) & 1 != 0;
    let byte = (opcode >> 12) & 1 != 0;
    let field: u32 = (opcode >> 6) & 0x1F;
    let offset: u32 = if byte {
        field
    } else {
        field << 2
    };
    let rb: u32 = (opcode >> 3) & 0x7;
    let rd: u32 = opcode & 0x7;
    transfer_at_offset(rd, rb, Operand::Immediate(offset, false), load, byte, false)
}

/// Load or store with a register offset: bit 11 chooses a load, bit 10 a
/// byte; bits 8 to 6 hold the offset register.
pub open spec fn load_store_register_offset_spec(opcode: u32) -> Instruction {
    offset_transfer(
        opcode & 0x7,
        (opcode >> 3) & 0x7,
        Operand::Register((opcode >> 6) & 0x7),
        (opcode >> 11) & 1 != 0,
        (opcode >> 10) & 1 != 0,
        false,
    )
}

pub fn decode_load_store_register_offset(opcode: u32) -> (instruction: Instruction)
    ensures
        instruction == load_store_register_offset_spec(opcode),
        instruction.wf(),
{
    proof {
        lemma_field_bounds(opcode);
    }
    let load = (opcode >> 11) & 1 != 0;
    let byte = (opcode >> 10) & 1 != 0;
    let ro: u32 = (opcode >> 6) & 0x7;
    let rb: u32 = (opcode >> 3) & 0x7;
    let rd: u32 = opcode & 0x7;
    transfer_at_offset(rd, rb, Operand::Register(ro), load, byte, false)
}

/// A word load relative to the program counter, whose bit 1 is taken as
/// clear: bits 10 to 8 hold the destination, the low byte the offset in
/// words.
pub open spec fn pc_relative_load_spec(opcode: u32) -> Instruction {
    offset_transfer(
        (opcode >> 8) & 0x7,
        15,
        Operand::Immediate((opcode & 0xFF) << 2, false),
        true,
        false,
        true,
    )
}

pub fn decode_pc_relative_load(opcode: u32) -> (instruction: Instruction)
    ensures
        instruction == pc_relative_load_spec(opcode),
        instruction.wf(),
{
    proof {
        lemma_field_bounds(opcode);
    }
    let rd: u32 = (opcode >> 8) & 0x7;
    let word8: u32 = (opcode & 0xFF) << 2;
    transfer_at_offset(rd, 15, Operand::Immediate(word8, false), true, false, true)
}

/// A word load or store relative to the stack pointer: bit 11 chooses a
/// load, bits 10 to 8 hold the register, the low byte the offset in words.
pub open spec fn sp_relative_load_store_spec(opcode: u32) -> Instruction {
    offset_transfer(
        (opcode >> 8) & 0x7,
        13,
        Operand::Immediate((opcode & 0xFF) << 2, false),
        (opcode >> 11) & 1 != 0,
        false,
        false,
    )
}

pub fn decode_sp_relative_load_store(opcode: u32) -> (instruction: Instruction)
    ensures
        instruction == sp_relative_load_store_spec(opcode),
        instruction.wf(),
{
    proof {
        lemma_field_bounds(opcode);
    }
    let load = (opcode >> 11) & 1 != 0;
    let rd: u32 = (opcode >> 8) & 0x7;
    let word8: u32 = (opcode & 0xFF) << 2;
    transfer_at_offset(rd, 13, Operand::Immediate(word8, false), load, false, false)
}

/// A halfword load or store with a five-bit offset that counts halfwords:
/// bit 11 chooses a load.
pub open spec fn load_store_halfword_spec(opcode: u32) -> Instruction {
    Instruction::HalfwordDataTransfer(
        HalfwordDataTransferRegInstruction {
            pre_index: true,
            up: true,
            write_back: false,
            load: (opcode >> 11) & 1 != 0,
            signed: false,
            halfword: true,
            base_register_index: (opcode >> 3) & 0x7,
            offset: HalfwordDataOffset::Offset((((opcode >> 6) & 0x1F) << 1) as u8),
            source_register_index: opcode & 0x7,
        },
    )
}

pub fn decode_load_store_halfword(opcode: u32) -> (instruction: Instruction)
    ensures
        instruction == load_store_halfword_spec(opcode),
        instruction.wf(),
{
    proof {
        lemma_field_bounds(opcode);
        lemma_halfword_offset(opcode);
    }
    let load = (opcode >> 11) & 1 != 0;
    let offset: u32 = ((opcode >> 6) & 0x1F) << 1;
    let rb: u32 = (opcode >> 3) & 0x7;
    let rd: u32 = opcode & 0x7;
    Instruction::HalfwordDataTransfer(
        HalfwordDataTransferRegInstruction::new(
            true,
            true,
            false,
            load,
            false,
            true,
            rb,
            HalfwordDataOffset::Offset(offset as u8),
            rd,
        ),
    )
}

proof fn lemma_halfword_offset(opcode: u32)
    by (bit_vector)
    ensures
        ((opcode >> 6) & 0x1F) << 1 < 64,
{
}

/// A store of a halfword or a load with sign extension, with a register
/// offset. Bits 11 and 10 choose among four: both clear, a halfword is
/// stored; bit 11 alone, a halfword is loaded; bit 10 alone, a signed byte
/// is loaded; both, a signed halfword is loaded.
pub open spec fn load_store_sign_extended_spec(opcode: u32) -> Instruction {
    let halfword = (opcode >> 11) & 1 != 0;
    let sign = (opcode >> 10) & 1 != 0;
    Instruction::HalfwordDataTransfer(
        HalfwordDataTransferRegInstruction {
            pre_index: true,
            up: true,
            write_back: false,
            load: sign || halfword,
            signed: sign,
            halfword: halfword || !sign,
            base_register_index: (opcode >> 3) & 0x7,
            offset: HalfwordDataOffset::Register((opcode >> 6) & 0x7),
            source_register_index: opcode & 0x7,
        },
    )
}

pub fn decode_load_store_sign_extended(opcode: u32) -> (instruction: Instruction)
    ensures
        instruction == load_store_sign_extended_spec(opcode),
        instruction.wf(),
{
    proof {
        lemma_field_bounds(opcode);
    }
    let halfword = (opcode >> 11) & 1 != 0;
    let sign = (opcode >> 10) & 1 != 0;
    let ro: u32 = (opcode >> 6) & 0x7;
    let rb: u32 = (opcode >> 3) & 0x7;
    let rd: u32 = opcode & 0x7;
    Instruction::HalfwordDataTransfer(
        HalfwordDataTransferRegInstruction::new(
            true,
            true,
            false,
            sign || halfword,
            sign,
            halfword || !sign,
            rb,
            HalfwordDataOffset::Register(ro),
            rd,
        ),
    )
}

} // verus!
