//! Branches: relative with an optional link, and through a register with a
//! change of instruction set.

use vstd::prelude::*;
use crate::bits::lemma_field_bounds;
use vstd::string::StringExecFns;
use crate::bus::{Bus, BusModel};
use crate::disasm::{hex, hex_spec, offset_as_immediate_spec, print_offset_as_immediate,
    register_name, register_name_spec};
use crate::error::CoreError;
use crate::instruction::{InstructionExecutor, Outcome};
use crate::register::RegisterBank;
use crate::status::{InstructionMode, ProgramStatusRegister};

verus! {

pub const BRANCH_MASK: u32 = 0x0E00_0000;

pub const BRANCH_FORMAT: u32 = 0x0A00_0000;

pub const BRANCH_AND_EXCHANGE_MASK: u32 = 0x0FFF_FFF0;

pub const BRANCH_AND_EXCHANGE_FORMAT: u32 = 0x012F_FF10;

/// The cycles that a branch reports.
pub const BRANCH_CYCLE_COUNT: usize = 3;

/// The byte offset of a branch: the low 24 bits of the encoding read as a
/// signed number of words.
pub open spec fn branch_offset(opcode: u32) -> int {
    let field = opcode & 0x00FF_FFFF;
    if field >= 0x0080_0000 {
        (field - 0x0100_0000) * 4
    } else {
        field * 4
    }
}

/// An address moved by a signed offset, modulo 2^32.
pub open spec fn offset_address(address: u32, offset: int) -> u32 {
    ((address + offset) % 0x1_0000_0000) as u32
}

/// A branch relative to the program counter.
#[derive(Copy, Clone, Debug, Eq, PartialEq, Structural)]
pub struct BranchInstruction {
    /// The return address that a branch with link leaves in R14.
    pub link: Option<u32>,
    /// The distance in bytes from the program counter to the target.
    pub offset: i32,
}

impl BranchInstruction {
    /// The branch that an encoding stands for. Bit 24 asks for a link: the
    /// return address is the program counter at decode time, which is the
    /// address of the instruction after the branch.
    pub open spec fn decode_spec(pc: u32, opcode: u32) -> BranchInstruction {
        BranchInstruction {
            link: if opcode & 0x0100_0000 != 0 {
                Some(pc)
            } else {
                None
            },
            offset: branch_offset(opcode) as i32,
        }
    }

    /// The registers after the branch: R14 takes the link if there is one,
    /// the program counter moves by the offset, and the pipeline is asked to
    /// flush.
    pub open spec fn apply_spec(self, registers: RegisterBank) -> RegisterBank {
        let linked = match self.link {
            Some(link) => registers.set(14, link),
            None => registers,
        };
        linked.with_pc(offset_address(linked.pc_value(), self.offset as int)).with_flush(true)
    }

    pub fn new(link: Option<u32>, offset: i32) -> (instruction: Self)
        ensures
            instruction == (BranchInstruction { link, offset }),
    {
        Self { link, offset }
    }

    pub fn decode(registers: &mut RegisterBank, opcode: u32) -> (instruction: Self)
        ensures
            *final(registers) == *old(registers),
            instruction == Self::decode_spec(old(registers).pc_value(), opcode),
            instruction.offset == branch_offset(opcode),
            instruction.offset % 4 == 0,
    {
        proof {
            lemma_branch_field(opcode);
        }
        let field: u32 = opcode & 0x00FF_FFFF;
        let offset: i32 = if field >= 0x0080_0000 {
            (field as i32 - 0x0100_0000) * 4
        } else {
            field as i32 * 4
        };
        Self {
            link: if opcode & 0x0100_0000 != 0 {
                Some(registers.pc())
            } else {
                None
            },
            offset,
        }
    }
}

proof fn lemma_branch_field(opcode: u32)
    by (bit_vector)
    ensures
        opcode & 0x00FF_FFFF < 0x0100_0000,
{
}

/// The offset of a decoded branch is a whole number of words, within 32 MiB
/// either way.
pub proof fn lemma_branch_offset(pc: u32, opcode: u32)
    ensures
        BranchInstruction::decode_spec(pc, opcode).offset == branch_offset(opcode),
        -0x0200_0000 <= branch_offset(opcode) < 0x0200_0000,
        branch_offset(opcode) % 4 == 0,
{
    lemma_branch_field(opcode);
}

impl InstructionExecutor for BranchInstruction {
    open spec fn mnemonic_spec(&self) -> Seq<char> {
        if self.link is Some {
            "bl"@
        } else {
            "b"@
        }
    }

    /// The offset as an immediate.
    open spec fn description_spec(&self, registers: RegisterBank, bus: BusModel) -> Seq<char> {
        offset_as_immediate_spec(self.offset)
    }

    fn mnemonic(&self) -> (text: String) {
        String::from_str(if self.link.is_some() { "bl" } else { "b" })
    }

    fn description(&self, registers: &RegisterBank, bus: &mut Bus) -> (text: String) {
        print_offset_as_immediate(self.offset)
    }

    open spec fn wf(&self) -> bool {
        true
    }

    open spec fn effect(&self, registers: RegisterBank, bus: BusModel) -> Outcome {
        Outcome { registers: self.apply_spec(registers), bus, result: Ok(BRANCH_CYCLE_COUNT) }
    }

    fn execute(&self, registers: &mut RegisterBank, bus: &mut Bus) -> (result: Result<
        usize,
        CoreError,
    >) {
        if let Some(link) = self.link {
            *registers.reg_mut(14) = link;
        }
        let target = registers.pc().wrapping_add_signed(self.offset);
        *registers.pc_mut() = target;
        registers.pipeline_flush = true;
        Ok(BRANCH_CYCLE_COUNT)
    }
}

/// A branch to the address in a register, whose lowest bit selects the
/// instruction set.
#[derive(Copy, Clone, Debug, Eq, PartialEq, Structural)]
pub struct BranchAndExchangeInstruction {
    pub target_register: u32,
}

impl BranchAndExchangeInstruction {
    /// The registers after the branch: the program counter takes the target
    /// register without its lowest bit, that bit chooses Thumb over ARM, and
    /// the pipeline is asked to flush.
    pub open spec fn apply_spec(self, registers: RegisterBank) -> RegisterBank {
        let target = registers.get(self.target_register as int);
        registers.with_pc(target & 0xFFFF_FFFE).with_cpsr(
            ProgramStatusRegister {
                instruction_mode: if target & 1 != 0 {
                    InstructionMode::Thumb
                } else {
                    InstructionMode::Arm
                },
                ..registers.cpsr
            },
        ).with_flush(true)
    }

    pub fn new(target_register: u32) -> (instruction: Self)
        ensures
            instruction == (BranchAndExchangeInstruction { target_register }),
    {
        Self { target_register }
    }

    pub fn decode(registers: &mut RegisterBank, opcode: u32) -> (instruction: Self)
        ensures
            *final(registers) == *old(registers),
            instruction == (BranchAndExchangeInstruction { target_register: opcode & 0xF }),
            instruction.wf(),
    {
        proof {
            lemma_field_bounds(opcode);
        }
        Self { target_register: opcode & 0xF }
    }
}

impl InstructionExecutor for BranchAndExchangeInstruction {
    open spec fn mnemonic_spec(&self) -> Seq<char> {
        "bx"@
    }

    /// The target register and the address that it holds.
    open spec fn description_spec(&self, registers: RegisterBank, bus: BusModel) -> Seq<char> {
        register_name_spec(self.target_register) + " (=$"@ + hex_spec(
            registers.get(self.target_register as int),
        ) + ")"@
    }

    fn mnemonic(&self) -> (text: String) {
        String::from_str("bx")
    }

    fn description(&self, registers: &RegisterBank, bus: &mut Bus) -> (text: String) {
        let mut text = register_name(self.target_register);
        text.append(" (=$");
        text.append(hex(registers.reg(self.target_register as usize)).as_str());
        text.append(")");
        text
    }

    open spec fn wf(&self) -> bool {
        self.target_register < 16
    }

    open spec fn effect(&self, registers: RegisterBank, bus: BusModel) -> Outcome {
        Outcome { registers: self.apply_spec(registers), bus, result: Ok(BRANCH_CYCLE_COUNT) }
    }

    fn execute(&self, registers: &mut RegisterBank, bus: &mut Bus) -> (result: Result<
        usize,
        CoreError,
    >) {
        let target_address = registers.reg(self.target_register as usize);
        *registers.pc_mut() = target_address & 0xFFFF_FFFE;
        registers.cpsr.instruction_mode = if target_address & 1 != 0 {
            InstructionMode::Thumb
        } else {
            InstructionMode::Arm
        };
        registers.pipeline_flush = true;
        Ok(BRANCH_CYCLE_COUNT)
    }
}

} // verus!
