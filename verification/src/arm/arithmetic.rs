//! Data processing: sixteen operations on a register and a flexible second
//! operand, with the flags they leave.

use vstd::prelude::*;
use crate::bits::{bit, lemma_field_bounds, test_bit, wrapping_add_spec};
use vstd::string::StringExecFns;
use crate::bus::{Bus, BusModel};
use crate::disasm::{operand_spec, operand_text, register_name, register_name_spec};
use crate::error::CoreError;
use crate::instruction::{InstructionExecutor, Operand, Outcome};
use crate::register::RegisterBank;
use crate::shift::{rotated_immediate, rotated_immediate_carry, rotated_immediate_carry_spec,
    rotated_immediate_spec, Shift};
use crate::status::ProgramStatusRegister;

verus! {

pub const DATA_PROCESSING_MASK: u32 = 0x0C00_0000;

pub const DATA_PROCESSING_FORMAT: u32 = 0x0000_0000;

/// The sixteen operations, in the order of their four-bit codes.
#[derive(Copy, Clone, Debug, Eq, PartialEq, Structural)]
pub enum DataProcessingOperation {
    /// Rd := Rn AND Op
    And,
    /// Rd := Rn EOR Op
    ExclusiveOr,
    /// Rd := Rn - Op
    Subtract,
    /// Rd := Op - Rn
    ReverseSubtract,
    /// Rd := Rn + Op
    Add,
    /// Rd := Rn + Op + C
    AddWithCarry,
    /// Rd := Rn - Op + C - 1
    SubtractWithCarry,
    /// Rd := Op - Rn + C - 1
    ReverseSubtractWithCarry,
    /// Flags of Rn AND Op
    Test,
    /// Flags of Rn EOR Op
    TestEqual,
    /// Flags of Rn - Op
    Compare,
    /// Flags of Rn + Op
    CompareNegate,
    /// Rd := Rn OR Op
    Or,
    /// Rd := Op
    Move,
    /// Rd := Rn AND NOT Op
    AndNot,
    /// Rd := NOT Op
    MoveNegate,
}

/// A 32-bit word read as a signed number in two's complement.
pub open spec fn signed_value(word: u32) -> int {
    if word >= 0x8000_0000 {
        word - 0x1_0000_0000
    } else {
        word as int
    }
}

/// Whether a number has no place among the signed 32-bit numbers.
pub open spec fn out_of_signed_range(value: int) -> bool {
    value < -0x8000_0000 || value > 0x7FFF_FFFF
}

/// The low 32 bits of a number.
pub open spec fn low_word(value: int) -> u32 {
    (value % 0x1_0000_0000) as u32
}

/// What the arithmetic unit gives: the result and the flags C and V.
pub struct AluResult {
    pub value: u32,
    pub carry: bool,
    pub overflow: bool,
}

/// `a + b + carry_in`: C is the unsigned carry out, V says that the signed
/// sum does not fit.
pub open spec fn add_with_flags(a: u32, b: u32, carry_in: int) -> AluResult {
    AluResult {
        value: low_word(a + b + carry_in),
        carry: a + b + carry_in > 0xFFFF_FFFF,
        overflow: out_of_signed_range(signed_value(a) + signed_value(b) + carry_in),
    }
}

/// `a - b - borrow_in`: C says that nothing was borrowed, V that the signed
/// difference does not fit.
pub open spec fn sub_with_flags(a: u32, b: u32, borrow_in: int) -> AluResult {
    AluResult {
        value: low_word(a - b - borrow_in),
        carry: a - b - borrow_in >= 0,
        overflow: out_of_signed_range(signed_value(a) - signed_value(b) - borrow_in),
    }
}

pub open spec fn flag_value(flag: bool) -> int {
    if flag {
        1
    } else {
        0
    }
}

impl DataProcessingOperation {
    /// The operation that the four bits 24 to 21 of an encoding select.
    pub open spec fn from_bits_spec(code: u32) -> DataProcessingOperation {
        if code == 0 {
            DataProcessingOperation::And
        } else if code == 1 {
            DataProcessingOperation::ExclusiveOr
        } else if code == 2 {
            DataProcessingOperation::Subtract
        } else if code == 3 {
            DataProcessingOperation::ReverseSubtract
        } else if code == 4 {
            DataProcessingOperation::Add
        } else if code == 5 {
            DataProcessingOperation::AddWithCarry
        } else if code == 6 {
            DataProcessingOperation::SubtractWithCarry
        } else if code == 7 {
            DataProcessingOperation::ReverseSubtractWithCarry
        } else if code == 8 {
            DataProcessingOperation::Test
        } else if code == 9 {
            DataProcessingOperation::TestEqual
        } else if code == 10 {
            DataProcessingOperation::Compare
        } else if code == 11 {
            DataProcessingOperation::CompareNegate
        } else if code == 12 {
            DataProcessingOperation::Or
        } else if code == 13 {
            DataProcessingOperation::Move
        } else if code == 14 {
            DataProcessingOperation::AndNot
        } else {
            DataProcessingOperation::MoveNegate
        }
    }

    /// Whether the operation only sets flags and writes no register.
    pub open spec fn is_test(self) -> bool {
        self == DataProcessingOperation::Test || self == DataProcessingOperation::TestEqual
            || self == DataProcessingOperation::Compare || self
            == DataProcessingOperation::CompareNegate
    }

    /// The result and the flags C and V of the operation on `source` and
    /// `operand`. A logical operation takes C from the shifter and leaves V
    /// as it is; an arithmetic one computes both.
    pub open spec fn compute(
        self,
        source: u32,
        operand: u32,
        shifter_carry: bool,
        status: ProgramStatusRegister,
    ) -> AluResult {
        let carry_in = flag_value(status.carry);
        match self {
            DataProcessingOperation::And | DataProcessingOperation::Test => AluResult {
                value: source & operand,
                carry: shifter_carry,
                overflow: status.overflow,
            },
            DataProcessingOperation::ExclusiveOr | DataProcessingOperation::TestEqual => AluResult {
                value: source ^ operand,
                carry: shifter_carry,
                overflow: status.overflow,
            },
            DataProcessingOperation::Or => AluResult {
                value: source | operand,
                carry: shifter_carry,
                overflow: status.overflow,
            },
            DataProcessingOperation::Move => AluResult {
                value: operand,
                carry: shifter_carry,
                overflow: status.overflow,
            },
            DataProcessingOperation::AndNot => AluResult {
                value: source & !operand,
                carry: shifter_carry,
                overflow: status.overflow,
            },
            DataProcessingOperation::MoveNegate => AluResult {
                value: !operand,
                carry: shifter_carry,
                overflow: status.overflow,
            },
            DataProcessingOperation::Add | DataProcessingOperation::CompareNegate => add_with_flags(
                source,
                operand,
                0,
            ),
            DataProcessingOperation::AddWithCarry => add_with_flags(source, operand, carry_in),
            DataProcessingOperation::Subtract | DataProcessingOperation::Compare => sub_with_flags(
                source,
                operand,
                0,
            ),
            DataProcessingOperation::SubtractWithCarry => sub_with_flags(
                source,
                operand,
                1 - carry_in,
            ),
            DataProcessingOperation::ReverseSubtract => sub_with_flags(operand, source, 0),
            DataProcessingOperation::ReverseSubtractWithCarry => sub_with_flags(
                operand,
                source,
                1 - carry_in,
            ),
        }
    }

    pub fn from_u32(code: u32) -> (operation: DataProcessingOperation)
        ensures
            operation == DataProcessingOperation::from_bits_spec(code),
    {
        match code {
            0 => DataProcessingOperation::And,
            1 => DataProcessingOperation::ExclusiveOr,
            2 => DataProcessingOperation::Subtract,
            3 => DataProcessingOperation::ReverseSubtract,
            4 => DataProcessingOperation::Add,
            5 => DataProcessingOperation::AddWithCarry,
            6 => DataProcessingOperation::SubtractWithCarry,
            7 => DataProcessingOperation::ReverseSubtractWithCarry,
            8 => DataProcessingOperation::Test,
            9 => DataProcessingOperation::TestEqual,
            10 => DataProcessingOperation::Compare,
            11 => DataProcessingOperation::CompareNegate,
            12 => DataProcessingOperation::Or,
            13 => DataProcessingOperation::Move,
            14 => DataProcessingOperation::AndNot,
            _ => DataProcessingOperation::MoveNegate,
        }
    }

    /// The three letters that an assembler writes for the operation.
    pub open spec fn name_spec(self) -> Seq<char> {
        match self {
            DataProcessingOperation::And => "and"@,
            DataProcessingOperation::Test => "tst"@,
            DataProcessingOperation::ExclusiveOr => "eor"@,
            DataProcessingOperation::TestEqual => "teq"@,
            DataProcessingOperation::Subtract => "sub"@,
            DataProcessingOperation::ReverseSubtract => "rsb"@,
            DataProcessingOperation::Add => "add"@,
            DataProcessingOperation::AddWithCarry => "adc"@,
            DataProcessingOperation::SubtractWithCarry => "sbc"@,
            DataProcessingOperation::ReverseSubtractWithCarry => "rsc"@,
            DataProcessingOperation::Compare => "cmp"@,
            DataProcessingOperation::CompareNegate => "cmn"@,
            DataProcessingOperation::Or => "orr"@,
            DataProcessingOperation::Move => "mov"@,
            DataProcessingOperation::AndNot => "bic"@,
            DataProcessingOperation::MoveNegate => "mvn"@,
        }
    }

    pub fn name(&self) -> (text: &'static str)
        ensures
            text@ == self.name_spec(),
    {
        match self {
            DataProcessingOperation::And => "and",
            DataProcessingOperation::Test => "tst",
            DataProcessingOperation::ExclusiveOr => "eor",
            DataProcessingOperation::TestEqual => "teq",
            DataProcessingOperation::Subtract => "sub",
            DataProcessingOperation::ReverseSubtract => "rsb",
            DataProcessingOperation::Add => "add",
            DataProcessingOperation::AddWithCarry => "adc",
            DataProcessingOperation::SubtractWithCarry => "sbc",
            DataProcessingOperation::ReverseSubtractWithCarry => "rsc",
            DataProcessingOperation::Compare => "cmp",
            DataProcessingOperation::CompareNegate => "cmn",
            DataProcessingOperation::Or => "orr",
            DataProcessingOperation::Move => "mov",
            DataProcessingOperation::AndNot => "bic",
            DataProcessingOperation::MoveNegate => "mvn",
        }
    }

    pub fn sets_flags_only(&self) -> (only: bool)
        ensures
            only == self.is_test(),
    {
        match self {
            DataProcessingOperation::Test
            | DataProcessingOperation::TestEqual
            | DataProcessingOperation::Compare
            | DataProcessingOperation::CompareNegate => true,
            _ => false,
        }
    }
}

fn signed_of(word: u32) -> (value: i64)
    ensures
        value == signed_value(word),
{
    if word >= 0x8000_0000 {
        word as i64 - 0x1_0000_0000
    } else {
        word as i64
    }
}

fn add_flags(a: u32, b: u32, carry_in: bool) -> (result: AluResult)
    ensures
        result == add_with_flags(a, b, flag_value(carry_in)),
{
    let c: u64 = if carry_in { 1 } else { 0 };
    let sum: u64 = a as u64 + b as u64 + c;
    let signed_sum: i64 = signed_of(a) + signed_of(b) + (if carry_in { 1i64 } else { 0i64 });
    AluResult {
        value: (sum % 0x1_0000_0000) as u32,
        carry: sum > 0xFFFF_FFFF,
        overflow: signed_sum < -0x8000_0000 || signed_sum > 0x7FFF_FFFF,
    }
}

fn sub_flags(a: u32, b: u32, borrow_in: bool) -> (result: AluResult)
    ensures
        result == sub_with_flags(a, b, flag_value(borrow_in)),
{
    let borrow: i64 = if borrow_in { 1 } else { 0 };
    let difference: i64 = a as i64 - b as i64 - borrow;
    let signed_difference: i64 = signed_of(a) - signed_of(b) - borrow;
    let value: u32 = if difference < 0 {
        (difference + 0x1_0000_0000) as u32
    } else {
        difference as u32
    };
    AluResult {
        value,
        carry: difference >= 0,
        overflow: signed_difference < -0x8000_0000 || signed_difference > 0x7FFF_FFFF,
    }
}

impl DataProcessingOperation {
    pub fn apply(
        &self,
        source: u32,
        operand: u32,
        shifter_carry: bool,
        status: &ProgramStatusRegister,
    ) -> (result: AluResult)
        ensures
            result == self.compute(source, operand, shifter_carry, *status),
    {
        let overflow = status.overflow;
        match self {
            DataProcessingOperation::And | DataProcessingOperation::Test => AluResult {
                value: source & operand,
                carry: shifter_carry,
                overflow,
            },
            DataProcessingOperation::ExclusiveOr | DataProcessingOperation::TestEqual => AluResult {
                value: source ^ operand,
                carry: shifter_carry,
                overflow,
            },
            DataProcessingOperation::Or => AluResult {
                value: source | operand,
                carry: shifter_carry,
                overflow,
            },
            DataProcessingOperation::Move => AluResult {
                value: operand,
                carry: shifter_carry,
                overflow,
            },
            DataProcessingOperation::AndNot => AluResult {
                value: source & !operand,
                carry: shifter_carry,
                overflow,
            },
            DataProcessingOperation::MoveNegate => AluResult {
                value: !operand,
                carry: shifter_carry,
                overflow,
            },
            DataProcessingOperation::Add | DataProcessingOperation::CompareNegate => add_flags(
                source,
                operand,
                false,
            ),
            DataProcessingOperation::AddWithCarry => add_flags(source, operand, status.carry),
            DataProcessingOperation::Subtract | DataProcessingOperation::Compare => sub_flags(
                source,
                operand,
                false,
            ),
            DataProcessingOperation::SubtractWithCarry => sub_flags(
                source,
                operand,
                !status.carry,
            ),
            DataProcessingOperation::ReverseSubtract => sub_flags(operand, source, false),
            DataProcessingOperation::ReverseSubtractWithCarry => sub_flags(
                operand,
                source,
                !status.carry,
            ),
        }
    }
}

proof fn lemma_sign_bit(word: u32)
    by (bit_vector)
    ensures
        ((word >> 31) & 1 == 1) == (word >= 0x8000_0000),
{
}

/// The overflow flag by the signs alone. After an addition it is set where
/// the two inputs have the same sign and the result has the other; after a
/// subtraction, where the two inputs have different signs and the result
/// has not the sign of the first. The carry flag after an addition says
/// that the sum did not fit; after a subtraction without borrow, that the
/// first input is not below the second.
pub proof fn lemma_flags_by_sign(a: u32, b: u32, carry: bool)
    ensures
        add_with_flags(a, b, flag_value(carry)).overflow == (bit(a, 31) == bit(b, 31) && bit(
            add_with_flags(a, b, flag_value(carry)).value,
            31,
        ) != bit(a, 31)),
        sub_with_flags(a, b, flag_value(carry)).overflow == (bit(a, 31) != bit(b, 31) && bit(
            sub_with_flags(a, b, flag_value(carry)).value,
            31,
        ) != bit(a, 31)),
        add_with_flags(a, b, 0).value == wrapping_add_spec(a, b),
        sub_with_flags(a, b, 0).carry == (a >= b),
        sub_with_flags(a, b, 0).value == 0 <==> a == b,
{
    lemma_sign_bit(a);
    lemma_sign_bit(b);
    lemma_sign_bit(add_with_flags(a, b, flag_value(carry)).value);
    lemma_sign_bit(sub_with_flags(a, b, flag_value(carry)).value);
}

/// A data-processing instruction, decoded.
#[derive(Copy, Clone, Debug, Eq, PartialEq, Structural)]
pub struct DataProcessingInstruction {
    pub update_conditions: bool,
    pub source_register_index: u32,
    pub operand: Operand,
    pub destination_register_index: Option<u32>,
    pub operation: DataProcessingOperation,
}

impl DataProcessingInstruction {
    /// The instruction that a data-processing encoding stands for. Bit 25
    /// chooses a rotated immediate over a shifted register; an operation that
    /// only tests has no destination. The carry flag is read for the carry of
    /// an immediate without rotation.
    pub open spec fn decode_spec(carry: bool, opcode: u32) -> DataProcessingInstruction {
        let operation = DataProcessingOperation::from_bits_spec((opcode >> 21) & 0xF);
        DataProcessingInstruction {
            update_conditions: opcode & 0x0010_0000 != 0,
            source_register_index: (opcode >> 16) & 0xF,
            operand: if opcode & 0x0200_0000 != 0 {
                Operand::Immediate(
                    rotated_immediate_spec(opcode),
                    rotated_immediate_carry_spec(opcode, carry),
                )
            } else {
                Operand::RegisterShifted(Shift::decode_spec(opcode))
            },
            destination_register_index: if operation.is_test() {
                None
            } else {
                Some((opcode >> 12) & 0xF)
            },
            operation,
        }
    }

    /// The first operand: the source register, which reads four bytes further
    /// on where it is the program counter and the second operand is shifted
    /// by a register.
    pub open spec fn source_value(self, registers: RegisterBank) -> u32 {
        if self.source_register_index == 15 && self.operand.shifts_by_register() {
            wrapping_add_spec(registers.get(15), 4)
        } else {
            registers.get(self.source_register_index as int)
        }
    }

    /// Whether the flags are written: the S bit asks for it, and an
    /// operation that only tests always does it.
    pub open spec fn writes_flags(self) -> bool {
        self.update_conditions || self.operation.is_test()
    }

    /// The registers after the instruction.
    pub open spec fn apply_spec(self, registers: RegisterBank) -> RegisterBank {
        let (operand, shifter_carry) = self.operand.value_spec(registers);
        let alu = self.operation.compute(
            self.source_value(registers),
            operand,
            shifter_carry,
            registers.cpsr,
        );
        let written = match self.destination_register_index {
            Some(destination) => registers.store(
                destination as int,
                registers.cpsr.mode,
                alu.value,
            ),
            None => registers,
        };
        if self.writes_flags() {
            written.with_cpsr(
                ProgramStatusRegister {
                    signed: bit(alu.value, 31),
                    zero: alu.value == 0,
                    carry: alu.carry,
                    overflow: alu.overflow,
                    ..registers.cpsr
                },
            )
        } else {
            written
        }
    }

    pub fn new(
        update_conditions: bool,
        source_register_index: u32,
        operand: Operand,
        destination_register_index: Option<u32>,
        operation: DataProcessingOperation,
    ) -> (instruction: Self)
        ensures
            instruction == (DataProcessingInstruction {
                update_conditions,
                source_register_index,
                operand,
                destination_register_index,
                operation,
            }),
    {
        Self {
            update_conditions,
            source_register_index,
            operand,
            destination_register_index,
            operation,
        }
    }

    pub fn decode(registers: &mut RegisterBank, opcode: u32) -> (instruction: Self)
        ensures
            *final(registers) == *old(registers),
            instruction == Self::decode_spec(old(registers).cpsr.carry, opcode),
            instruction.wf(),
    {
        proof {
            lemma_field_bounds(opcode);
        }
        let operand = if opcode & 0x0200_0000 != 0 {
            Operand::Immediate(
                rotated_immediate(opcode),
                rotated_immediate_carry(opcode, registers.cpsr.carry),
            )
        } else {
            Operand::RegisterShifted(Shift::from_opcode(opcode))
        };
        let operation = DataProcessingOperation::from_u32((opcode >> 21) & 0xF);
        let destination_register_index = if operation.sets_flags_only() {
            None
        } else {
            Some((opcode >> 12) & 0xF)
        };
        Self {
            update_conditions: opcode & 0x0010_0000 != 0,
            source_register_index: (opcode >> 16) & 0xF,
            operand,
            operation,
            destination_register_index,
        }
    }

    /// Executes the instruction on the registers alone: data processing
    /// never touches memory.
    pub fn apply(&self, registers: &mut RegisterBank)
        requires
            self.wf(),
        ensures
            *final(registers) == self.apply_spec(*old(registers)),
    {
        let source = if self.source_register_index == 15 && self.operand.uses_register_shift() {
            registers.reg(15).wrapping_add(4)
        } else {
            registers.reg(self.source_register_index as usize)
        };
        let (operand, shifter_carry) = self.operand.value(registers);
        let status = registers.cpsr;
        let alu = self.operation.apply(source, operand, shifter_carry, &status);
        if let Some(destination) = self.destination_register_index {
            registers.store_current(destination as usize, alu.value);
        }
        if self.update_conditions || self.operation.sets_flags_only() {
            registers.cpsr = ProgramStatusRegister {
                signed: test_bit(alu.value, 31),
                zero: alu.value == 0,
                carry: alu.carry,
                overflow: alu.overflow,
                ..status
            };
        }
    }
}

impl InstructionExecutor for DataProcessingInstruction {
    /// The operation's three letters, with an `s` where the flags are
    /// updated.
    open spec fn mnemonic_spec(&self) -> Seq<char> {
        self.operation.name_spec() + if self.update_conditions {
            "s"@
        } else {
            ""@
        }
    }

    /// The destination, if there is one, the source and the operand.
    open spec fn description_spec(&self, registers: RegisterBank, bus: BusModel) -> Seq<char> {
        match self.destination_register_index {
            Some(destination) => register_name_spec(destination) + ", "@ + register_name_spec(
                self.source_register_index,
            ) + ", "@ + operand_spec(self.operand),
            None => register_name_spec(self.source_register_index) + ", "@ + operand_spec(
                self.operand,
            ),
        }
    }

    fn mnemonic(&self) -> (text: String) {
        let mut text = String::from_str(self.operation.name());
        text.append(if self.update_conditions { "s" } else { "" });
        text
    }

    fn description(&self, registers: &RegisterBank, bus: &mut Bus) -> (text: String) {
        let mut text = String::new();
        if let Some(destination) = self.destination_register_index {
            text.append(register_name(destination).as_str());
            text.append(", ");
        }
        text.append(register_name(self.source_register_index).as_str());
        text.append(", ");
        text.append(operand_text(&self.operand).as_str());
        proof {
            assert(text@ =~= self.description_spec(*registers, bus@));
        }
        text
    }

    open spec fn wf(&self) -> bool {
        &&& self.source_register_index < 16
        &&& self.operand.wf()
        &&& match self.destination_register_index {
            Some(destination) => destination < 16,
            None => true,
        }
    }

    /// The registers change as the operation says; memory is left alone; one
    /// cycle is reported.
    open spec fn effect(&self, registers: RegisterBank, bus: BusModel) -> Outcome {
        Outcome { registers: self.apply_spec(registers), bus, result: Ok(1) }
    }

    fn execute(&self, registers: &mut RegisterBank, bus: &mut Bus) -> (result: Result<
        usize,
        CoreError,
    >) {
        self.apply(registers);
        Ok(1)
    }
}

} // verus!
