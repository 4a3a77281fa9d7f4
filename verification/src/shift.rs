//! The barrel shifter: four operations that give a shifted value and the
//! carry that falls out of it, and the three ways an instruction names the
//! amount.

use vstd::prelude::*;
use crate::bits::{bit, lemma_field_bounds, rotate_left, rotate_left_spec, rotate_right,
    rotate_right_spec, lemma_rotate_left_right, lemma_rotate_right_left, test_bit};
use crate::register::RegisterBank;

verus! {

/// The four operations of the barrel shifter.
#[derive(Copy, Clone, Eq, PartialEq, Structural, Debug)]
pub enum ShiftType {
    LogicalLeft,
    LogicalRight,
    ArithmeticRight,
    RotateRight,
}

/// `operand` shifted right by `places` with copies of bit 31 coming in from
/// the left.
pub open spec fn sign_fill_right(operand: u32, places: u32) -> u32
    recommends
        places < 32,
{
    if bit(operand, 31) {
        (operand >> places) | !(0xFFFF_FFFFu32 >> places)
    } else {
        operand >> places
    }
}

/// What the barrel shifter gives for an operand, an amount as an instruction
/// encodes it, and the carry flag as it stands: the value and the carry out.
///
/// An amount of 0 leaves a left shift without effect, stands for 32 in both
/// right shifts, and turns the rotation into a rotation by one place through
/// the carry flag.
pub open spec fn barrel_shift(kind: ShiftType, operand: u32, amount: u32, carry: bool) -> (
    u32,
    bool,
) {
    match kind {
        ShiftType::LogicalLeft => if amount == 0 {
            (operand, carry)
        } else if amount < 32 {
            (operand << amount, bit(operand, (32 - amount) as u32))
        } else if amount == 32 {
            (0, bit(operand, 0))
        } else {
            (0, false)
        },
        ShiftType::LogicalRight => if amount == 0 || amount == 32 {
            (0, bit(operand, 31))
        } else if amount < 32 {
            (operand >> amount, bit(operand, (amount - 1) as u32))
        } else {
            (0, false)
        },
        ShiftType::ArithmeticRight => if amount == 0 || amount >= 32 {
            (
                if bit(operand, 31) {
                    0xFFFF_FFFF
                } else {
                    0
                },
                bit(operand, 31),
            )
        } else {
            (sign_fill_right(operand, amount), bit(operand, (amount - 1) as u32))
        },
        ShiftType::RotateRight => if amount == 0 {
            (
                (operand >> 1) | (if carry {
                    0x8000_0000u32
                } else {
                    0
                }),
                bit(operand, 0),
            )
        } else {
            (rotate_right_spec(operand, amount), bit(operand, ((amount - 1) % 32) as u32))
        },
    }
}

/// The shifter's result when the amount comes from a register: only its low
/// eight bits count, and an amount of 0 leaves operand and carry as they are.
pub open spec fn barrel_shift_by_register(
    kind: ShiftType,
    operand: u32,
    amount: u32,
    carry: bool,
) -> (u32, bool) {
    if amount & 0xFF == 0 {
        (operand, carry)
    } else {
        barrel_shift(kind, operand, amount & 0xFF, carry)
    }
}

impl ShiftType {
    /// The shift operation that two bits of an encoding select.
    pub open spec fn from_bits_spec(value: u32) -> ShiftType {
        let code = value & 0x3;
        if code == 0 {
            ShiftType::LogicalLeft
        } else if code == 1 {
            ShiftType::LogicalRight
        } else if code == 2 {
            ShiftType::ArithmeticRight
        } else {
            ShiftType::RotateRight
        }
    }

    pub fn from_u32(value: u32) -> (kind: ShiftType)
        ensures
            kind == ShiftType::from_bits_spec(value),
    {
        let code: u32 = value & 0x3;
        if code == 0 {
            ShiftType::LogicalLeft
        } else if code == 1 {
            ShiftType::LogicalRight
        } else if code == 2 {
            ShiftType::ArithmeticRight
        } else {
            ShiftType::RotateRight
        }
    }

    pub fn shift(&self, operand: u32, shift_amount: u32, old_carry: bool) -> (result: (u32, bool))
        ensures
            result == barrel_shift(*self, operand, shift_amount, old_carry),
    {
        match self {
            ShiftType::LogicalLeft => {
                if shift_amount == 0 {
                    (operand, old_carry)
                } else if shift_amount < 32 {
                    (operand << shift_amount, test_bit(operand, 32 - shift_amount))
                } else if shift_amount == 32 {
                    (0, test_bit(operand, 0))
                } else {
                    (0, false)
                }
            },
            ShiftType::LogicalRight => {
                if shift_amount == 0 || shift_amount == 32 {
                    (0, test_bit(operand, 31))
                } else if shift_amount < 32 {
                    (operand >> shift_amount, test_bit(operand, shift_amount - 1))
                } else {
                    (0, false)
                }
            },
            ShiftType::ArithmeticRight => {
                let negative = test_bit(operand, 31);
                if shift_amount == 0 || shift_amount >= 32 {
                    (if negative { 0xFFFF_FFFF } else { 0 }, negative)
                } else {
                    let value: u32 = if negative {
                        (operand >> shift_amount) | !(0xFFFF_FFFFu32 >> shift_amount)
                    } else {
                        operand >> shift_amount
                    };
                    (value, test_bit(operand, shift_amount - 1))
                }
            },
            ShiftType::RotateRight => {
                if shift_amount == 0 {
                    let carry_in: u32 = if old_carry { 0x8000_0000 } else { 0 };
                    ((operand >> 1) | carry_in, test_bit(operand, 0))
                } else {
                    (rotate_right(operand, shift_amount), test_bit(operand, (shift_amount - 1) % 32))
                }
            },
        }
    }
}

/// A shift whose amount is the low byte of a register.
#[derive(Copy, Clone, Eq, PartialEq, Structural, Debug)]
pub struct RegisterShift {
    pub base_register: u32,
    pub shift_register: u32,
    pub shift_type: ShiftType,
}

/// A shift whose amount is written in the instruction.
#[derive(Copy, Clone, Eq, PartialEq, Structural, Debug)]
pub struct ImmediateShift {
    pub base_register: u32,
    pub shift_amount: u32,
    pub shift_type: ShiftType,
}

/// A shift of a register, by an amount from a register or from the
/// instruction.
#[derive(Copy, Clone, Eq, PartialEq, Structural, Debug)]
pub enum Shift {
    Register(RegisterShift),
    Immediate(ImmediateShift),
}

impl RegisterShift {
    pub open spec fn wf(self) -> bool {
        self.base_register < 16 && self.shift_register < 16
    }

    /// The shifted value of the base register and the carry out.
    pub open spec fn shift_spec(self, registers: RegisterBank) -> (u32, bool) {
        barrel_shift_by_register(
            self.shift_type,
            registers.get(self.base_register as int),
            registers.get(self.shift_register as int),
            registers.cpsr.carry,
        )
    }

    pub fn new(base_register: u32, shift_register: u32, shift_type: ShiftType) -> (shift: Self)
        ensures
            shift == (RegisterShift { base_register, shift_register, shift_type }),
    {
        Self { base_register, shift_register, shift_type }
    }

    pub fn shift(&self, registers: &RegisterBank) -> (result: (u32, bool))
        requires
            self.wf(),
        ensures
            result == self.shift_spec(*registers),
    {
        let operand = registers.reg(self.base_register as usize);
        let amount: u32 = registers.reg(self.shift_register as usize) & 0xFF;
        if amount == 0 {
            (operand, registers.cpsr.carry)
        } else {
            self.shift_type.shift(operand, amount, registers.cpsr.carry)
        }
    }
}

impl ImmediateShift {
    pub open spec fn wf(self) -> bool {
        self.base_register < 16
    }

    /// The shifted value of the base register and the carry out.
    pub open spec fn shift_spec(self, registers: RegisterBank) -> (u32, bool) {
        barrel_shift(
            self.shift_type,
            registers.get(self.base_register as int),
            self.shift_amount,
            registers.cpsr.carry,
        )
    }

    pub fn new(base_register: u32, shift_amount: u32, shift_type: ShiftType) -> (shift: Self)
        ensures
            shift == (ImmediateShift { base_register, shift_amount, shift_type }),
    {
        Self { base_register, shift_amount, shift_type }
    }

    pub fn shift(&self, registers: &RegisterBank) -> (result: (u32, bool))
        requires
            self.wf(),
        ensures
            result == self.shift_spec(*registers),
    {
        self.shift_type.shift(
            registers.reg(self.base_register as usize),
            self.shift_amount,
            registers.cpsr.carry,
        )
    }
}

impl Shift {
    pub open spec fn wf(self) -> bool {
        match self {
            Shift::Register(shift) => shift.wf(),
            Shift::Immediate(shift) => shift.wf(),
        }
    }

    /// Whether the amount comes from a register.
    pub open spec fn by_register(self) -> bool {
        self is Register
    }

    /// The shift that the low twelve bits of an encoding describe: bit 4
    /// chooses between an amount in a register (bits 11 to 8) and an amount
    /// of five bits (11 to 7); bits 6 and 5 give the operation, bits 3 to 0
    /// the register that is shifted.
    pub open spec fn decode_spec(opcode: u32) -> Shift {
        if opcode & 0x10 != 0 {
            Shift::Register(
                RegisterShift {
                    base_register: opcode & 0xF,
                    shift_register: (opcode >> 8) & 0xF,
                    shift_type: ShiftType::from_bits_spec((opcode >> 5) & 0x3),
                },
            )
        } else {
            Shift::Immediate(
                ImmediateShift {
                    base_register: opcode & 0xF,
                    shift_amount: (opcode >> 7) & 0x1F,
                    shift_type: ShiftType::from_bits_spec((opcode >> 5) & 0x3),
                },
            )
        }
    }

    /// The shifted value and the carry out.
    pub open spec fn shift_spec(self, registers: RegisterBank) -> (u32, bool) {
        match self {
            Shift::Register(shift) => shift.shift_spec(registers),
            Shift::Immediate(shift) => shift.shift_spec(registers),
        }
    }

    pub fn from_opcode(opcode: u32) -> (shift: Shift)
        ensures
            shift == Shift::decode_spec(opcode),
            shift.wf(),
    {
        proof {
            lemma_field_bounds(opcode);
        }
        if opcode & 0x10 != 0 {
            Shift::Register(
                RegisterShift {
                    base_register: opcode & 0xF,
                    shift_register: (opcode >> 8) & 0xF,
                    shift_type: ShiftType::from_u32((opcode >> 5) & 0x3),
                },
            )
        } else {
            Shift::Immediate(
                ImmediateShift {
                    base_register: opcode & 0xF,
                    shift_amount: (opcode >> 7) & 0x1F,
                    shift_type: ShiftType::from_u32((opcode >> 5) & 0x3),
                },
            )
        }
    }

    pub fn shift(&self, registers: &RegisterBank) -> (result: (u32, bool))
        requires
            self.wf(),
        ensures
            result == self.shift_spec(*registers),
    {
        match self {
            Shift::Register(shift) => shift.shift(registers),
            Shift::Immediate(shift) => shift.shift(registers),
        }
    }
}

/// The value of a rotated immediate: the low eight bits of the encoding,
/// rotated right by twice the four bits above them.
pub open spec fn rotated_immediate_spec(opcode: u32) -> u32 {
    rotate_right_spec(opcode & 0xFF, (2 * ((opcode >> 8) & 0xF)) as u32)
}

/// The shifter carry of a rotated immediate: the carry flag as it stands when
/// the rotation is 0, else bit 31 of the rotated value.
pub open spec fn rotated_immediate_carry_spec(opcode: u32, carry: bool) -> bool {
    if (opcode >> 8) & 0xF == 0 {
        carry
    } else {
        bit(rotated_immediate_spec(opcode), 31)
    }
}

pub fn rotated_immediate(opcode: u32) -> (value: u32)
    ensures
        value == rotated_immediate_spec(opcode),
{
    proof {
        lemma_field_bounds(opcode);
    }
    let shift_amount: u32 = 2 * ((opcode >> 8) & 0xF);
    let immediate: u32 = opcode & 0xFF;
    rotate_right(immediate, shift_amount)
}

pub fn rotated_immediate_carry(opcode: u32, carry: bool) -> (carry_out: bool)
    ensures
        carry_out == rotated_immediate_carry_spec(opcode, carry),
{
    if (opcode >> 8) & 0xF == 0 {
        carry
    } else {
        test_bit(rotated_immediate(opcode), 31)
    }
}

/// Whether the twelve-bit field `field` is a rotated immediate for `value`.
pub open spec fn encodes(field: u32, value: u32) -> bool {
    field < 0x1000 && rotated_immediate_spec(field) == value
}

/// `value` turned back by the rotation that the four-bit number `rotation`
/// stands for: the eight-bit part that `rotation` would need.
pub open spec fn unrotated(value: u32, rotation: u32) -> u32 {
    rotate_left_spec(value, (2 * rotation) as u32)
}

/// Finds the rotated immediate that stands for `value`: the one with the
/// smallest rotation, or `None` where no rotation of an eight-bit number
/// gives `value`.
pub fn encode_rotated_immediate(value: u32) -> (field: Option<u32>)
    ensures
        match field {
            Some(f) => {
                &&& encodes(f, value)
                &&& f & 0xFF == unrotated(value, f >> 8)
                &&& forall|rotation: u32| rotation < f >> 8 ==> #[trigger] unrotated(value, rotation) > 0xFF
            },
            None => forall|f: u32| !#[trigger] encodes(f, value),
        },
{
    let mut rotation: u32 = 0;
    while rotation < 16
        invariant
            rotation <= 16,
            forall|r: u32| r < rotation ==> #[trigger] unrotated(value, r) > 0xFF,
        decreases 16 - rotation,
    {
        let low = rotate_left(value, 2 * rotation);
        if low <= 0xFF {
            proof {
                lemma_immediate_field(rotation, low);
                lemma_rotate_left_right(value, (2 * rotation) as u32);
            }
            return Some((rotation << 8) | low);
        }
        rotation += 1;
    }
    proof {
        assert forall|f: u32| !#[trigger] encodes(f, value) by {
            if encodes(f, value) {
                let r = (f >> 8) & 0xF;
                lemma_field_bounds(f);
                lemma_rotate_right_left(f & 0xFF, (2 * r) as u32);
                assert(unrotated(value, r) == f & 0xFF);
            }
        }
    }
    None
}

proof fn lemma_immediate_field(rotation: u32, low: u32)
    by (bit_vector)
    requires
        rotation < 16,
        low <= 0xFF,
    ensures
        ((rotation << 8) | low) & 0xFF == low,
        (((rotation << 8) | low) >> 8) & 0xF == rotation,
        (rotation << 8) | low < 0x1000,
        ((rotation << 8) | low) >> 8 == rotation,
{
}

/// The shifter at the edges of its range: a left shift by 32 leaves zero
/// and hands bit 0 to the carry; an encoded amount of 0 makes each right
/// shift a shift by 32, and makes the rotation one place through the carry.
pub proof fn lemma_shift_boundaries(operand: u32, carry: bool)
    ensures
        barrel_shift(ShiftType::LogicalLeft, operand, 32, carry) == (0u32, bit(operand, 0)),
        barrel_shift(ShiftType::LogicalRight, operand, 0, carry) == barrel_shift(
            ShiftType::LogicalRight,
            operand,
            32,
            carry,
        ),
        barrel_shift(ShiftType::LogicalRight, operand, 32, carry) == (0u32, bit(operand, 31)),
        barrel_shift(ShiftType::ArithmeticRight, operand, 0, carry) == barrel_shift(
            ShiftType::ArithmeticRight,
            operand,
            32,
            carry,
        ),
        barrel_shift(ShiftType::RotateRight, operand, 0, carry) == (
            (operand >> 1) | if carry {
                0x8000_0000u32
            } else {
                0u32
            },
            bit(operand, 0),
        ),
{
}

/// Filling with the sign from the left is the arithmetic shift of the
/// operand read as a signed number; a logical shift leaves no bit above
/// those it moved down; a left shift hands the last bit that it pushed out
/// to the carry.
pub proof fn lemma_shift_meaning(operand: u32, amount: u32)
    by (bit_vector)
    requires
        0 < amount < 32,
    ensures
        (if (operand >> 31) & 1 == 1 {
            (operand >> amount) | !(0xFFFF_FFFFu32 >> amount)
        } else {
            operand >> amount
        }) == ((operand as i32) >> amount) as u32,
        operand >> amount <= 0xFFFF_FFFFu32 >> amount,
        ((operand >> ((32 - amount) as u32)) & 1 == 1) == ((operand << ((amount - 1) as u32))
            & 0x8000_0000 != 0),
{
}

} // verus!
