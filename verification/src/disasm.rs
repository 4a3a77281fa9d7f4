//! Text for the debugger: condition labels, numbers in hexadecimal, and the
//! line that describes an instruction.

use vstd::prelude::*;
use vstd::string::{StrSliceExecFns, StringExecFns};
use crate::instruction::Operand;
use crate::shift::{Shift, ShiftType};

verus! {

/// The sixteen hexadecimal digits, upper case.
pub open spec fn hex_digit_spec(digit: u32) -> char
    recommends
        digit < 16,
{
    if digit < 10 {
        (('0' as u32) + digit) as char
    } else {
        (('A' as u32) + (digit - 10)) as char
    }
}

/// A number in hexadecimal without leading zeros; zero is "0".
pub open spec fn hex_spec(value: u32) -> Seq<char>
    decreases value,
{
    if value < 16 {
        seq![hex_digit_spec(value)]
    } else {
        hex_spec(value / 16).push(hex_digit_spec(value % 16))
    }
}

pub fn hex_digit(digit: u32) -> (text: &'static str)
    requires
        digit < 16,
    ensures
        text@ == seq![hex_digit_spec(digit)],
{
    let text = match digit {
        0 => "0",
        1 => "1",
        2 => "2",
        3 => "3",
        4 => "4",
        5 => "5",
        6 => "6",
        7 => "7",
        8 => "8",
        9 => "9",
        10 => "A",
        11 => "B",
        12 => "C",
        13 => "D",
        14 => "E",
        _ => "F",
    };
    proof {
        reveal_strlit("0");
        reveal_strlit("1");
        reveal_strlit("2");
        reveal_strlit("3");
        reveal_strlit("4");
        reveal_strlit("5");
        reveal_strlit("6");
        reveal_strlit("7");
        reveal_strlit("8");
        reveal_strlit("9");
        reveal_strlit("A");
        reveal_strlit("B");
        reveal_strlit("C");
        reveal_strlit("D");
        reveal_strlit("E");
        reveal_strlit("F");
        assert(text@ =~= seq![hex_digit_spec(digit)]);
    }
    text
}

/// Writes a number in hexadecimal, upper case, without leading zeros.
pub fn hex(value: u32) -> (text: String)
    ensures
        text@ == hex_spec(value),
    decreases value,
{
    if value < 16 {
        String::from_str(hex_digit(value))
    } else {
        let mut text = hex(value / 16);
        text.append(hex_digit(value % 16));
        text
    }
}

/// A number in decimal without leading zeros; zero is "0".
pub open spec fn decimal_spec(value: u32) -> Seq<char>
    decreases value,
{
    if value < 10 {
        seq![hex_digit_spec(value)]
    } else {
        decimal_spec(value / 10).push(hex_digit_spec(value % 10))
    }
}

/// Writes a number in decimal.
pub fn decimal(value: u32) -> (text: String)
    ensures
        text@ == decimal_spec(value),
    decreases value,
{
    if value < 10 {
        String::from_str(hex_digit(value))
    } else {
        let mut text = decimal(value / 10);
        text.append(hex_digit(value % 10));
        text
    }
}

/// `count` zeros.
pub open spec fn zeros_spec(count: nat) -> Seq<char> {
    Seq::new(count, |i: int| '0')
}

/// A number in hexadecimal, with zeros in front up to `width` digits. A
/// number that needs more digits gets them.
pub open spec fn hex_padded_spec(value: u32, width: nat) -> Seq<char> {
    let digits = hex_spec(value);
    if digits.len() >= width {
        digits
    } else {
        zeros_spec((width - digits.len()) as nat) + digits
    }
}

/// The number of hexadecimal digits of a number: at least one, at most
/// eight.
pub open spec fn hex_len_spec(value: u32) -> nat
    decreases value,
{
    if value < 16 {
        1
    } else {
        hex_len_spec(value / 16) + 1
    }
}

proof fn lemma_hex_len(value: u32)
    ensures
        hex_spec(value).len() == hex_len_spec(value),
        1 <= hex_len_spec(value) <= 8,
    decreases value,
{
    if value >= 16 {
        lemma_hex_len(value / 16);
        lemma_hex_bound(value);
    }
}

proof fn lemma_hex_bound(value: u32)
    ensures
        hex_len_spec(value) <= 8,
{
    reveal_with_fuel(hex_len_spec, 9);
}

fn hex_len(value: u32) -> (len: usize)
    ensures
        len == hex_spec(value).len(),
        1 <= len <= 8,
{
    proof {
        lemma_hex_len(value);
    }
    let mut len: usize = 1;
    let mut rest: u32 = value;
    while rest >= 16
        invariant
            1 <= len,
            hex_len_spec(value) <= 8,
            hex_len_spec(value) == hex_len_spec(rest) + len - 1,
        decreases rest,
    {
        proof {
            lemma_hex_len(rest / 16);
        }
        rest = rest / 16;
        len = len + 1;
    }
    len
}

/// Writes a number in hexadecimal with zeros in front up to `width` digits.
pub fn hex_padded(value: u32, width: usize) -> (text: String)
    ensures
        text@ == hex_padded_spec(value, width as nat),
{
    let len = hex_len(value);
    let digits = hex(value);
    if len >= width {
        return digits;
    }
    let mut text = String::new();
    let mut written: usize = 0;
    while written < width - len
        invariant
            len < width,
            written <= width - len,
            text@ == zeros_spec(written as nat),
        decreases width - len - written,
    {
        proof {
            reveal_strlit("0");
        }
        text.append("0");
        written = written + 1;
        assert(text@ =~= zeros_spec(written as nat));
    }
    text.append(digits.as_str());
    text
}

/// The size of a signed offset without its sign.
pub open spec fn magnitude(offset: i32) -> u32 {
    if offset >= 0 {
        offset as u32
    } else {
        (-offset) as u32
    }
}

/// An offset as an immediate: `#0x` and the hexadecimal digits, with a
/// minus sign after the `#` where the offset is negative.
pub open spec fn offset_as_immediate_spec(offset: i32) -> Seq<char> {
    if offset >= 0 {
        "#0x"@ + hex_spec(magnitude(offset))
    } else {
        "#-0x"@ + hex_spec(magnitude(offset))
    }
}

pub fn print_offset_as_immediate(offset: i32) -> (text: String)
    ensures
        text@ == offset_as_immediate_spec(offset),
{
    if offset >= 0 {
        let mut text = String::from_str("#0x");
        text.append(hex(offset as u32).as_str());
        text
    } else {
        let size: u32 = (-(offset as i64)) as u32;
        let mut text = String::from_str("#-0x");
        text.append(hex(size).as_str());
        text
    }
}

/// The two letters that an assembler writes for a condition code; none for
/// "always".
pub open spec fn condition_label_spec(condition_code: u32) -> Seq<char> {
    if condition_code == 0x0 {
        "eq"@
    } else if condition_code == 0x1 {
        "ne"@
    } else if condition_code == 0x2 {
        "cs"@
    } else if condition_code == 0x3 {
        "cc"@
    } else if condition_code == 0x4 {
        "mi"@
    } else if condition_code == 0x5 {
        "pl"@
    } else if condition_code == 0x6 {
        "vs"@
    } else if condition_code == 0x7 {
        "vc"@
    } else if condition_code == 0x8 {
        "hi"@
    } else if condition_code == 0x9 {
        "ls"@
    } else if condition_code == 0xA {
        "ge"@
    } else if condition_code == 0xB {
        "lt"@
    } else if condition_code == 0xC {
        "gt"@
    } else if condition_code == 0xD {
        "le"@
    } else if condition_code == 0xE {
        ""@
    } else {
        "nv"@
    }
}

pub fn get_condition_label(condition_code: u32) -> (label: &'static str)
    requires
        condition_code < 16,
    ensures
        label@ == condition_label_spec(condition_code),
{
    match condition_code {
        0x0 => "eq",
        0x1 => "ne",
        0x2 => "cs",
        0x3 => "cc",
        0x4 => "mi",
        0x5 => "pl",
        0x6 => "vs",
        0x7 => "vc",
        0x8 => "hi",
        0x9 => "ls",
        0xA => "ge",
        0xB => "lt",
        0xC => "gt",
        0xD => "le",
        0xE => "",
        _ => "nv",
    }
}

/// The name of a register: `r` and its number.
pub open spec fn register_name_spec(index: u32) -> Seq<char> {
    "r"@ + decimal_spec(index)
}

pub fn register_name(index: u32) -> (text: String)
    ensures
        text@ == register_name_spec(index),
{
    let mut text = String::from_str("r");
    text.append(decimal(index).as_str());
    text
}

/// The three letters of a shift operation.
pub open spec fn shift_type_spec(kind: ShiftType) -> Seq<char> {
    match kind {
        ShiftType::LogicalLeft => "LSL"@,
        ShiftType::LogicalRight => "LSR"@,
        ShiftType::ArithmeticRight => "ASR"@,
        ShiftType::RotateRight => "ROR"@,
    }
}

pub fn shift_type_text(kind: ShiftType) -> (text: &'static str)
    ensures
        text@ == shift_type_spec(kind),
{
    match kind {
        ShiftType::LogicalLeft => "LSL",
        ShiftType::LogicalRight => "LSR",
        ShiftType::ArithmeticRight => "ASR",
        ShiftType::RotateRight => "ROR",
    }
}

/// A shift as an assembler writes it: the shifted register, the operation,
/// and the amount as a register or as a number in hexadecimal.
pub open spec fn shift_spec(shift: Shift) -> Seq<char> {
    match shift {
        Shift::Register(s) => register_name_spec(s.base_register) + ", "@ + shift_type_spec(
            s.shift_type,
        ) + ", "@ + register_name_spec(s.shift_register),
        Shift::Immediate(s) => register_name_spec(s.base_register) + ", "@ + shift_type_spec(
            s.shift_type,
        ) + ", #"@ + hex_spec(s.shift_amount),
    }
}

pub fn shift_text(shift: &Shift) -> (text: String)
    ensures
        text@ == shift_spec(*shift),
{
    match shift {
        Shift::Register(s) => {
            let mut text = register_name(s.base_register);
            text.append(", ");
            text.append(shift_type_text(s.shift_type));
            text.append(", ");
            text.append(register_name(s.shift_register).as_str());
            text
        },
        Shift::Immediate(s) => {
            let mut text = register_name(s.base_register);
            text.append(", ");
            text.append(shift_type_text(s.shift_type));
            text.append(", #");
            text.append(hex(s.shift_amount).as_str());
            text
        },
    }
}

/// An operand as an assembler writes it.
pub open spec fn operand_spec(operand: Operand) -> Seq<char> {
    match operand {
        Operand::Immediate(value, _) => "#0x"@ + hex_spec(value),
        Operand::Register(index) => register_name_spec(index),
        Operand::RegisterShifted(shift) => shift_spec(shift),
    }
}

pub fn operand_text(operand: &Operand) -> (text: String)
    ensures
        text@ == operand_spec(*operand),
{
    match operand {
        Operand::Immediate(value, _) => {
            let mut text = String::from_str("#0x");
            text.append(hex(*value).as_str());
            text
        },
        Operand::Register(index) => register_name(*index),
        Operand::RegisterShifted(shift) => shift_text(shift),
    }
}

/// The line that the debugger shows for an instruction: its address and
/// encoding in eight hexadecimal digits each, the mnemonic, the condition
/// after a dot unless it is "always", and the description.
pub open spec fn log_line_spec(
    address: u32,
    opcode: u32,
    condition: u32,
    mnemonic: Seq<char>,
    description: Seq<char>,
) -> Seq<char> {
    "$"@ + hex_padded_spec(address, 8) + ": "@ + hex_padded_spec(opcode, 8) + " "@ + mnemonic + (
    if condition_label_spec(condition).len() > 0 {
        "."@
    } else {
        ""@
    }) + condition_label_spec(condition) + " "@ + description
}

pub fn log_line(address: u32, opcode: u32, condition: u32, mnemonic: &str, description: &str) -> (text:
    String)
    requires
        condition < 16,
    ensures
        text@ == log_line_spec(address, opcode, condition, mnemonic@, description@),
{
    let label = get_condition_label(condition);
    let mut text = String::from_str("$");
    text.append(hex_padded(address, 8).as_str());
    text.append(": ");
    text.append(hex_padded(opcode, 8).as_str());
    text.append(" ");
    text.append(mnemonic);
    text.append(if label.unicode_len() > 0 { "." } else { "" });
    text.append(label);
    text.append(" ");
    text.append(description);
    text
}

} // verus!
