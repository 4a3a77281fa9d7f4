//! Multiplication: recognised by the decoder so that it is not taken for
//! data processing, and reported as not implemented.

use vstd::prelude::*;

verus! {

pub const MULTIPLY_MASK: u32 = 0x0F80_00F0;

pub const MULTIPLY_FORMAT: u32 = 0x0000_0090;

pub const MULTIPLY_LONG_FORMAT: u32 = 0x0080_0090;

/// Whether an encoding is a multiply or a multiply long.
pub open spec fn is_multiply(opcode: u32) -> bool {
    opcode & MULTIPLY_MASK == MULTIPLY_FORMAT || opcode & MULTIPLY_MASK == MULTIPLY_LONG_FORMAT
}

} // verus!
