//! The faults that the core reports to its caller.

use vstd::prelude::*;
use vstd::string::StringExecFns;
use crate::disasm::{hex_padded, hex_padded_spec};

verus! {

/// A fault raised by the decoder, by the bus or while the machine is set up.
#[derive(Debug, Clone, Copy, PartialEq, Eq, Structural)]
pub enum CoreError {
    /// The decoder matched no instruction form; holds the raw encoding.
    OpcodeNotImplemented(u32),
    /// No device takes the access at this address.
    InvalidRegion(u32),
    /// A BIOS image that is not exactly 16 KiB long.
    BiosSizeMismatch,
}

impl CoreError {
    /// The fault in words, with the address or the encoding in hexadecimal.
    pub open spec fn message_spec(self) -> Seq<char> {
        match self {
            CoreError::InvalidRegion(address) => "Address access violation at 0x"@
                + hex_padded_spec(address, 4),
            CoreError::OpcodeNotImplemented(opcode) => "Opcode not implemented: 0x"@
                + hex_padded_spec(opcode, 8),
            CoreError::BiosSizeMismatch => "Bios files must be 0x4000 bytes"@,
        }
    }

    pub fn message(&self) -> (text: String)
        ensures
            text@ == self.message_spec(),
    {
        match self {
            CoreError::InvalidRegion(address) => {
                let mut text = String::from_str("Address access violation at 0x");
                text.append(hex_padded(*address, 4).as_str());
                text
            },
            CoreError::OpcodeNotImplemented(opcode) => {
                let mut text = String::from_str("Opcode not implemented: 0x");
                text.append(hex_padded(*opcode, 8).as_str());
                text
            },
            CoreError::BiosSizeMismatch => String::from_str("Bios files must be 0x4000 bytes"),
        }
    }
}

} // verus!
