//! Transfers of a halfword or of a signed byte between a register and
//! memory.

use vstd::prelude::*;
use crate::bits::{lemma_field_bounds, wrapping_add, wrapping_add_spec, wrapping_sub,
    wrapping_sub_spec};
use vstd::string::StringExecFns;
use crate::bus::{Bus, BusModel};
use crate::disasm::{hex, hex_spec, register_name, register_name_spec};
use crate::error::CoreError;
use crate::instruction::{InstructionExecutor, Outcome};
use crate::register::RegisterBank;

verus! {

pub const HALFWORD_DATA_TRANSFER_REG_MASK: u32 = 0x0E00_0090;

pub const HALFWORD_DATA_TRANSFER_REG_FORMAT: u32 = 0x0000_0090;

/// The two bits that say what is transferred. An encoding where both are
/// clear is no halfword transfer.
pub const HALFWORD_DATA_TRANSFER_KIND: u32 = 0x0000_0060;

/// The offset of a halfword transfer.
#[derive(Copy, Clone, Debug, Eq, PartialEq, Structural)]
pub enum HalfwordDataOffset {
    /// A number written in the instruction.
    Offset(u8),
    /// The value of a register.
    Register(u32),
}

/// A 16-bit word as a 32-bit word, sign bit copied upwards where `signed`.
pub open spec fn extend_halfword(data: u16, signed: bool) -> u32 {
    if signed && data >= 0x8000 {
        (data as u32) | 0xFFFF_0000
    } else {
        data as u32
    }
}

/// A byte as a 32-bit word, sign bit copied upwards where `signed`.
pub open spec fn extend_byte(data: u8, signed: bool) -> u32 {
    if signed && data >= 0x80 {
        (data as u32) | 0xFFFF_FF00
    } else {
        data as u32
    }
}

/// A transfer of a halfword or of a signed byte, decoded.
#[derive(Copy, Clone, Debug, Eq, PartialEq, Structural)]
pub struct HalfwordDataTransferRegInstruction {
    pub pre_index: bool,
    pub up: bool,
    pub write_back: bool,
    pub load: bool,
    /// A load extends the sign of what it read.
    pub signed: bool,
    /// Sixteen bits are transferred; else eight.
    pub halfword: bool,
    pub base_register_index: u32,
    pub offset: HalfwordDataOffset,
    /// The register that is loaded or stored.
    pub source_register_index: u32,
}

impl HalfwordDataTransferRegInstruction {
    /// The transfer that an encoding stands for. Bit 22 chooses an eight-bit
    /// offset, split over bits 11 to 8 and 3 to 0, over a register.
    pub open spec fn decode_spec(opcode: u32) -> HalfwordDataTransferRegInstruction {
        HalfwordDataTransferRegInstruction {
            pre_index: opcode & 0x0100_0000 != 0,
            up: opcode & 0x0080_0000 != 0,
            write_back: opcode & 0x0020_0000 != 0,
            load: opcode & 0x0010_0000 != 0,
            signed: opcode & 0x40 != 0,
            halfword: opcode & 0x20 != 0,
            base_register_index: (opcode >> 16) & 0xF,
            offset: if opcode & 0x0040_0000 != 0 {
                HalfwordDataOffset::Offset((((opcode >> 4) & 0xF0) | (opcode & 0xF)) as u8)
            } else {
                HalfwordDataOffset::Register(opcode & 0xF)
            },
            source_register_index: (opcode >> 12) & 0xF,
        }
    }

    pub open spec fn offset_spec(self, registers: RegisterBank) -> u32 {
        match self.offset {
            HalfwordDataOffset::Offset(offset) => offset as u32,
            HalfwordDataOffset::Register(index) => registers.get(index as int),
        }
    }

    /// The base moved up or down by the offset.
    pub open spec fn moved_base(self, registers: RegisterBank) -> u32 {
        let base = registers.get(self.base_register_index as int);
        if self.up {
            wrapping_add_spec(base, self.offset_spec(registers))
        } else {
            wrapping_sub_spec(base, self.offset_spec(registers))
        }
    }

    /// The address of the transfer: the moved base when pre-indexed, the
    /// base itself when post-indexed.
    pub open spec fn address_spec(self, registers: RegisterBank) -> u32 {
        if self.pre_index {
            self.moved_base(registers)
        } else {
            registers.get(self.base_register_index as int)
        }
    }

    /// Whether the base register is updated: always when post-indexed, on
    /// request when pre-indexed, and never by a load into the base itself.
    pub open spec fn updates_base(self) -> bool {
        (self.write_back || !self.pre_index) && !(self.load && self.base_register_index
            == self.source_register_index)
    }

    /// What the load or the store at `address` does, before any update of
    /// the base.
    pub open spec fn move_spec(self, address: u32, registers: RegisterBank, bus: BusModel) -> Outcome {
        if self.load {
            let read = if self.halfword {
                match bus.read_word(address) {
                    Ok(data) => Ok(extend_halfword(data, self.signed)),
                    Err(e) => Err(e),
                }
            } else {
                match bus.read_byte(address) {
                    Ok(data) => Ok(extend_byte(data, self.signed)),
                    Err(e) => Err(e),
                }
            };
            match read {
                Err(e) => Outcome { registers, bus, result: Err(e) },
                Ok(data) => Outcome {
                    registers: registers.store(
                        self.source_register_index as int,
                        registers.cpsr.mode,
                        data,
                    ),
                    bus,
                    result: Ok(1),
                },
            }
        } else {
            let value = registers.get(self.source_register_index as int);
            let (after, written) = if self.halfword {
                bus.write_word(address, value as u16)
            } else {
                bus.write_byte(address, value as u8)
            };
            match written {
                Err(e) => Outcome { registers, bus: after, result: Err(e) },
                Ok(_) => Outcome { registers, bus: after, result: Ok(1) },
            }
        }
    }

    pub fn new(
        pre_index: bool,
        up: bool,
        write_back: bool,
        load: bool,
        signed: bool,
        halfword: bool,
        base_register_index: u32,
        offset: HalfwordDataOffset,
        source_register_index: u32,
    ) -> (instruction: Self)
        ensures
            instruction == (HalfwordDataTransferRegInstruction {
                pre_index,
                up,
                write_back,
                load,
                signed,
                halfword,
                base_register_index,
                offset,
                source_register_index,
            }),
    {
        Self {
            pre_index,
            up,
            write_back,
            load,
            signed,
            halfword,
            base_register_index,
            offset,
            source_register_index,
        }
    }

    pub fn decode(opcode: u32) -> (instruction: Self)
        ensures
            instruction == Self::decode_spec(opcode),
            instruction.wf(),
    {
        proof {
            lemma_field_bounds(opcode);
            lemma_split_offset(opcode);
        }
        let offset = if opcode & 0x0040_0000 != 0 {
            HalfwordDataOffset::Offset((((opcode >> 4) & 0xF0) | (opcode & 0xF)) as u8)
        } else {
            HalfwordDataOffset::Register(opcode & 0xF)
        };
        Self {
            pre_index: opcode & 0x0100_0000 != 0,
            up: opcode & 0x0080_0000 != 0,
            write_back: opcode & 0x0020_0000 != 0,
            load: opcode & 0x0010_0000 != 0,
            signed: opcode & 0x40 != 0,
            halfword: opcode & 0x20 != 0,
            base_register_index: (opcode >> 16) & 0xF,
            offset,
            source_register_index: (opcode >> 12) & 0xF,
        }
    }

    fn move_data(&self, address: u32, registers: &mut RegisterBank, bus: &mut Bus) -> (result:
        Result<usize, CoreError>)
        requires
            self.wf(),
            old(bus)@.wf(),
        ensures
            final(bus)@.wf(),
            *final(registers) == self.move_spec(address, *old(registers), old(bus)@).registers,
            final(bus)@ == self.move_spec(address, *old(registers), old(bus)@).bus,
            result == self.move_spec(address, *old(registers), old(bus)@).result,
    {
        if self.load {
            let data: u32 = if self.halfword {
                match bus.read_word(address) {
                    Ok(data) => if self.signed && data >= 0x8000 {
                        (data as u32) | 0xFFFF_0000
                    } else {
                        data as u32
                    },
                    Err(e) => { return Err(e); },
                }
            } else {
                match bus.read_byte(address) {
                    Ok(data) => if self.signed && data >= 0x80 {
                        (data as u32) | 0xFFFF_FF00
                    } else {
                        data as u32
                    },
                    Err(e) => { return Err(e); },
                }
            };
            registers.store_current(self.source_register_index as usize, data);
            Ok(1)
        } else {
            let value = registers.reg(self.source_register_index as usize);
            let written = if self.halfword {
                bus.write_word(address, value as u16)
            } else {
                bus.write_byte(address, value as u8)
            };
            match written {
                Ok(()) => Ok(1),
                Err(e) => Err(e),
            }
        }
    }
}

proof fn lemma_split_offset(opcode: u32)
    by (bit_vector)
    ensures
        ((opcode >> 4) & 0xF0) | (opcode & 0xF) < 256,
{
}

impl InstructionExecutor for HalfwordDataTransferRegInstruction {
    /// `ldr` or `str`, with `s` for a signed load, then `h` for a halfword
    /// or `b` for a byte.
    open spec fn mnemonic_spec(&self) -> Seq<char> {
        (if self.load {
            "ldr"@
        } else {
            "str"@
        }) + (if self.signed {
            "s"@
        } else {
            ""@
        }) + (if self.halfword {
            "h"@
        } else {
            "b"@
        })
    }

    /// The register, the base in brackets, and the offset.
    open spec fn description_spec(&self, registers: RegisterBank, bus: BusModel) -> Seq<char> {
        register_name_spec(self.source_register_index) + ", ["@ + register_name_spec(
            self.base_register_index,
        ) + "], "@ + match self.offset {
            HalfwordDataOffset::Offset(offset) => "#0x"@ + hex_spec(offset as u32),
            HalfwordDataOffset::Register(index) => register_name_spec(index),
        }
    }

    fn mnemonic(&self) -> (text: String) {
        let mut text = String::from_str(if self.load { "ldr" } else { "str" });
        text.append(if self.signed { "s" } else { "" });
        text.append(if self.halfword { "h" } else { "b" });
        text
    }

    fn description(&self, registers: &RegisterBank, bus: &mut Bus) -> (text: String) {
        let mut text = register_name(self.source_register_index);
        text.append(", [");
        text.append(register_name(self.base_register_index).as_str());
        text.append("], ");
        match self.offset {
            HalfwordDataOffset::Offset(offset) => {
                text.append("#0x");
                text.append(hex(offset as u32).as_str());
            },
            HalfwordDataOffset::Register(index) => {
                text.append(register_name(index).as_str());
            },
        }
        proof {
            assert(text@ =~= self.description_spec(*registers, bus@));
        }
        text
    }

    open spec fn wf(&self) -> bool {
        &&& self.base_register_index < 16
        &&& self.source_register_index < 16
        &&& match self.offset {
            HalfwordDataOffset::Offset(_) => true,
            HalfwordDataOffset::Register(index) => index < 16,
        }
    }

    /// The load or the store is made at the address of the transfer; then
    /// the base register takes the moved base where the instruction asks
    /// for it. A fault of the bus ends the instruction before that.
    open spec fn effect(&self, registers: RegisterBank, bus: BusModel) -> Outcome {
        let moved = self.move_spec(self.address_spec(registers), registers, bus);
        if moved.result is Err || !self.updates_base() {
            moved
        } else {
            Outcome {
                registers: moved.registers.store(
                    self.base_register_index as int,
                    moved.registers.cpsr.mode,
                    self.moved_base(registers),
                ),
                bus: moved.bus,
                result: moved.result,
            }
        }
    }

    fn execute(&self, registers: &mut RegisterBank, bus: &mut Bus) -> (result: Result<
        usize,
        CoreError,
    >) {
        let base = registers.reg(self.base_register_index as usize);
        let offset: u32 = match self.offset {
            HalfwordDataOffset::Offset(offset) => offset as u32,
            HalfwordDataOffset::Register(index) => registers.reg(index as usize),
        };
        let moved_base = if self.up {
            wrapping_add(base, offset)
        } else {
            wrapping_sub(base, offset)
        };
        let address = if self.pre_index {
            moved_base
        } else {
            base
        };
        let moved = self.move_data(address, registers, bus);
        if moved.is_err() {
            return moved;
        }
        if (self.write_back || !self.pre_index) && !(self.load && self.base_register_index
            == self.source_register_index) {
            registers.store_current(self.base_register_index as usize, moved_base);
        }
        moved
    }
}

} // verus!
