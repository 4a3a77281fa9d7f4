//! Transfers between registers and memory: one register, a block of
//! registers, a swap; and transfers between a register and a status
//! register.

use vstd::prelude::*;
use crate::bits::{bit, lemma_field_bounds, test_bit, wrapping_add, wrapping_add_spec, wrapping_sub,
    wrapping_sub_spec};
use vstd::string::StringExecFns;
use crate::bus::{Bus, BusModel};
use crate::disasm::{hex, hex_spec, operand_spec, operand_text, register_name, register_name_spec};
use crate::error::CoreError;
use crate::instruction::{InstructionExecutor, Operand, Outcome};
use crate::register::RegisterBank;
use crate::shift::Shift;
use crate::status::{CpuMode, ProgramStatusRegister};

verus! {

pub const SINGLE_TRANSFER_MASK: u32 = 0x0C00_0000;

pub const SINGLE_TRANSFER_FORMAT: u32 = 0x0400_0000;

pub const BLOCK_TRANSFER_MASK: u32 = 0x0E00_0000;

pub const BLOCK_TRANSFER_FORMAT: u32 = 0x0800_0000;

pub const PSR_TRANSFER_MRS_MASK: u32 = 0x0FBF_0000;

pub const PSR_TRANSFER_MRS_FORMAT: u32 = 0x010F_0000;

pub const PSR_TRANSFER_MSR_MASK: u32 = 0x0DB0_F000;

pub const PSR_TRANSFER_MSR_FORMAT: u32 = 0x0120_F000;

pub const SINGLE_DATA_SWAP_MASK: u32 = 0x0F80_0FF0;

pub const SINGLE_DATA_SWAP_FORMAT: u32 = 0x0100_0090;

/// A byte as a 32-bit word.
pub open spec fn widen(read: Result<u8, CoreError>) -> Result<u32, CoreError> {
    match read {
        Ok(byte) => Ok(byte as u32),
        Err(e) => Err(e),
    }
}

/// A load or store of one register, decoded.
#[derive(Copy, Clone, Debug, Eq, PartialEq, Structural)]
pub struct SingleDataTransferInstruction {
    /// The register that is loaded or stored.
    pub source_register_index: u32,
    pub base_register_index: u32,
    pub offset: Operand,
    pub load: bool,
    pub write_back: bool,
    pub byte_transfer: bool,
    pub up: bool,
    pub pre_index: bool,
    /// Clears bit 1 of the base before use, as a load relative to the
    /// program counter in Thumb asks.
    pub force_word_alignment: bool,
}

impl SingleDataTransferInstruction {
    /// The transfer that an encoding stands for. Bit 25 chooses a shifted
    /// register over a twelve-bit offset.
    pub open spec fn decode_spec(opcode: u32) -> SingleDataTransferInstruction {
        SingleDataTransferInstruction {
            offset: if opcode & 0x0200_0000 != 0 {
                Operand::RegisterShifted(Shift::decode_spec(opcode))
            } else {
                Operand::Immediate(opcode & 0xFFF, false)
            },
            source_register_index: (opcode >> 12) & 0xF,
            base_register_index: (opcode >> 16) & 0xF,
            load: opcode & 0x0010_0000 != 0,
            write_back: opcode & 0x0020_0000 != 0,
            byte_transfer: opcode & 0x0040_0000 != 0,
            up: opcode & 0x0080_0000 != 0,
            pre_index: opcode & 0x0100_0000 != 0,
            force_word_alignment: false,
        }
    }

    /// The base address: the base register, without bit 1 where word
    /// alignment is forced.
    pub open spec fn base_spec(self, registers: RegisterBank) -> u32 {
        let base = registers.get(self.base_register_index as int);
        if self.force_word_alignment {
            base & 0xFFFF_FFFD
        } else {
            base
        }
    }

    /// `address` moved up or down by the offset.
    pub open spec fn offset_address_spec(self, address: u32, registers: RegisterBank) -> u32 {
        let offset = self.offset.value_spec(registers).0;
        if self.up {
            wrapping_add_spec(address, offset)
        } else {
            wrapping_sub_spec(address, offset)
        }
    }

    /// The address of the transfer: the base moved by the offset when
    /// pre-indexed, the base itself when post-indexed.
    pub open spec fn address_spec(self, registers: RegisterBank) -> u32 {
        if self.pre_index {
            self.offset_address_spec(self.base_spec(registers), registers)
        } else {
            self.base_spec(registers)
        }
    }

    /// The bank of the transferred register: User's when a post-indexed
    /// transfer has the write-back bit set, else the current one.
    pub open spec fn transfer_mode(self, registers: RegisterBank) -> CpuMode {
        if !self.pre_index && self.write_back {
            CpuMode::User
        } else {
            registers.cpsr.mode
        }
    }

    /// Whether the base register is updated: always when post-indexed, on
    /// request when pre-indexed, and never by a load into the base itself.
    pub open spec fn updates_base(self) -> bool {
        (self.write_back || !self.pre_index) && !(self.load && self.base_register_index
            == self.source_register_index)
    }

    /// The value that the base register takes, computed from the registers
    /// as they were before the transfer.
    pub open spec fn new_base_spec(self, registers: RegisterBank) -> u32 {
        if self.pre_index {
            self.address_spec(registers)
        } else {
            self.offset_address_spec(self.address_spec(registers), registers)
        }
    }

    /// The registers with the base register updated where the instruction
    /// asks for it. `before` is the state at the start of the instruction.
    pub open spec fn write_back_spec(
        self,
        before: RegisterBank,
        registers: RegisterBank,
    ) -> RegisterBank {
        if self.updates_base() {
            registers.store(
                self.base_register_index as int,
                registers.cpsr.mode,
                self.new_base_spec(before),
            )
        } else {
            registers
        }
    }

    /// The value that a store writes: the register, which reads four bytes
    /// further on where it is the program counter.
    pub open spec fn stored_value(self, registers: RegisterBank) -> u32 {
        let value = registers.read(
            self.source_register_index as int,
            self.transfer_mode(registers),
        );
        if self.source_register_index == 15 {
            wrapping_add_spec(value, 4)
        } else {
            value
        }
    }

    pub fn new(
        source_register_index: u32,
        base_register_index: u32,
        offset: Operand,
        load: bool,
        write_back: bool,
        byte_transfer: bool,
        up: bool,
        pre_index: bool,
        force_word_alignment: bool,
    ) -> (instruction: Self)
        ensures
            instruction == (SingleDataTransferInstruction {
                source_register_index,
                base_register_index,
                offset,
                load,
                write_back,
                byte_transfer,
                up,
                pre_index,
                force_word_alignment,
            }),
    {
        Self {
            source_register_index,
            base_register_index,
            offset,
            load,
            write_back,
            byte_transfer,
            up,
            pre_index,
            force_word_alignment,
        }
    }

    pub fn decode(registers: &mut RegisterBank, opcode: u32) -> (instruction: Self)
        ensures
            *final(registers) == *old(registers),
            instruction == Self::decode_spec(opcode),
            instruction.wf(),
    {
        proof {
            lemma_field_bounds(opcode);
        }
        let offset = if opcode & 0x0200_0000 != 0 {
            Operand::RegisterShifted(Shift::from_opcode(opcode))
        } else {
            Operand::Immediate(opcode & 0xFFF, false)
        };
        Self {
            offset,
            source_register_index: (opcode >> 12) & 0xF,
            base_register_index: (opcode >> 16) & 0xF,
            load: opcode & 0x0010_0000 != 0,
            write_back: opcode & 0x0020_0000 != 0,
            byte_transfer: opcode & 0x0040_0000 != 0,
            up: opcode & 0x0080_0000 != 0,
            pre_index: opcode & 0x0100_0000 != 0,
            force_word_alignment: false,
        }
    }

    pub fn calculate_address(&self, registers: &RegisterBank) -> (address: u32)
        requires
            self.wf(),
        ensures
            address == self.address_spec(*registers),
    {
        let mut address = registers.reg(self.base_register_index as usize);
        if self.force_word_alignment {
            address = address & 0xFFFF_FFFD;
        }
        if self.pre_index {
            self.offset_address(address, registers)
        } else {
            address
        }
    }

    pub fn offset_address(&self, address: u32, registers: &RegisterBank) -> (moved: u32)
        requires
            self.wf(),
        ensures
            moved == self.offset_address_spec(address, *registers),
    {
        let (offset, _) = self.offset.value(registers);
        if self.up {
            address.wrapping_add(offset)
        } else {
            address.wrapping_sub(offset)
        }
    }
}

impl SingleDataTransferInstruction {
    /// For a load, the value that it would read, in brackets; nothing for a
    /// store.
    pub open spec fn address_hint_spec(self, registers: RegisterBank, bus: BusModel) -> Seq<char> {
        if self.load {
            let read = if self.byte_transfer {
                widen(bus.read_byte(self.address_spec(registers)))
            } else {
                bus.read_dword_rotated(self.address_spec(registers))
            };
            match read {
                Ok(data) => "(=$"@ + hex_spec(data) + ")"@,
                Err(_) => "(=???)"@,
            }
        } else {
            ""@
        }
    }

    fn address_hint(&self, registers: &RegisterBank, bus: &mut Bus) -> (text: String)
        requires
            self.wf(),
            old(bus)@.wf(),
        ensures
            final(bus)@ == old(bus)@,
            text@ == self.address_hint_spec(*registers, old(bus)@),
    {
        if !self.load {
            return String::from_str("");
        }
        let address = self.calculate_address(registers);
        let read = if self.byte_transfer {
            match bus.read_byte(address) {
                Ok(byte) => Ok(byte as u32),
                Err(e) => Err(e),
            }
        } else {
            bus.read_dword_rotated(address)
        };
        match read {
            Ok(data) => {
                let mut text = String::from_str("(=$");
                text.append(hex(data).as_str());
                text.append(")");
                text
            },
            Err(_) => String::from_str("(=???)"),
        }
    }

    /// What a load at `address` does: a byte, or a word that is rotated
    /// where the address is not aligned, goes into the register as seen
    /// under `mode`. A fault of the bus leaves the registers as they were.
    pub open spec fn load_spec(
        self,
        address: u32,
        mode: CpuMode,
        registers: RegisterBank,
        bus: BusModel,
    ) -> Outcome {
        let read = if self.byte_transfer {
            widen(bus.read_byte(address))
        } else {
            bus.read_dword_rotated(address)
        };
        match read {
            Err(e) => Outcome { registers, bus, result: Err(e) },
            Ok(data) => Outcome {
                registers: registers.store(self.source_register_index as int, mode, data),
                bus,
                result: Ok(1),
            },
        }
    }

    /// What a store at `address` does: the register's low byte, or all of
    /// it, goes to memory.
    pub open spec fn store_spec(
        self,
        address: u32,
        registers: RegisterBank,
        bus: BusModel,
    ) -> Outcome {
        let value = self.stored_value(registers);
        let (after, written) = if self.byte_transfer {
            bus.write_byte(address, value as u8)
        } else {
            bus.write_dword(address, value)
        };
        match written {
            Err(e) => Outcome { registers, bus: after, result: Err(e) },
            Ok(_) => Outcome { registers, bus: after, result: Ok(1) },
        }
    }

    fn load_register(
        &self,
        address: u32,
        mode: CpuMode,
        registers: &mut RegisterBank,
        bus: &mut Bus,
    ) -> (result: Result<usize, CoreError>)
        requires
            self.wf(),
            old(bus)@.wf(),
        ensures
            final(bus)@.wf(),
            *final(registers) == self.load_spec(address, mode, *old(registers), old(bus)@).registers,
            final(bus)@ == self.load_spec(address, mode, *old(registers), old(bus)@).bus,
            result == self.load_spec(address, mode, *old(registers), old(bus)@).result,
    {
        let data: u32 = if self.byte_transfer {
            match bus.read_byte(address) {
                Ok(byte) => byte as u32,
                Err(e) => { return Err(e); },
            }
        } else {
            match bus.read_dword_rotated(address) {
                Ok(word) => word,
                Err(e) => { return Err(e); },
            }
        };
        registers.store_with_mode(self.source_register_index as usize, mode, data);
        Ok(1)
    }

    fn store_register(&self, address: u32, registers: &RegisterBank, bus: &mut Bus) -> (result:
        Result<usize, CoreError>)
        requires
            self.wf(),
            old(bus)@.wf(),
        ensures
            final(bus)@.wf(),
            final(bus)@ == self.store_spec(address, *registers, old(bus)@).bus,
            result == self.store_spec(address, *registers, old(bus)@).result,
    {
        let mode = if !self.pre_index && self.write_back {
            CpuMode::User
        } else {
            registers.cpsr.mode
        };
        let mut value = registers.reg_with_mode(self.source_register_index as usize, mode);
        if self.source_register_index == 15 {
            value = value.wrapping_add(4);
        }
        let written = if self.byte_transfer {
            bus.write_byte(address, value as u8)
        } else {
            bus.write_dword(address, value)
        };
        match written {
            Ok(()) => Ok(1),
            Err(e) => Err(e),
        }
    }
}

impl InstructionExecutor for SingleDataTransferInstruction {
    /// `ldr` or `str`, with `b` for a byte and `t` where the write-back bit
    /// is set.
    open spec fn mnemonic_spec(&self) -> Seq<char> {
        (if self.load {
            "ldr"@
        } else {
            "str"@
        }) + (if self.byte_transfer {
            "b"@
        } else {
            ""@
        }) + (if self.write_back {
            "t"@
        } else {
            ""@
        })
    }

    /// The register, the base in brackets, the offset, and for a load the
    /// value that it would read, or `???` where the read would fault.
    open spec fn description_spec(&self, registers: RegisterBank, bus: BusModel) -> Seq<char> {
        register_name_spec(self.source_register_index) + ", ["@ + register_name_spec(
            self.base_register_index,
        ) + "], "@ + operand_spec(self.offset) + " "@ + self.address_hint_spec(registers, bus)
    }

    fn mnemonic(&self) -> (text: String) {
        let mut text = String::from_str(if self.load { "ldr" } else { "str" });
        text.append(if self.byte_transfer { "b" } else { "" });
        text.append(if self.write_back { "t" } else { "" });
        text
    }

    fn description(&self, registers: &RegisterBank, bus: &mut Bus) -> (text: String) {
        let hint = self.address_hint(registers, bus);
        let mut text = register_name(self.source_register_index);
        text.append(", [");
        text.append(register_name(self.base_register_index).as_str());
        text.append("], ");
        text.append(operand_text(&self.offset).as_str());
        text.append(" ");
        text.append(hint.as_str());
        text
    }

    open spec fn wf(&self) -> bool {
        &&& self.source_register_index < 16
        &&& self.base_register_index < 16
        &&& self.offset.wf()
    }

    /// The load or the store is made at the address of the transfer; then
    /// the base register is updated where the instruction asks for it. A
    /// fault of the bus ends the instruction before the base is updated.
    open spec fn effect(&self, registers: RegisterBank, bus: BusModel) -> Outcome {
        let address = self.address_spec(registers);
        let moved = if self.load {
            self.load_spec(address, self.transfer_mode(registers), registers, bus)
        } else {
            self.store_spec(address, registers, bus)
        };
        if moved.result is Err {
            moved
        } else {
            Outcome {
                registers: self.write_back_spec(registers, moved.registers),
                bus: moved.bus,
                result: moved.result,
            }
        }
    }

    fn execute(&self, registers: &mut RegisterBank, bus: &mut Bus) -> (result: Result<
        usize,
        CoreError,
    >) {
        let address = self.calculate_address(registers);
        let new_base = if self.pre_index {
            address
        } else {
            self.offset_address(address, registers)
        };
        let mode = if !self.pre_index && self.write_back {
            CpuMode::User
        } else {
            registers.cpsr.mode
        };
        let moved = if self.load {
            self.load_register(address, mode, registers, bus)
        } else {
            self.store_register(address, registers, bus)
        };
        if moved.is_err() {
            return moved;
        }
        if (self.write_back || !self.pre_index) && !(self.load && self.base_register_index
            == self.source_register_index) {
            registers.store_current(self.base_register_index as usize, new_base);
        }
        moved
    }
}

/// How many of the bits 0 to `upto - 1` of a register list are set.
pub open spec fn count_listed(list: u32, upto: int) -> nat
    decreases upto,
{
    if upto <= 0 {
        0
    } else {
        count_listed(list, upto - 1) + if bit(list, (upto - 1) as u32) {
            1nat
        } else {
            0nat
        }
    }
}

/// Four times a count, modulo 2^32.
pub open spec fn words(count: u32) -> u32 {
    ((4 * count) % 0x1_0000_0000) as u32
}

/// The names of the registers among the first `upto` that a list holds,
/// in ascending order with `, ` between them.
pub open spec fn list_spec(list: u32, upto: int) -> Seq<char>
    decreases upto,
{
    if upto <= 0 {
        Seq::empty()
    } else if bit(list, (upto - 1) as u32) {
        list_spec(list, upto - 1) + (if count_listed(list, upto - 1) > 0 {
            ", "@
        } else {
            ""@
        }) + register_name_spec((upto - 1) as u32)
    } else {
        list_spec(list, upto - 1)
    }
}

fn list_text(list: u32) -> (text: String)
    ensures
        text@ == list_spec(list, 16),
{
    let mut text = String::new();
    let mut first = true;
    let mut i: u32 = 0;
    while i < 16
        invariant
            i <= 16,
            text@ == list_spec(list, i as int),
            first == (count_listed(list, i as int) == 0),
        decreases 16 - i,
    {
        if test_bit(list, i) {
            text.append(if first { "" } else { ", " });
            first = false;
            text.append(register_name(i).as_str());
        }
        i += 1;
    }
    text
}

fn size_of_block(count: u32) -> (size: u32)
    ensures
        size == words(count),
{
    ((count as u64 * 4) % 0x1_0000_0000) as u32
}

/// A load or store of a list of registers, decoded.
#[derive(Copy, Clone, Debug, Eq, PartialEq, Structural)]
pub struct BlockDataTransferInstruction {
    pub base_register_index: u32,
    /// Bit `i` is set where register `i` is transferred.
    pub registers: u16,
    pub load: bool,
    pub write_back: bool,
    pub increment: bool,
    pub pre_index: bool,
    pub psr_and_force_user: bool,
    pub number_of_registers: u32,
}

impl BlockDataTransferInstruction {
    /// The transfer that an encoding stands for.
    pub open spec fn decode_spec(opcode: u32) -> BlockDataTransferInstruction {
        BlockDataTransferInstruction {
            base_register_index: (opcode >> 16) & 0xF,
            registers: (opcode & 0xFFFF) as u16,
            number_of_registers: count_listed(opcode & 0xFFFF, 16) as u32,
            load: opcode & 0x0010_0000 != 0,
            write_back: opcode & 0x0020_0000 != 0,
            increment: opcode & 0x0080_0000 != 0,
            pre_index: opcode & 0x0100_0000 != 0,
            psr_and_force_user: opcode & 0x0040_0000 != 0,
        }
    }

    /// The address of the lowest slot: the base when incrementing after,
    /// one word above it when incrementing before, and as many words below
    /// the base as there are registers when decrementing, less one word
    /// when decrementing after.
    pub open spec fn lowest_address(self, base: u32) -> u32 {
        if self.increment {
            if self.pre_index {
                wrapping_add_spec(base, 4)
            } else {
                base
            }
        } else {
            if self.pre_index {
                wrapping_sub_spec(base, words(self.number_of_registers))
            } else {
                wrapping_add_spec(wrapping_sub_spec(base, words(self.number_of_registers)), 4)
            }
        }
    }

    /// The address that write-back leaves in the base register: the base
    /// moved up by the size of the block when incrementing, the lowest slot
    /// when decrementing.
    pub open spec fn final_address(self, base: u32) -> u32 {
        if self.increment {
            wrapping_add_spec(base, words(self.number_of_registers))
        } else {
            self.lowest_address(base)
        }
    }

    /// The bank that the listed registers are taken from: User's where the S
    /// bit is set, unless the instruction loads the program counter.
    pub open spec fn bank(self, registers: RegisterBank) -> CpuMode {
        if (!bit(self.registers as u32, 15) || !self.load) && self.psr_and_force_user {
            CpuMode::User
        } else {
            registers.cpsr.mode
        }
    }

    /// The base register updated where write-back is asked for.
    pub open spec fn write_back_spec(self, new_base: u32, registers: RegisterBank) -> RegisterBank {
        if self.write_back {
            registers.store(self.base_register_index as int, registers.cpsr.mode, new_base)
        } else {
            registers
        }
    }

    /// The transfer of register `index` at `slot`. A load fills the register
    /// and, where it is the program counter and the S bit is set, restores
    /// the status from the saved one; a store writes the register to memory.
    /// Either is followed by the write-back. A fault of the bus ends the
    /// transfer with the registers as they were.
    #[verifier::opaque]
    pub open spec fn transfer_one(
        self,
        index: int,
        slot: u32,
        bank: CpuMode,
        new_base: u32,
        registers: RegisterBank,
        bus: BusModel,
    ) -> Outcome {
        if self.load {
            match bus.read_dword(slot) {
                Err(e) => Outcome { registers, bus, result: Err(e) },
                Ok(data) => {
                    let loaded = registers.store(index, bank, data);
                    let restored = if index == 15 && self.psr_and_force_user {
                        loaded.with_cpsr(loaded.saved_status(loaded.cpsr.mode))
                    } else {
                        loaded
                    };
                    Outcome {
                        registers: self.write_back_spec(new_base, restored),
                        bus,
                        result: Ok(1),
                    }
                },
            }
        } else {
            let (after, written) = bus.write_dword(slot, registers.read(index, bank));
            match written {
                Err(e) => Outcome { registers, bus: after, result: Err(e) },
                Ok(_) => Outcome {
                    registers: self.write_back_spec(new_base, registers),
                    bus: after,
                    result: Ok(1),
                },
            }
        }
    }

    /// The transfers of the listed registers from `index` up, in ascending
    /// order to ascending addresses, the first of them at `slot`. The first
    /// fault ends the instruction.
    pub open spec fn transfer_from(
        self,
        index: int,
        slot: u32,
        bank: CpuMode,
        new_base: u32,
        registers: RegisterBank,
        bus: BusModel,
    ) -> Outcome
        decreases 16 - index,
    {
        if index < 0 || index >= 16 {
            Outcome { registers, bus, result: Ok(1) }
        } else if bit(self.registers as u32, index as u32) {
            let one = self.transfer_one(index, slot, bank, new_base, registers, bus);
            if one.result is Err {
                one
            } else {
                self.transfer_from(
                    index + 1,
                    wrapping_add_spec(slot, 4),
                    bank,
                    new_base,
                    one.registers,
                    one.bus,
                )
            }
        } else {
            self.transfer_from(index + 1, slot, bank, new_base, registers, bus)
        }
    }

    pub fn new(
        base_register_index: u32,
        registers: u16,
        load: bool,
        write_back: bool,
        increment: bool,
        pre_index: bool,
        psr_and_force_user: bool,
        number_of_registers: u32,
    ) -> (instruction: Self)
        ensures
            instruction == (BlockDataTransferInstruction {
                base_register_index,
                registers,
                load,
                write_back,
                increment,
                pre_index,
                psr_and_force_user,
                number_of_registers,
            }),
    {
        Self {
            base_register_index,
            registers,
            load,
            write_back,
            increment,
            pre_index,
            psr_and_force_user,
            number_of_registers,
        }
    }

    pub fn decode(registers: &mut RegisterBank, opcode: u32) -> (instruction: Self)
        ensures
            *final(registers) == *old(registers),
            instruction == Self::decode_spec(opcode),
            instruction.wf(),
            instruction.number_of_registers <= 16,
    {
        proof {
            lemma_field_bounds(opcode);
        }
        let list: u32 = opcode & 0xFFFF;
        let mut number_of_registers: u32 = 0;
        let mut i: u32 = 0;
        while i < 16
            invariant
                i <= 16,
                number_of_registers == count_listed(list, i as int),
                number_of_registers <= i,
            decreases 16 - i,
        {
            if test_bit(list, i) {
                number_of_registers += 1;
            }
            i += 1;
        }
        Self {
            base_register_index: (opcode >> 16) & 0xF,
            registers: list as u16,
            number_of_registers,
            load: opcode & 0x0010_0000 != 0,
            write_back: opcode & 0x0020_0000 != 0,
            increment: opcode & 0x0080_0000 != 0,
            pre_index: opcode & 0x0100_0000 != 0,
            psr_and_force_user: opcode & 0x0040_0000 != 0,
        }
    }

    fn transfer_register(
        &self,
        index: u32,
        slot: u32,
        bank: CpuMode,
        new_base: u32,
        registers: &mut RegisterBank,
        bus: &mut Bus,
    ) -> (result: Result<usize, CoreError>)
        requires
            self.wf(),
            index < 16,
            old(bus)@.wf(),
        ensures
            final(bus)@.wf(),
            *final(registers) == self.transfer_one(
                index as int,
                slot,
                bank,
                new_base,
                *old(registers),
                old(bus)@,
            ).registers,
            final(bus)@ == self.transfer_one(
                index as int,
                slot,
                bank,
                new_base,
                *old(registers),
                old(bus)@,
            ).bus,
            result == self.transfer_one(
                index as int,
                slot,
                bank,
                new_base,
                *old(registers),
                old(bus)@,
            ).result,
    {
        reveal(BlockDataTransferInstruction::transfer_one);
        if self.load {
            let data = match bus.read_dword(slot) {
                Ok(data) => data,
                Err(e) => { return Err(e); },
            };
            registers.store_with_mode(index as usize, bank, data);
            if index == 15 && self.psr_and_force_user {
                registers.cpsr = registers.spsr();
            }
        } else {
            match bus.write_dword(slot, registers.reg_with_mode(index as usize, bank)) {
                Ok(()) => {},
                Err(e) => { return Err(e); },
            }
        }
        if self.write_back {
            registers.store_current(self.base_register_index as usize, new_base);
        }
        Ok(1)
    }
}

impl BlockDataTransferInstruction {
    fn transfer_all(
        &self,
        lowest: u32,
        bank: CpuMode,
        new_base: u32,
        registers: &mut RegisterBank,
        bus: &mut Bus,
    ) -> (result: Result<usize, CoreError>)
        requires
            self.wf(),
            old(bus)@.wf(),
        ensures
            final(bus)@.wf(),
            *final(registers) == self.transfer_from(
                0,
                lowest,
                bank,
                new_base,
                *old(registers),
                old(bus)@,
            ).registers,
            final(bus)@ == self.transfer_from(
                0,
                lowest,
                bank,
                new_base,
                *old(registers),
                old(bus)@,
            ).bus,
            result == self.transfer_from(
                0,
                lowest,
                bank,
                new_base,
                *old(registers),
                old(bus)@,
            ).result,
    {
        let list: u32 = self.registers as u32;
        let ghost goal = self.transfer_from(0, lowest, bank, new_base, *old(registers), old(bus)@);
        let mut slot: u32 = lowest;
        let mut i: u32 = 0;
        while i < 16
            invariant
                i <= 16,
                self.wf(),
                bus@.wf(),
                list == self.registers as u32,
                goal == self.transfer_from(0, lowest, bank, new_base, *old(registers), old(bus)@),
                goal == self.transfer_from(i as int, slot, bank, new_base, *registers, bus@),
            decreases 16 - i,
        {
            if test_bit(list, i) {
                let one = self.transfer_register(i, slot, bank, new_base, registers, bus);
                if one.is_err() {
                    return one;
                }
                slot = wrapping_add(slot, 4);
            }
            i += 1;
        }
        Ok(1)
    }
}

impl InstructionExecutor for BlockDataTransferInstruction {
    /// `ldm` or `stm`, then `i` or `d` for the direction and `b` or `a`
    /// for before or after.
    open spec fn mnemonic_spec(&self) -> Seq<char> {
        (if self.load {
            "ldm"@
        } else {
            "stm"@
        }) + (if self.increment {
            "i"@
        } else {
            "d"@
        }) + (if self.pre_index {
            "b"@
        } else {
            "a"@
        })
    }

    /// The base, with `!` for write-back, the listed registers in braces,
    /// and `^` where the S bit is set.
    open spec fn description_spec(&self, registers: RegisterBank, bus: BusModel) -> Seq<char> {
        register_name_spec(self.base_register_index) + (if self.write_back {
            "!"@
        } else {
            ""@
        }) + ", {"@ + list_spec(self.registers as u32, 16) + "}"@ + (if self.psr_and_force_user {
            "^"@
        } else {
            ""@
        })
    }

    fn mnemonic(&self) -> (text: String) {
        let mut text = String::from_str(if self.load { "ldm" } else { "stm" });
        text.append(if self.increment { "i" } else { "d" });
        text.append(if self.pre_index { "b" } else { "a" });
        text
    }

    fn description(&self, registers: &RegisterBank, bus: &mut Bus) -> (text: String) {
        let mut text = register_name(self.base_register_index);
        text.append(if self.write_back { "!" } else { "" });
        text.append(", {");
        text.append(list_text(self.registers as u32).as_str());
        text.append("}");
        text.append(if self.psr_and_force_user { "^" } else { "" });
        text
    }

    open spec fn wf(&self) -> bool {
        self.base_register_index < 16
    }

    /// The listed registers are transferred in ascending order, the lowest
    /// to the lowest slot. Where write-back is asked for, the base register
    /// takes its new value as soon as the first register has been
    /// transferred: a store of the base register writes its old value if
    /// it is the first in the list, the new one otherwise.
    open spec fn effect(&self, registers: RegisterBank, bus: BusModel) -> Outcome {
        let base = registers.get(self.base_register_index as int);
        self.transfer_from(
            0,
            self.lowest_address(base),
            self.bank(registers),
            self.final_address(base),
            registers,
            bus,
        )
    }

    fn execute(&self, registers: &mut RegisterBank, bus: &mut Bus) -> (result: Result<
        usize,
        CoreError,
    >) {
        let base = registers.reg(self.base_register_index as usize);
        let size: u32 = size_of_block(self.number_of_registers);
        let lowest: u32 = if self.increment {
            if self.pre_index {
                wrapping_add(base, 4)
            } else {
                base
            }
        } else {
            if self.pre_index {
                wrapping_sub(base, size)
            } else {
                wrapping_add(wrapping_sub(base, size), 4)
            }
        };
        let new_base: u32 = if self.increment {
            wrapping_add(base, size)
        } else {
            lowest
        };
        let bank = if (!test_bit(self.registers as u32, 15) || !self.load)
            && self.psr_and_force_user {
            CpuMode::User
        } else {
            registers.cpsr.mode
        };
        self.transfer_all(lowest, bank, new_base, registers, bus)
    }
}

/// A move of a status register to a register, decoded.
#[derive(Copy, Clone, Debug, Eq, PartialEq, Structural)]
pub struct PsrTransferMrsInstruction {
    pub destination_register_index: u32,
    pub use_spsr: bool,
}

impl PsrTransferMrsInstruction {
    pub open spec fn decode_spec(opcode: u32) -> PsrTransferMrsInstruction {
        PsrTransferMrsInstruction {
            destination_register_index: (opcode >> 12) & 0xF,
            use_spsr: opcode & 0x0040_0000 != 0,
        }
    }

    /// The registers after the transfer: the destination holds the packed
    /// form of the current status, or of the current mode's saved status.
    pub open spec fn apply_spec(self, registers: RegisterBank) -> RegisterBank {
        let status = if self.use_spsr {
            registers.saved_status(registers.cpsr.mode)
        } else {
            registers.cpsr
        };
        registers.store(self.destination_register_index as int, registers.cpsr.mode, status.pack())
    }

    pub fn decode(opcode: u32) -> (instruction: Self)
        ensures
            instruction == Self::decode_spec(opcode),
            instruction.wf(),
    {
        proof {
            lemma_field_bounds(opcode);
        }
        Self {
            destination_register_index: (opcode >> 12) & 0xF,
            use_spsr: opcode & 0x0040_0000 != 0,
        }
    }
}

impl InstructionExecutor for PsrTransferMrsInstruction {
    open spec fn mnemonic_spec(&self) -> Seq<char> {
        "mrs"@
    }

    /// The destination and the status register that is read.
    open spec fn description_spec(&self, registers: RegisterBank, bus: BusModel) -> Seq<char> {
        register_name_spec(self.destination_register_index) + ", "@ + if self.use_spsr {
            "spsr"@
        } else {
            "cpsr"@
        }
    }

    fn mnemonic(&self) -> (text: String) {
        String::from_str("mrs")
    }

    fn description(&self, registers: &RegisterBank, bus: &mut Bus) -> (text: String) {
        let mut text = register_name(self.destination_register_index);
        text.append(", ");
        text.append(if self.use_spsr { "spsr" } else { "cpsr" });
        text
    }

    open spec fn wf(&self) -> bool {
        self.destination_register_index < 16
    }

    open spec fn effect(&self, registers: RegisterBank, bus: BusModel) -> Outcome {
        Outcome { registers: self.apply_spec(registers), bus, result: Ok(1) }
    }

    fn execute(&self, registers: &mut RegisterBank, bus: &mut Bus) -> (result: Result<
        usize,
        CoreError,
    >) {
        let psr = if self.use_spsr {
            registers.spsr().to_u32()
        } else {
            registers.cpsr.to_u32()
        };
        registers.store_current(self.destination_register_index as usize, psr);
        Ok(1)
    }
}

/// A move of an operand to a status register, decoded.
#[derive(Copy, Clone, Debug, Eq, PartialEq, Structural)]
pub struct PsrTransferMsrInstruction {
    pub operand: Operand,
    pub use_spsr: bool,
    /// Write the flags N, Z, C, V and Q.
    pub write_flags: bool,
    /// Write the interrupt masks, the instruction set and the mode.
    pub write_control: bool,
}

impl PsrTransferMsrInstruction {
    /// The transfer that an encoding stands for. Bit 25 chooses the low
    /// twelve bits as they are over a shifted register.
    pub open spec fn decode_spec(opcode: u32) -> PsrTransferMsrInstruction {
        PsrTransferMsrInstruction {
            operand: if opcode & 0x0200_0000 != 0 {
                Operand::Immediate(opcode & 0xFFF, false)
            } else {
                Operand::RegisterShifted(Shift::decode_spec(opcode))
            },
            use_spsr: opcode & 0x0040_0000 != 0,
            write_flags: opcode & 0x0008_0000 != 0,
            write_control: opcode & 0x0001_0000 != 0,
        }
    }

    /// `target` with the fields that the instruction writes taken from
    /// `source`.
    pub open spec fn merge(
        self,
        target: ProgramStatusRegister,
        source: ProgramStatusRegister,
    ) -> ProgramStatusRegister {
        let flagged = if self.write_flags {
            ProgramStatusRegister {
                signed: source.signed,
                zero: source.zero,
                carry: source.carry,
                overflow: source.overflow,
                sticky_overflow: source.sticky_overflow,
                ..target
            }
        } else {
            target
        };
        if self.write_control {
            ProgramStatusRegister {
                irq_disable: source.irq_disable,
                fiq_disable: source.fiq_disable,
                instruction_mode: source.instruction_mode,
                mode: source.mode,
                ..flagged
            }
        } else {
            flagged
        }
    }

    /// The registers after the transfer. A write to the saved status
    /// changes nothing else. A write to the current status that changes the
    /// mode asks the pipeline to flush; a change of the instruction set
    /// alone does not.
    pub open spec fn apply_spec(self, registers: RegisterBank) -> RegisterBank {
        let source = ProgramStatusRegister::unpack(self.operand.value_spec(registers).0);
        if self.use_spsr {
            registers.with_saved_status(
                registers.cpsr.mode,
                self.merge(registers.saved_status(registers.cpsr.mode), source),
            )
        } else {
            let status = self.merge(registers.cpsr, source);
            if status.mode != registers.cpsr.mode {
                registers.with_cpsr(status).with_flush(true)
            } else {
                registers.with_cpsr(status)
            }
        }
    }

    pub fn decode(registers: &mut RegisterBank, opcode: u32) -> (instruction: Self)
        ensures
            *final(registers) == *old(registers),
            instruction == Self::decode_spec(opcode),
            instruction.wf(),
    {
        let operand = if opcode & 0x0200_0000 != 0 {
            Operand::Immediate(opcode & 0xFFF, false)
        } else {
            Operand::RegisterShifted(Shift::from_opcode(opcode))
        };
        Self {
            operand,
            use_spsr: opcode & 0x0040_0000 != 0,
            write_flags: opcode & 0x0008_0000 != 0,
            write_control: opcode & 0x0001_0000 != 0,
        }
    }

    fn merged(&self, target: ProgramStatusRegister, source: ProgramStatusRegister) -> (status:
        ProgramStatusRegister)
        ensures
            status == self.merge(target, source),
    {
        let mut status = target;
        if self.write_flags {
            status.signed = source.signed;
            status.zero = source.zero;
            status.carry = source.carry;
            status.overflow = source.overflow;
            status.sticky_overflow = source.sticky_overflow;
        }
        if self.write_control {
            status.irq_disable = source.irq_disable;
            status.fiq_disable = source.fiq_disable;
            status.instruction_mode = source.instruction_mode;
            status.mode = source.mode;
        }
        status
    }
}

impl InstructionExecutor for PsrTransferMsrInstruction {
    open spec fn mnemonic_spec(&self) -> Seq<char> {
        "msr"@
    }

    /// The status register with the fields that are written, `f` for the
    /// flags and `c` for the control bits, and the operand.
    open spec fn description_spec(&self, registers: RegisterBank, bus: BusModel) -> Seq<char> {
        (if self.use_spsr {
            "spsr"@
        } else {
            "cpsr"@
        }) + "_"@ + (if self.write_flags {
            "f"@
        } else {
            ""@
        }) + (if self.write_control {
            "c"@
        } else {
            ""@
        }) + ", "@ + operand_spec(self.operand)
    }

    fn mnemonic(&self) -> (text: String) {
        String::from_str("msr")
    }

    fn description(&self, registers: &RegisterBank, bus: &mut Bus) -> (text: String) {
        let mut text = String::from_str(if self.use_spsr { "spsr" } else { "cpsr" });
        text.append("_");
        text.append(if self.write_flags { "f" } else { "" });
        text.append(if self.write_control { "c" } else { "" });
        text.append(", ");
        text.append(operand_text(&self.operand).as_str());
        text
    }

    open spec fn wf(&self) -> bool {
        self.operand.wf()
    }

    open spec fn effect(&self, registers: RegisterBank, bus: BusModel) -> Outcome {
        Outcome { registers: self.apply_spec(registers), bus, result: Ok(1) }
    }

    fn execute(&self, registers: &mut RegisterBank, bus: &mut Bus) -> (result: Result<
        usize,
        CoreError,
    >) {
        let (operand, _) = self.operand.value(registers);
        let source = ProgramStatusRegister::from_u32(operand);
        if self.use_spsr {
            let status = self.merged(registers.spsr(), source);
            *registers.spsr_mut() = status;
        } else {
            let status = self.merged(registers.cpsr, source);
            if status.mode != registers.cpsr.mode {
                registers.pipeline_flush = true;
            }
            registers.cpsr = status;
        }
        Ok(1)
    }
}

/// A swap of a register with memory, decoded.
#[derive(Copy, Clone, Debug, Eq, PartialEq, Structural)]
pub struct SingleDataSwapInstruction {
    pub source_register_index: u32,
    pub destination_register_index: u32,
    pub base_register_index: u32,
    pub byte_transfer: bool,
}

impl SingleDataSwapInstruction {
    pub open spec fn decode_spec(opcode: u32) -> SingleDataSwapInstruction {
        SingleDataSwapInstruction {
            source_register_index: opcode & 0xF,
            destination_register_index: (opcode >> 12) & 0xF,
            base_register_index: (opcode >> 16) & 0xF,
            byte_transfer: opcode & 0x0040_0000 != 0,
        }
    }

    pub fn decode(opcode: u32) -> (instruction: Self)
        ensures
            instruction == Self::decode_spec(opcode),
            instruction.wf(),
    {
        proof {
            lemma_field_bounds(opcode);
        }
        Self {
            source_register_index: opcode & 0xF,
            destination_register_index: (opcode >> 12) & 0xF,
            base_register_index: (opcode >> 16) & 0xF,
            byte_transfer: opcode & 0x0040_0000 != 0,
        }
    }
}

impl InstructionExecutor for SingleDataSwapInstruction {
    open spec fn mnemonic_spec(&self) -> Seq<char> {
        "swp"@ + if self.byte_transfer {
            "b"@
        } else {
            ""@
        }
    }

    /// The destination, the source, and the base in brackets.
    open spec fn description_spec(&self, registers: RegisterBank, bus: BusModel) -> Seq<char> {
        register_name_spec(self.destination_register_index) + ", "@ + register_name_spec(
            self.source_register_index,
        ) + ", ["@ + register_name_spec(self.base_register_index) + "]"@
    }

    fn mnemonic(&self) -> (text: String) {
        let mut text = String::from_str("swp");
        text.append(if self.byte_transfer { "b" } else { "" });
        text
    }

    fn description(&self, registers: &RegisterBank, bus: &mut Bus) -> (text: String) {
        let mut text = register_name(self.destination_register_index);
        text.append(", ");
        text.append(register_name(self.source_register_index).as_str());
        text.append(", [");
        text.append(register_name(self.base_register_index).as_str());
        text.append("]");
        text
    }

    open spec fn wf(&self) -> bool {
        &&& self.source_register_index < 16
        &&& self.destination_register_index < 16
        &&& self.base_register_index < 16
    }

    /// Memory at the base register is read, then the source register is
    /// written there, then the destination takes what was read. The byte
    /// form moves the low byte only. A fault of the read leaves everything
    /// as it was; a fault of the write leaves the registers as they were.
    open spec fn effect(&self, registers: RegisterBank, bus: BusModel) -> Outcome {
        let address = registers.get(self.base_register_index as int);
        let read = if self.byte_transfer {
            widen(bus.read_byte(address))
        } else {
            bus.read_dword(address)
        };
        match read {
            Err(e) => Outcome { registers, bus, result: Err(e) },
            Ok(data) => {
                let value = registers.get(self.source_register_index as int);
                let (after, written) = if self.byte_transfer {
                    bus.write_byte(address, value as u8)
                } else {
                    bus.write_dword(address, value)
                };
                match written {
                    Err(e) => Outcome { registers, bus: after, result: Err(e) },
                    Ok(_) => Outcome {
                        registers: registers.store(
                            self.destination_register_index as int,
                            registers.cpsr.mode,
                            data,
                        ),
                        bus: after,
                        result: Ok(1),
                    },
                }
            },
        }
    }

    fn execute(&self, registers: &mut RegisterBank, bus: &mut Bus) -> (result: Result<
        usize,
        CoreError,
    >) {
        let address = registers.reg(self.base_register_index as usize);
        let data: u32 = if self.byte_transfer {
            match bus.read_byte(address) {
                Ok(byte) => byte as u32,
                Err(e) => { return Err(e); },
            }
        } else {
            match bus.read_dword(address) {
                Ok(word) => word,
                Err(e) => { return Err(e); },
            }
        };
        let source_register = registers.reg(self.source_register_index as usize);
        let written = if self.byte_transfer {
            bus.write_byte(address, source_register as u8)
        } else {
            bus.write_dword(address, source_register)
        };
        match written {
            Ok(()) => {},
            Err(e) => { return Err(e); },
        }
        registers.store_current(self.destination_register_index as usize, data);
        Ok(1)
    }
}

} // verus!
