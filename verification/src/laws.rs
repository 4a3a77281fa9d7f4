//! What holds of every instruction and of every tick.

use vstd::prelude::*;
use crate::arm::arithmetic::DataProcessingInstruction;
use crate::arm::branch::BranchInstruction;
use crate::arm::halfword::HalfwordDataTransferRegInstruction;
use crate::arm::transfer::{BlockDataTransferInstruction, SingleDataSwapInstruction,
    SingleDataTransferInstruction};
use crate::thumb::branch::LongBranchWithLinkInstruction;
use crate::bus::BusModel;
use crate::error::CoreError;
use crate::instruction::{Instruction, InstructionExecutor};
use crate::bits::{bit, wrapping_add_spec};
use crate::interpreter::{condition_holds, decode_arm_spec, decode_thumb_spec, Interpreter};
use crate::register::RegisterBank;
use crate::status::CpuMode;

verus! {

proof fn lemma_block_cycles(
    block: BlockDataTransferInstruction,
    index: int,
    slot: u32,
    bank: CpuMode,
    new_base: u32,
    registers: RegisterBank,
    bus: BusModel,
)
    requires
        0 <= index,
    ensures
        block.transfer_from(index, slot, bank, new_base, registers, bus).result is Ok
            ==> block.transfer_from(index, slot, bank, new_base, registers, bus).result
            == Ok::<usize, CoreError>(1),
    decreases 16 - index,
{
    if index < 16 {
        if bit(block.registers as u32, index as u32) {
            let one = block.transfer_one(index, slot, bank, new_base, registers, bus);
            if one.result is Ok {
                lemma_block_cycles(
                    block,
                    index + 1,
                    wrapping_add_spec(slot, 4),
                    bank,
                    new_base,
                    one.registers,
                    one.bus,
                );
            }
        } else {
            lemma_block_cycles(block, index + 1, slot, bank, new_base, registers, bus);
        }
    }
}

/// An instruction that ends without fault reports at least one cycle, and
/// never more than three.
pub proof fn lemma_instruction_cycles(
    instruction: Instruction,
    registers: RegisterBank,
    bus: BusModel,
)
    ensures
        match instruction.effect(registers, bus).result {
            Ok(cycles) => 1 <= cycles <= 3,
            Err(_) => true,
        },
{
    match instruction {
        Instruction::BlockDataTransfer(block) => {
            let base = registers.get(block.base_register_index as int);
            lemma_block_cycles(
                block,
                0,
                block.lowest_address(base),
                block.bank(registers),
                block.final_address(base),
                registers,
                bus,
            );
        },
        _ => {},
    }
}

/// A tick that ends without fault reports at least one cycle, and never
/// more than three.
pub proof fn lemma_tick_cycles(cpu: Interpreter, bus: BusModel)
    ensures
        match cpu.tick_spec(bus).result {
            Ok(cycles) => 1 <= cycles <= 3,
            Err(_) => true,
        },
{
    reveal(Interpreter::tick_spec);
    match cpu.decoded_instruction {
        Some(operation) => {
            lemma_instruction_cycles(operation.instruction, cpu.registers, bus);
        },
        None => {},
    }
}

impl RegisterBank {
    /// Whether the program counter is a multiple of the distance between
    /// two instructions of the current instruction set.
    pub open spec fn pc_aligned(self) -> bool {
        self.pc_value() % self.cpsr.instruction_mode.stride_spec() == 0
    }

    /// Whether two banks agree on the program counter and on the
    /// instruction set.
    pub open spec fn same_pc(self, other: RegisterBank) -> bool {
        self.pc_value() == other.pc_value() && self.cpsr.instruction_mode
            == other.cpsr.instruction_mode
    }
}

impl Instruction {
    /// Whether the instruction, by its fields alone, can write neither the
    /// program counter nor the bit that selects the instruction set.
    pub open spec fn keeps_pc(self) -> bool {
        match self {
            Instruction::Branch(_) => false,
            Instruction::BranchAndExchange(_) => false,
            Instruction::SoftwareInterrupt(_) => false,
            Instruction::LongBranchWithLink(i) => !i.h,
            Instruction::DataProcessing(i) => i.destination_register_index != Some(15u32),
            Instruction::SingleDataTransfer(i) => !(i.load && i.source_register_index == 15) && !(
            i.updates_base() && i.base_register_index == 15),
            Instruction::HalfwordDataTransfer(i) => !(i.load && i.source_register_index == 15)
                && !(i.updates_base() && i.base_register_index == 15),
            Instruction::BlockDataTransfer(i) => !(i.load && bit(i.registers as u32, 15)) && !(
            i.write_back && i.base_register_index == 15),
            Instruction::PsrTransferMrs(i) => i.destination_register_index != 15,
            Instruction::PsrTransferMsr(i) => i.use_spsr || !i.write_control,
            Instruction::SingleDataSwap(i) => i.destination_register_index != 15,
        }
    }

    /// Whether the instruction leaves the program counter on an instruction
    /// boundary when it starts from one: it keeps the program counter; or
    /// it is a branch by a whole number of instructions; or a branch and
    /// exchange to Thumb, or to an ARM address whose bit 1 is clear; or a
    /// software interrupt.
    pub open spec fn lands_aligned(self, registers: RegisterBank) -> bool {
        match self {
            Instruction::Branch(i) => i.offset as int
                % registers.cpsr.instruction_mode.stride_spec() as int == 0,
            Instruction::BranchAndExchange(i) => {
                let target = registers.get(i.target_register as int);
                target & 1 != 0 || target & 2 == 0
            },
            Instruction::SoftwareInterrupt(_) => true,
            _ => self.keeps_pc(),
        }
    }
}

proof fn lemma_store_keeps_pc(registers: RegisterBank, index: int, mode: CpuMode, value: u32)
    requires
        0 <= index < 15,
    ensures
        registers.store(index, mode, value).same_pc(registers),
        registers.store(index, mode, value).cpsr == registers.cpsr,
        registers.store(index, mode, value).pipeline_flush == registers.pipeline_flush,
{
}

proof fn lemma_block_keeps_pc(
    block: BlockDataTransferInstruction,
    index: int,
    slot: u32,
    bank: CpuMode,
    new_base: u32,
    start: RegisterBank,
    registers: RegisterBank,
    bus: BusModel,
)
    requires
        0 <= index,
        block.wf(),
        Instruction::BlockDataTransfer(block).keeps_pc(),
        registers.same_pc(start),
    ensures
        block.transfer_from(index, slot, bank, new_base, registers, bus).registers.same_pc(start),
    decreases 16 - index,
{
    reveal(BlockDataTransferInstruction::transfer_one);
    if index < 16 {
        if bit(block.registers as u32, index as u32) {
            let one = block.transfer_one(index, slot, bank, new_base, registers, bus);
            assert(one.registers.same_pc(start)) by {
                if block.load {
                    if bus.read_dword(slot) is Ok {
                        let data = bus.read_dword(slot)->Ok_0;
                        lemma_store_keeps_pc(registers, index, bank, data);
                        let loaded = registers.store(index, bank, data);
                        if block.write_back {
                            lemma_store_keeps_pc(
                                loaded,
                                block.base_register_index as int,
                                loaded.cpsr.mode,
                                new_base,
                            );
                        }
                    }
                } else {
                    if block.write_back {
                        lemma_store_keeps_pc(
                            registers,
                            block.base_register_index as int,
                            registers.cpsr.mode,
                            new_base,
                        );
                    }
                }
            }
            if one.result is Ok {
                lemma_block_keeps_pc(
                    block,
                    index + 1,
                    wrapping_add_spec(slot, 4),
                    bank,
                    new_base,
                    start,
                    one.registers,
                    one.bus,
                );
            }
        } else {
            lemma_block_keeps_pc(block, index + 1, slot, bank, new_base, start, registers, bus);
        }
    }
}

proof fn lemma_data_processing_keeps_pc(i: DataProcessingInstruction, registers: RegisterBank)
    requires
        i.wf(),
        i.destination_register_index != Some(15u32),
    ensures
        i.apply_spec(registers).same_pc(registers),
{
    match i.destination_register_index {
        Some(destination) => {
            let (operand, shifter_carry) = i.operand.value_spec(registers);
            let value = i.operation.compute(
                i.source_value(registers),
                operand,
                shifter_carry,
                registers.cpsr,
            ).value;
            lemma_store_keeps_pc(registers, destination as int, registers.cpsr.mode, value);
        },
        None => {},
    }
}

proof fn lemma_single_transfer_keeps_pc(
    i: SingleDataTransferInstruction,
    registers: RegisterBank,
    bus: BusModel,
)
    requires
        i.wf(),
        Instruction::SingleDataTransfer(i).keeps_pc(),
    ensures
        i.effect(registers, bus).registers.same_pc(registers),
{
    let address = i.address_spec(registers);
    let moved = if i.load {
        i.load_spec(address, i.transfer_mode(registers), registers, bus)
    } else {
        i.store_spec(address, registers, bus)
    };
    assert(moved.registers.same_pc(registers) && moved.registers.cpsr == registers.cpsr) by {
        if i.load {
            let read = if i.byte_transfer {
                crate::arm::transfer::widen(bus.read_byte(address))
            } else {
                bus.read_dword_rotated(address)
            };
            if read is Ok {
                lemma_store_keeps_pc(
                    registers,
                    i.source_register_index as int,
                    i.transfer_mode(registers),
                    read->Ok_0,
                );
            }
        }
    }
    if moved.result is Ok && i.updates_base() {
        lemma_store_keeps_pc(
            moved.registers,
            i.base_register_index as int,
            moved.registers.cpsr.mode,
            i.new_base_spec(registers),
        );
    }
}

proof fn lemma_halfword_transfer_keeps_pc(
    i: HalfwordDataTransferRegInstruction,
    registers: RegisterBank,
    bus: BusModel,
)
    requires
        i.wf(),
        Instruction::HalfwordDataTransfer(i).keeps_pc(),
    ensures
        i.effect(registers, bus).registers.same_pc(registers),
{
    let moved = i.move_spec(i.address_spec(registers), registers, bus);
    assert(moved.registers.same_pc(registers) && moved.registers.cpsr == registers.cpsr) by {
        if i.load && moved.result is Ok {
            let data = if i.halfword {
                crate::arm::halfword::extend_halfword(
                    bus.read_word(i.address_spec(registers))->Ok_0,
                    i.signed,
                )
            } else {
                crate::arm::halfword::extend_byte(
                    bus.read_byte(i.address_spec(registers))->Ok_0,
                    i.signed,
                )
            };
            lemma_store_keeps_pc(
                registers,
                i.source_register_index as int,
                registers.cpsr.mode,
                data,
            );
        }
    }
    if moved.result is Ok && i.updates_base() {
        lemma_store_keeps_pc(
            moved.registers,
            i.base_register_index as int,
            moved.registers.cpsr.mode,
            i.moved_base(registers),
        );
    }
}

proof fn lemma_status_transfer_keeps_pc(instruction: Instruction, registers: RegisterBank, bus: BusModel)
    requires
        instruction.wf(),
        instruction.keeps_pc(),
        instruction is PsrTransferMrs || instruction is PsrTransferMsr,
    ensures
        instruction.effect(registers, bus).registers.same_pc(registers),
{
    match instruction {
        Instruction::PsrTransferMrs(i) => {
            let status = if i.use_spsr {
                registers.saved_status(registers.cpsr.mode)
            } else {
                registers.cpsr
            };
            lemma_store_keeps_pc(
                registers,
                i.destination_register_index as int,
                registers.cpsr.mode,
                status.pack(),
            );
        },
        _ => {},
    }
}

proof fn lemma_swap_keeps_pc(i: SingleDataSwapInstruction, registers: RegisterBank, bus: BusModel)
    requires
        i.wf(),
        i.destination_register_index != 15,
    ensures
        i.effect(registers, bus).registers.same_pc(registers),
{
    let address = registers.get(i.base_register_index as int);
    let read = if i.byte_transfer {
        crate::arm::transfer::widen(bus.read_byte(address))
    } else {
        bus.read_dword(address)
    };
    if read is Ok {
        lemma_store_keeps_pc(
            registers,
            i.destination_register_index as int,
            registers.cpsr.mode,
            read->Ok_0,
        );
    }
}

proof fn lemma_first_half_keeps_pc(i: LongBranchWithLinkInstruction, registers: RegisterBank)
    requires
        !i.h,
    ensures
        i.apply_spec(registers).same_pc(registers),
{
    lemma_store_keeps_pc(
        registers,
        14,
        registers.cpsr.mode,
        wrapping_add_spec(registers.pc_value(), crate::thumb::branch::upper_offset(i.offset)),
    );
}

/// An instruction that by its fields can write neither the program counter
/// nor the instruction set leaves both as they were, whatever the state.
pub proof fn lemma_keeps_pc(instruction: Instruction, registers: RegisterBank, bus: BusModel)
    requires
        instruction.wf(),
        instruction.keeps_pc(),
    ensures
        instruction.effect(registers, bus).registers.same_pc(registers),
{
    match instruction {
        Instruction::BlockDataTransfer(block) => {
            let base = registers.get(block.base_register_index as int);
            lemma_block_keeps_pc(
                block,
                0,
                block.lowest_address(base),
                block.bank(registers),
                block.final_address(base),
                registers,
                registers,
                bus,
            );
        },
        Instruction::DataProcessing(i) => {
            lemma_data_processing_keeps_pc(i, registers);
        },
        Instruction::SingleDataTransfer(i) => {
            lemma_single_transfer_keeps_pc(i, registers, bus);
        },
        Instruction::HalfwordDataTransfer(i) => {
            lemma_halfword_transfer_keeps_pc(i, registers, bus);
        },
        Instruction::PsrTransferMrs(_) | Instruction::PsrTransferMsr(_) => {
            lemma_status_transfer_keeps_pc(instruction, registers, bus);
        },
        Instruction::SingleDataSwap(i) => {
            lemma_swap_keeps_pc(i, registers, bus);
        },
        Instruction::LongBranchWithLink(i) => {
            lemma_first_half_keeps_pc(i, registers);
        },
        _ => {},
    }
}

proof fn lemma_branch_lands_aligned(i: BranchInstruction, registers: RegisterBank)
    requires
        registers.pc_aligned(),
        i.offset as int % registers.cpsr.instruction_mode.stride_spec() as int == 0,
    ensures
        i.apply_spec(registers).pc_aligned(),
{
    let linked = match i.link {
        Some(link) => registers.set(14, link),
        None => registers,
    };
    if i.link is Some {
        lemma_store_keeps_pc(registers, 14, registers.cpsr.mode, i.link->Some_0);
    }
    let pc = linked.pc_value();
    assert(pc == registers.pc_value());
    let target = crate::arm::branch::offset_address(pc, i.offset as int);
    assert(i.apply_spec(registers).pc_value() == target);
    assert(i.apply_spec(registers).cpsr == registers.cpsr);
    lemma_moved_stays_aligned(pc, i.offset as int, registers.cpsr.instruction_mode.stride_spec());
}

proof fn lemma_moved_stays_aligned(pc: u32, offset: int, stride: u32)
    requires
        stride == 2 || stride == 4,
        pc as int % stride as int == 0,
        offset % stride as int == 0,
    ensures
        ((pc + offset) % 0x1_0000_0000) % stride as int == 0,
{
    let sum = pc + offset;
    if stride == 2 {
        assert(sum % 2 == 0);
        vstd::arithmetic::div_mod::lemma_mod_mod(sum, 2, 0x8000_0000);
    } else {
        assert(sum % 4 == 0);
        vstd::arithmetic::div_mod::lemma_mod_mod(sum, 4, 0x4000_0000);
    }
}

proof fn lemma_exchange_target(target: u32)
    by (bit_vector)
    ensures
        (target & 0xFFFF_FFFE) % 2 == 0,
        target & 2 == 0 ==> (target & 0xFFFF_FFFE) % 4 == 0,
{
}

/// An instruction that lands aligned leaves the program counter on an
/// instruction boundary when it starts from one.
pub proof fn lemma_lands_aligned(instruction: Instruction, registers: RegisterBank, bus: BusModel)
    requires
        instruction.wf(),
        registers.pc_aligned(),
        instruction.lands_aligned(registers),
    ensures
        instruction.effect(registers, bus).registers.pc_aligned(),
{
    match instruction {
        Instruction::Branch(i) => {
            lemma_branch_lands_aligned(i, registers);
            assert(instruction.effect(registers, bus).registers == i.apply_spec(registers));
        },
        Instruction::BranchAndExchange(i) => {
            lemma_exchange_target(registers.get(i.target_register as int));
            assert(i.apply_spec(registers).pc_aligned());
        },
        Instruction::SoftwareInterrupt(i) => {
            assert(i.apply_spec(registers).pc_value() == 8);
            assert(i.apply_spec(registers).pc_aligned());
        },
        _ => {
            lemma_keeps_pc(instruction, registers, bus);
        },
    }
}

/// After a tick without fault the program counter is on an instruction
/// boundary, given that it was on one before and that the instruction
/// executed in the tick, if any, lands aligned.
pub proof fn lemma_tick_keeps_alignment(cpu: Interpreter, bus: BusModel)
    requires
        cpu.wf(),
        cpu.registers.pc_aligned(),
        cpu.tick_spec(bus).result is Ok,
        match cpu.decoded_instruction {
            Some(operation) => condition_holds(cpu.registers.cpsr, operation.condition)
                ==> operation.instruction.lands_aligned(cpu.registers),
            None => true,
        },
    ensures
        cpu.tick_spec(bus).cpu.registers.pc_aligned(),
{
    reveal(Interpreter::tick_spec);
    match cpu.decoded_instruction {
        Some(operation) => {
            if condition_holds(cpu.registers.cpsr, operation.condition) {
                lemma_lands_aligned(operation.instruction, cpu.registers, bus);
            }
        },
        None => {},
    }
    let executed = cpu.execute_spec(bus);
    assert(executed.cpu.registers.pc_aligned());
    let decoded = executed.cpu.decode_spec().0;
    assert(decoded.registers == executed.cpu.registers);
    lemma_fetch_keeps_alignment(decoded, executed.bus);
}

/// The fetch stage moves the program counter from one instruction boundary
/// to the next, and from no other place to a boundary.
pub proof fn lemma_fetch_keeps_alignment(cpu: Interpreter, bus: BusModel)
    ensures
        cpu.fetch_spec(bus).1 is Ok ==> (cpu.fetch_spec(bus).0.registers.pc_aligned()
            <==> cpu.registers.pc_aligned()),
        cpu.registers.pc_aligned() ==> cpu.fetch_spec(bus).0.registers.pc_aligned(),
{
    let stride = cpu.registers.cpsr.instruction_mode.stride_spec();
    let pc = cpu.registers.pc_value();
    let sum = pc + stride;
    if stride == 2 {
        vstd::arithmetic::div_mod::lemma_mod_mod(sum, 2, 0x8000_0000);
    } else {
        vstd::arithmetic::div_mod::lemma_mod_mod(sum, 4, 0x4000_0000);
    }
}

/// After a tick without fault the program counter is on an instruction
/// boundary exactly when the execute stage of that tick left it on one:
/// decoding does not move it, and fetching moves it by one instruction.
pub proof fn lemma_tick_alignment(cpu: Interpreter, bus: BusModel)
    requires
        cpu.tick_spec(bus).result is Ok,
    ensures
        cpu.tick_spec(bus).cpu.registers.pc_aligned() <==> cpu.execute_spec(
            bus,
        ).cpu.registers.pc_aligned(),
{
    reveal(Interpreter::tick_spec);
    let executed = cpu.execute_spec(bus);
    let decoded = executed.cpu.decode_spec().0;
    assert(decoded.registers == executed.cpu.registers);
    lemma_fetch_keeps_alignment(decoded, executed.bus);
}

/// After a flush both slots are empty, and the tick that follows only
/// fetches: it leaves the registers but for the program counter, leaves
/// memory, decodes nothing and reports one cycle.
pub proof fn lemma_tick_after_flush(cpu: Interpreter, bus: BusModel)
    requires
        cpu.fetched_instruction is None,
        cpu.decoded_instruction is None,
    ensures
        cpu.tick_spec(bus).bus == bus,
        cpu.tick_spec(bus).cpu == cpu.fetch_spec(bus).0,
        cpu.tick_spec(bus).cpu.decoded_instruction is None,
        cpu.tick_spec(bus).result == match cpu.fetch_spec(bus).1 {
            Ok(_) => Ok::<usize, CoreError>(1),
            Err(e) => Err::<usize, CoreError>(e),
        },
{
    reveal(Interpreter::tick_spec);
}

/// An instruction whose condition fails changes nothing: the tick goes on
/// to decode and fetch from the state as it was.
pub proof fn lemma_failed_condition_skips(cpu: Interpreter, bus: BusModel)
    requires
        cpu.decoded_instruction is Some,
        !condition_holds(cpu.registers.cpsr, cpu.decoded_instruction->Some_0.condition),
    ensures
        cpu.execute_spec(bus).cpu == cpu,
        cpu.execute_spec(bus).bus == bus,
        cpu.execute_spec(bus).result == Ok::<usize, CoreError>(1),
{
}

/// The reserved condition code 15 never holds, and code 14 always does.
pub proof fn lemma_reserved_condition(status: crate::status::ProgramStatusRegister)
    ensures
        !condition_holds(status, 0xF),
        condition_holds(status, 0xE),
{
}

/// Every branch that the ARM decoder gives moves the program counter by
/// whole ARM instructions, and every branch that the Thumb decoder gives
/// moves it by whole Thumb instructions: a decoded branch lands aligned in
/// the instruction set that it was decoded for.
pub proof fn lemma_decoded_branches_land_aligned(registers: RegisterBank, opcode: u32)
    ensures
        match decode_arm_spec(registers, opcode) {
            Ok(Instruction::Branch(branch)) => branch.offset as int % 4 == 0,
            _ => true,
        },
        match decode_thumb_spec(opcode) {
            Ok(Instruction::Branch(branch)) => branch.offset as int % 2 == 0,
            _ => true,
        },
{
    crate::arm::branch::lemma_branch_offset(registers.pc_value(), opcode);
    crate::thumb::branch::lemma_conditional_offset(opcode);
    assert(match decode_thumb_spec(opcode) {
        Ok(Instruction::Branch(branch)) => branch.offset as int % 2 == 0,
        _ => true,
    }) by {
        lemma_thumb_branch_is_conditional(opcode);
    }
}

proof fn lemma_thumb_branch_is_conditional(opcode: u32)
    ensures
        decode_thumb_spec(opcode) is Ok && decode_thumb_spec(opcode)->Ok_0 is Branch
            ==> decode_thumb_spec(opcode)->Ok_0 == crate::thumb::branch::conditional_branch_spec(
            opcode,
        ),
{
}

} // verus!
