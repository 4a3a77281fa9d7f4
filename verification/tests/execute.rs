use rgba::arm::arithmetic::DataProcessingOperation;
use rgba::interpreter::{decode_arm_instruction, decode_thumb_instruction};
use rgba::{
    BlockDataTransferInstruction, BranchAndExchangeInstruction, BranchInstruction, Bus, CoreError,
    CpuMode, DataProcessingInstruction, Device, HalfwordDataOffset,
    HalfwordDataTransferRegInstruction, ImmediateShift, Instruction, InstructionExecutor,
    InstructionMode, Interpreter, LongBranchWithLinkInstruction, Operand, Operation,
    PsrTransferMrsInstruction, PsrTransferMsrInstruction, RegisterBank, RegisterShift, Shift,
    ShiftType, SingleDataSwapInstruction, SingleDataTransferInstruction,
    SoftwareInterruptInstruction, Wram,
};

fn machine() -> (Bus, RegisterBank) {
    let mut bus = Bus::default();
    bus.register_region(0..=0xFFF, Device::Wram(Wram::new(0, 0x1000)));
    (bus, RegisterBank::default())
}

fn data(
    flags: bool,
    source: u32,
    operand: Operand,
    destination: Option<u32>,
    operation: DataProcessingOperation,
) -> DataProcessingInstruction {
    DataProcessingInstruction::new(flags, source, operand, destination, operation)
}

#[test]
fn mov_rotated_immediate_sets_the_register() {
    let (mut bus, mut registers) = machine();
    // MOV R0, #0xFF00: condition always, immediate form, rotation 12, low byte 0xFF.
    let opcode = 0xE3A0_0CFF;
    let instruction = decode_arm_instruction(&mut registers, opcode).unwrap();
    assert_eq!(
        instruction,
        Instruction::DataProcessing(data(
            false,
            0,
            Operand::Immediate(0xFF00, false),
            Some(0),
            DataProcessingOperation::Move
        ))
    );
    assert_eq!(instruction.execute(&mut registers, &mut bus), Ok(1));
    assert_eq!(registers.reg(0), 0x0000_FF00);
}

#[test]
fn branch_moves_the_program_counter_and_flushes() {
    let mut bus = Bus::default();
    let mut cpu = Interpreter::default();
    *cpu.registers.pc_mut() = 0x108;
    cpu.fetched_instruction = Some((0, 0x104));
    cpu.decoded_instruction = Some(Operation {
        location: 0x100,
        opcode: 0xEAFF_FFFE,
        condition: 0xE,
        instruction: Instruction::Branch(BranchInstruction::new(None, -8)),
    });
    assert_eq!(cpu.execute(&mut bus), Ok(3));
    assert_eq!(cpu.registers.pc(), 0x100);
    assert!(cpu.fetched_instruction.is_none());
    assert!(cpu.decoded_instruction.is_none());
    assert!(!cpu.registers.pipeline_flush);
}

#[test]
fn branch_offset_is_sign_extended_and_counts_words() {
    let mut registers = RegisterBank::default();
    *registers.pc_mut() = 0x204;
    assert_eq!(
        BranchInstruction::decode(&mut registers, 0xEAFF_FFFE),
        BranchInstruction::new(None, -8)
    );
    assert_eq!(
        BranchInstruction::decode(&mut registers, 0xEB00_0010),
        BranchInstruction::new(Some(0x204), 0x40)
    );
    assert_eq!(
        BranchInstruction::decode(&mut registers, 0xEA80_0000),
        BranchInstruction::new(None, -0x0200_0000)
    );
    assert_eq!(
        BranchInstruction::decode(&mut registers, 0xEA7F_FFFF),
        BranchInstruction::new(None, 0x01FF_FFFC)
    );
}

#[test]
fn branch_with_link_keeps_the_return_address() {
    let (mut bus, mut registers) = machine();
    *registers.pc_mut() = 0x108;
    let branch = BranchInstruction::new(Some(0x104), 0x20);
    assert_eq!(branch.execute(&mut registers, &mut bus), Ok(3));
    assert_eq!(registers.reg(14), 0x104);
    assert_eq!(registers.pc(), 0x128);
    assert!(registers.pipeline_flush);
}

#[test]
fn branch_and_exchange_enters_thumb() {
    let (mut bus, mut registers) = machine();
    *registers.reg_mut(0) = 0x1001;
    let instruction = decode_arm_instruction(&mut registers, 0xE12F_FF10).unwrap();
    assert_eq!(
        instruction,
        Instruction::BranchAndExchange(BranchAndExchangeInstruction::new(0))
    );
    assert_eq!(instruction.execute(&mut registers, &mut bus), Ok(3));
    assert_eq!(registers.pc(), 0x1000);
    assert_eq!(registers.cpsr.instruction_mode, InstructionMode::Thumb);
    assert!(registers.pipeline_flush);
}

#[test]
fn branch_and_exchange_returns_to_arm() {
    let (mut bus, mut registers) = machine();
    registers.cpsr.instruction_mode = InstructionMode::Thumb;
    *registers.reg_mut(3) = 0x2000;
    assert_eq!(BranchAndExchangeInstruction::new(3).execute(&mut registers, &mut bus), Ok(3));
    assert_eq!(registers.pc(), 0x2000);
    assert_eq!(registers.cpsr.instruction_mode, InstructionMode::Arm);
}

#[test]
fn software_interrupt_enters_supervisor() {
    let (mut bus, mut registers) = machine();
    registers.cpsr.mode = CpuMode::User;
    registers.cpsr.carry = true;
    registers.cpsr.zero = true;
    *registers.pc_mut() = 0x204;
    let entry = registers.cpsr;
    // SWI 0x12, decoded while the program counter points at the next instruction.
    let instruction = decode_arm_instruction(&mut registers, 0xEF00_0012).unwrap();
    assert_eq!(
        instruction,
        Instruction::SoftwareInterrupt(SoftwareInterruptInstruction {
            past_address: 0x204,
            comment: 0x12
        })
    );
    *registers.pc_mut() = 0x208;
    assert_eq!(instruction.execute(&mut registers, &mut bus), Ok(1));
    assert_eq!(registers.reg_with_mode(14, CpuMode::Supervisor), 0x204);
    assert_eq!(registers.reg_with_mode(14, CpuMode::User), 0);
    assert_eq!(registers.cpsr.mode, CpuMode::Supervisor);
    assert_eq!(registers.spsr(), entry);
    assert_eq!(registers.pc(), 0x8);
    assert!(registers.cpsr.irq_disable);
    assert!(registers.cpsr.carry && registers.cpsr.zero);
    assert!(registers.pipeline_flush);
}

#[test]
fn add_sets_carry_and_overflow() {
    let (mut bus, mut registers) = machine();
    *registers.reg_mut(1) = 0x7FFF_FFFF;
    let add = data(true, 1, Operand::Immediate(1, false), Some(0), DataProcessingOperation::Add);
    add.execute(&mut registers, &mut bus).unwrap();
    assert_eq!(registers.reg(0), 0x8000_0000);
    assert!(registers.cpsr.overflow && registers.cpsr.signed);
    assert!(!registers.cpsr.carry && !registers.cpsr.zero);

    *registers.reg_mut(1) = 0xFFFF_FFFF;
    add.execute(&mut registers, &mut bus).unwrap();
    assert_eq!(registers.reg(0), 0);
    assert!(registers.cpsr.carry && registers.cpsr.zero);
    assert!(!registers.cpsr.overflow && !registers.cpsr.signed);
}

#[test]
fn subtract_sets_carry_when_nothing_is_borrowed() {
    let (mut bus, mut registers) = machine();
    *registers.reg_mut(1) = 5;
    let sub = |value| {
        data(true, 1, Operand::Immediate(value, false), Some(0), DataProcessingOperation::Subtract)
    };
    sub(5).execute(&mut registers, &mut bus).unwrap();
    assert_eq!(registers.reg(0), 0);
    assert!(registers.cpsr.carry && registers.cpsr.zero && !registers.cpsr.overflow);
    sub(6).execute(&mut registers, &mut bus).unwrap();
    assert_eq!(registers.reg(0), 0xFFFF_FFFF);
    assert!(!registers.cpsr.carry && registers.cpsr.signed && !registers.cpsr.overflow);
    *registers.reg_mut(1) = 0x8000_0000;
    sub(1).execute(&mut registers, &mut bus).unwrap();
    assert_eq!(registers.reg(0), 0x7FFF_FFFF);
    assert!(registers.cpsr.carry && registers.cpsr.overflow);
}

#[test]
fn carry_enters_the_carry_operations() {
    let (mut bus, mut registers) = machine();
    *registers.reg_mut(1) = 10;
    let with = |operation| data(false, 1, Operand::Immediate(3, false), Some(0), operation);
    registers.cpsr.carry = true;
    with(DataProcessingOperation::AddWithCarry).execute(&mut registers, &mut bus).unwrap();
    assert_eq!(registers.reg(0), 14);
    with(DataProcessingOperation::SubtractWithCarry).execute(&mut registers, &mut bus).unwrap();
    assert_eq!(registers.reg(0), 7);
    with(DataProcessingOperation::ReverseSubtractWithCarry)
        .execute(&mut registers, &mut bus)
        .unwrap();
    assert_eq!(registers.reg(0), 0xFFFF_FFF9);
    registers.cpsr.carry = false;
    with(DataProcessingOperation::AddWithCarry).execute(&mut registers, &mut bus).unwrap();
    assert_eq!(registers.reg(0), 13);
    with(DataProcessingOperation::SubtractWithCarry).execute(&mut registers, &mut bus).unwrap();
    assert_eq!(registers.reg(0), 6);
    with(DataProcessingOperation::ReverseSubtract).execute(&mut registers, &mut bus).unwrap();
    assert_eq!(registers.reg(0), 0xFFFF_FFF9);
}

#[test]
fn add_with_carry_overflow_follows_the_reference_rule() {
    let (mut bus, mut registers) = machine();
    *registers.reg_mut(1) = 0x7FFF_FFFF;
    registers.cpsr.carry = true;
    let adc = data(
        true,
        1,
        Operand::Immediate(0, false),
        Some(0),
        DataProcessingOperation::AddWithCarry,
    );
    adc.execute(&mut registers, &mut bus).unwrap();
    assert_eq!(registers.reg(0), 0x8000_0000);
    assert!(registers.cpsr.overflow && !registers.cpsr.carry);

    *registers.reg_mut(1) = 0xFFFF_FFFF;
    registers.cpsr.carry = true;
    adc.execute(&mut registers, &mut bus).unwrap();
    assert_eq!(registers.reg(0), 0);
    assert!(!registers.cpsr.overflow && registers.cpsr.carry);
}

#[test]
fn logical_operations_take_the_shifter_carry() {
    let (mut bus, mut registers) = machine();
    *registers.reg_mut(1) = 0xF0F0_F0F0;
    *registers.reg_mut(2) = 0x8000_00FF;
    registers.cpsr.overflow = true;
    let operand = Operand::RegisterShifted(Shift::Immediate(ImmediateShift::new(
        2,
        1,
        ShiftType::LogicalLeft,
    )));
    data(true, 1, operand, Some(0), DataProcessingOperation::And)
        .execute(&mut registers, &mut bus)
        .unwrap();
    assert_eq!(registers.reg(0), 0xF0);
    assert!(registers.cpsr.carry && registers.cpsr.overflow);
    data(true, 1, Operand::Register(2), Some(0), DataProcessingOperation::ExclusiveOr)
        .execute(&mut registers, &mut bus)
        .unwrap();
    assert_eq!(registers.reg(0), 0x70F0_F00F);
    data(true, 1, Operand::Register(2), Some(0), DataProcessingOperation::Or)
        .execute(&mut registers, &mut bus)
        .unwrap();
    assert_eq!(registers.reg(0), 0xF0F0_F0FF);
    data(true, 1, Operand::Register(2), Some(0), DataProcessingOperation::AndNot)
        .execute(&mut registers, &mut bus)
        .unwrap();
    assert_eq!(registers.reg(0), 0x70F0_F000);
    data(true, 1, Operand::Register(2), Some(0), DataProcessingOperation::MoveNegate)
        .execute(&mut registers, &mut bus)
        .unwrap();
    assert_eq!(registers.reg(0), 0x7FFF_FF00);
}

#[test]
fn flags_stay_without_the_s_bit() {
    let (mut bus, mut registers) = machine();
    registers.cpsr.carry = true;
    data(false, 1, Operand::Immediate(0, false), Some(0), DataProcessingOperation::Move)
        .execute(&mut registers, &mut bus)
        .unwrap();
    assert!(registers.cpsr.carry && !registers.cpsr.zero);
}

#[test]
fn tests_always_set_flags_and_write_nothing() {
    let (mut bus, mut registers) = machine();
    *registers.reg_mut(1) = 7;
    let opcode = 0xE351_0007; // CMP R1, #7
    let instruction = decode_arm_instruction(&mut registers, opcode).unwrap();
    assert_eq!(
        instruction,
        Instruction::DataProcessing(data(
            true,
            1,
            Operand::Immediate(7, false),
            None,
            DataProcessingOperation::Compare
        ))
    );
    data(false, 1, Operand::Immediate(7, false), None, DataProcessingOperation::Compare)
        .execute(&mut registers, &mut bus)
        .unwrap();
    assert!(registers.cpsr.zero && registers.cpsr.carry);
    assert_eq!(registers.reg(0), 0);
    data(false, 1, Operand::Immediate(8, false), None, DataProcessingOperation::Test)
        .execute(&mut registers, &mut bus)
        .unwrap();
    assert!(registers.cpsr.zero);
    data(false, 1, Operand::Immediate(7, false), None, DataProcessingOperation::TestEqual)
        .execute(&mut registers, &mut bus)
        .unwrap();
    assert!(registers.cpsr.zero);
    data(false, 1, Operand::Immediate(0xFFFF_FFF9, false), None, DataProcessingOperation::CompareNegate)
        .execute(&mut registers, &mut bus)
        .unwrap();
    assert!(registers.cpsr.zero && registers.cpsr.carry);
}

#[test]
fn program_counter_as_source_reads_ahead() {
    let (mut bus, mut registers) = machine();
    *registers.pc_mut() = 0x108;
    *registers.reg_mut(2) = 0;
    *registers.reg_mut(3) = 0;
    data(false, 15, Operand::Register(2), Some(0), DataProcessingOperation::Add)
        .execute(&mut registers, &mut bus)
        .unwrap();
    assert_eq!(registers.reg(0), 0x108);
    let by_register =
        Operand::RegisterShifted(Shift::Register(RegisterShift::new(2, 3, ShiftType::LogicalLeft)));
    data(false, 15, by_register, Some(0), DataProcessingOperation::Add)
        .execute(&mut registers, &mut bus)
        .unwrap();
    assert_eq!(registers.reg(0), 0x10C);
}

#[test]
fn write_to_the_program_counter_asks_for_a_flush() {
    let (mut bus, mut registers) = machine();
    data(false, 0, Operand::Immediate(0x40, false), Some(15), DataProcessingOperation::Move)
        .execute(&mut registers, &mut bus)
        .unwrap();
    assert_eq!(registers.pc(), 0x40);
    assert!(registers.pipeline_flush);
}

#[test]
fn load_and_store_words_and_bytes() {
    let (mut bus, mut registers) = machine();
    *registers.reg_mut(0) = 0xCAFE_F00D;
    *registers.reg_mut(1) = 0x100;
    let store = SingleDataTransferInstruction::new(
        0,
        1,
        Operand::Immediate(8, false),
        false,
        false,
        false,
        true,
        true,
        false,
    );
    assert_eq!(store.execute(&mut registers, &mut bus), Ok(1));
    assert_eq!(bus.read_dword(0x108), Ok(0xCAFE_F00D));
    assert_eq!(registers.reg(1), 0x100);

    let load_byte = SingleDataTransferInstruction::new(
        2,
        1,
        Operand::Immediate(9, false),
        true,
        false,
        true,
        true,
        true,
        false,
    );
    assert_eq!(load_byte.execute(&mut registers, &mut bus), Ok(1));
    assert_eq!(registers.reg(2), 0xF0);

    let store_byte = SingleDataTransferInstruction::new(
        0,
        1,
        Operand::Immediate(0, false),
        false,
        false,
        true,
        true,
        true,
        false,
    );
    assert_eq!(store_byte.execute(&mut registers, &mut bus), Ok(1));
    assert_eq!(bus.read_dword(0x100), Ok(0x0000_000D));
}

#[test]
fn unaligned_word_load_is_rotated() {
    let (mut bus, mut registers) = machine();
    bus.write_dword(0x200, 0x4433_2211).unwrap();
    *registers.reg_mut(1) = 0x202;
    let load = SingleDataTransferInstruction::new(
        0,
        1,
        Operand::Immediate(0, false),
        true,
        false,
        false,
        true,
        true,
        false,
    );
    assert_eq!(load.execute(&mut registers, &mut bus), Ok(1));
    assert_eq!(registers.reg(0), 0x2211_4433);
}

#[test]
fn indexing_and_write_back() {
    let (mut bus, mut registers) = machine();
    bus.write_dword(0x100, 0x1111_1111).unwrap();
    bus.write_dword(0x0FC, 0x2222_2222).unwrap();
    *registers.reg_mut(1) = 0x100;
    let post = SingleDataTransferInstruction::new(
        0,
        1,
        Operand::Immediate(4, false),
        true,
        false,
        false,
        false,
        false,
        false,
    );
    assert_eq!(post.execute(&mut registers, &mut bus), Ok(1));
    assert_eq!(registers.reg(0), 0x1111_1111);
    assert_eq!(registers.reg(1), 0x0FC);

    let pre = SingleDataTransferInstruction::new(
        0,
        1,
        Operand::Immediate(4, false),
        true,
        true,
        false,
        true,
        true,
        false,
    );
    assert_eq!(pre.execute(&mut registers, &mut bus), Ok(1));
    assert_eq!(registers.reg(0), 0x1111_1111);
    assert_eq!(registers.reg(1), 0x100);

    let into_base = SingleDataTransferInstruction::new(
        1,
        1,
        Operand::Immediate(4, false),
        true,
        true,
        false,
        false,
        true,
        false,
    );
    assert_eq!(into_base.execute(&mut registers, &mut bus), Ok(1));
    assert_eq!(registers.reg(1), 0x2222_2222);
}

#[test]
fn post_indexed_transfer_with_write_back_uses_the_user_bank() {
    let (mut bus, mut registers) = machine();
    registers.cpsr.mode = CpuMode::Supervisor;
    *registers.reg_with_mode_mut(13, CpuMode::User) = 0xAAAA_AAAA;
    *registers.reg_with_mode_mut(13, CpuMode::Supervisor) = 0xBBBB_BBBB;
    *registers.reg_mut(1) = 0x300;
    let store = SingleDataTransferInstruction::new(
        13,
        1,
        Operand::Immediate(4, false),
        false,
        true,
        false,
        true,
        false,
        false,
    );
    assert_eq!(store.execute(&mut registers, &mut bus), Ok(1));
    assert_eq!(bus.read_dword(0x300), Ok(0xAAAA_AAAA));
    assert_eq!(registers.reg(1), 0x304);
}

#[test]
fn stored_program_counter_reads_four_bytes_on() {
    let (mut bus, mut registers) = machine();
    *registers.pc_mut() = 0x208;
    *registers.reg_mut(1) = 0x400;
    let store = SingleDataTransferInstruction::new(
        15,
        1,
        Operand::Immediate(0, false),
        false,
        false,
        false,
        true,
        true,
        false,
    );
    assert_eq!(store.execute(&mut registers, &mut bus), Ok(1));
    assert_eq!(bus.read_dword(0x400), Ok(0x20C));
}

#[test]
fn transfer_fault_leaves_the_registers() {
    let (mut bus, mut registers) = machine();
    *registers.reg_mut(1) = 0x2000;
    let load = SingleDataTransferInstruction::new(
        0,
        1,
        Operand::Immediate(4, false),
        true,
        true,
        false,
        true,
        true,
        false,
    );
    assert_eq!(load.execute(&mut registers, &mut bus), Err(CoreError::InvalidRegion(0x2004)));
    assert_eq!(registers.reg(0), 0);
    assert_eq!(registers.reg(1), 0x2000);
}

#[test]
fn block_load_restores_what_a_block_store_saved() {
    let (mut bus, mut registers) = machine();
    for index in 0..8 {
        *registers.reg_mut(index) = 0x100 * (index as u32 + 1);
    }
    *registers.reg_mut(13) = 0x800;
    let push = BlockDataTransferInstruction::new(13, 0x00F5, false, true, false, true, false, 6);
    assert_eq!(push.execute(&mut registers, &mut bus), Ok(1));
    assert_eq!(registers.reg(13), 0x800 - 24);
    assert_eq!(bus.read_dword(0x800 - 24), Ok(0x100));
    assert_eq!(bus.read_dword(0x800 - 4), Ok(0x800));
    for index in 0..8 {
        *registers.reg_mut(index) = 0;
    }
    let pop = BlockDataTransferInstruction::new(13, 0x00F5, true, true, true, false, false, 6);
    assert_eq!(pop.execute(&mut registers, &mut bus), Ok(1));
    assert_eq!(registers.reg(13), 0x800);
    assert_eq!(registers.reg(0), 0x100);
    assert_eq!(registers.reg(1), 0);
    assert_eq!(registers.reg(2), 0x300);
    assert_eq!(registers.reg(7), 0x800);
}

#[test]
fn block_store_of_the_base_register() {
    let (mut bus, mut registers) = machine();
    *registers.reg_mut(0) = 0x11;
    *registers.reg_mut(1) = 0x100;
    *registers.reg_mut(2) = 0x22;
    // The base is not the first in the list: the updated value is stored.
    let later = BlockDataTransferInstruction::new(1, 0b0111, false, true, true, false, false, 3);
    assert_eq!(later.execute(&mut registers, &mut bus), Ok(1));
    assert_eq!(bus.read_dword(0x100), Ok(0x11));
    assert_eq!(bus.read_dword(0x104), Ok(0x10C));
    assert_eq!(bus.read_dword(0x108), Ok(0x22));
    // The base is the first in the list: the value it had before is stored.
    *registers.reg_mut(1) = 0x200;
    let first = BlockDataTransferInstruction::new(1, 0b0110, false, true, true, false, false, 2);
    assert_eq!(first.execute(&mut registers, &mut bus), Ok(1));
    assert_eq!(bus.read_dword(0x200), Ok(0x200));
    assert_eq!(registers.reg(1), 0x208);
}

#[test]
fn block_load_of_the_program_counter_restores_the_status() {
    let (mut bus, mut registers) = machine();
    registers.cpsr.mode = CpuMode::Irq;
    registers.spsr_mut().mode = CpuMode::User;
    registers.spsr_mut().carry = true;
    *registers.reg_mut(13) = 0x400;
    bus.write_dword(0x400, 0x77).unwrap();
    bus.write_dword(0x404, 0x120).unwrap();
    let load = BlockDataTransferInstruction::new(13, 0x8001, true, false, true, false, true, 2);
    assert_eq!(load.execute(&mut registers, &mut bus), Ok(1));
    assert_eq!(registers.pc(), 0x120);
    assert_eq!(registers.cpsr.mode, CpuMode::User);
    assert!(registers.cpsr.carry);
    assert_eq!(registers.reg(0), 0x77);
    assert!(registers.pipeline_flush);
}

#[test]
fn block_store_with_the_s_bit_takes_the_user_bank() {
    let (mut bus, mut registers) = machine();
    registers.cpsr.mode = CpuMode::Fiq;
    *registers.reg_with_mode_mut(8, CpuMode::User) = 0xAAAA;
    *registers.reg_with_mode_mut(8, CpuMode::Fiq) = 0xBBBB;
    *registers.reg_mut(0) = 0x500;
    let store = BlockDataTransferInstruction::new(0, 0x0100, false, false, true, false, true, 1);
    assert_eq!(store.execute(&mut registers, &mut bus), Ok(1));
    assert_eq!(bus.read_dword(0x500), Ok(0xAAAA));
}

#[test]
fn block_decode_counts_the_list() {
    let mut registers = RegisterBank::default();
    assert_eq!(
        BlockDataTransferInstruction::decode(&mut registers, 0xE8BD_80F0),
        BlockDataTransferInstruction::new(13, 0x80F0, true, true, true, false, false, 5)
    );
    assert_eq!(
        BlockDataTransferInstruction::decode(&mut registers, 0xE92D_4000),
        BlockDataTransferInstruction::new(13, 0x4000, false, true, false, true, false, 1)
    );
}

#[test]
fn status_moves_to_a_register_and_back() {
    let (mut bus, mut registers) = machine();
    registers.cpsr.mode = CpuMode::Supervisor;
    registers.cpsr.zero = true;
    let mrs = PsrTransferMrsInstruction::decode(0xE10F_3000);
    assert_eq!(mrs.execute(&mut registers, &mut bus), Ok(1));
    assert_eq!(registers.reg(3), 0x4000_0013);

    *registers.reg_mut(4) = 0xA000_00D1;
    let flags_only = PsrTransferMsrInstruction {
        operand: Operand::Register(4),
        use_spsr: false,
        write_flags: true,
        write_control: false,
    };
    assert_eq!(flags_only.execute(&mut registers, &mut bus), Ok(1));
    assert!(registers.cpsr.signed && registers.cpsr.carry);
    assert!(!registers.cpsr.zero && !registers.cpsr.overflow);
    assert_eq!(registers.cpsr.mode, CpuMode::Supervisor);
    assert!(!registers.pipeline_flush);

    let control = PsrTransferMsrInstruction {
        operand: Operand::Register(4),
        use_spsr: false,
        write_flags: false,
        write_control: true,
    };
    assert_eq!(control.execute(&mut registers, &mut bus), Ok(1));
    assert_eq!(registers.cpsr.mode, CpuMode::Fiq);
    assert!(registers.cpsr.irq_disable && registers.cpsr.fiq_disable);
    assert!(registers.pipeline_flush);

    let saved = PsrTransferMsrInstruction {
        operand: Operand::Immediate(0x1F, false),
        use_spsr: true,
        write_flags: true,
        write_control: true,
    };
    assert_eq!(saved.execute(&mut registers, &mut bus), Ok(1));
    assert_eq!(registers.spsr().mode, CpuMode::System);
    assert_eq!(registers.cpsr.mode, CpuMode::Fiq);
    let mrs_saved = PsrTransferMrsInstruction::decode(0xE14F_5000);
    assert_eq!(mrs_saved.execute(&mut registers, &mut bus), Ok(1));
    assert_eq!(registers.reg(5), 0x1F);
}

#[test]
fn msr_writing_the_thumb_bit_does_not_flush() {
    let (mut bus, mut registers) = machine();
    let control = PsrTransferMsrInstruction {
        operand: Operand::Immediate(0x30, false),
        use_spsr: false,
        write_flags: false,
        write_control: true,
    };
    assert_eq!(control.execute(&mut registers, &mut bus), Ok(1));
    assert_eq!(registers.cpsr.instruction_mode, InstructionMode::Thumb);
    assert!(!registers.pipeline_flush);
}

#[test]
fn swap_exchanges_register_and_memory() {
    let (mut bus, mut registers) = machine();
    bus.write_dword(0x600, 0x1234_5678).unwrap();
    *registers.reg_mut(1) = 0x600;
    *registers.reg_mut(2) = 0x9ABC_DEF0;
    let swap = SingleDataSwapInstruction::decode(0xE101_0092);
    assert_eq!(swap.execute(&mut registers, &mut bus), Ok(1));
    assert_eq!(registers.reg(0), 0x1234_5678);
    assert_eq!(bus.read_dword(0x600), Ok(0x9ABC_DEF0));
    let swap_byte = SingleDataSwapInstruction::decode(0xE141_3092);
    *registers.reg_mut(2) = 0x0000_0011;
    assert_eq!(swap_byte.execute(&mut registers, &mut bus), Ok(1));
    assert_eq!(registers.reg(3), 0xF0);
    assert_eq!(bus.read_dword(0x600), Ok(0x9ABC_DE11));
}

#[test]
fn halfword_and_signed_loads() {
    let (mut bus, mut registers) = machine();
    bus.write_dword(0x700, 0x8081_F2F3).unwrap();
    *registers.reg_mut(1) = 0x700;
    let load = |signed, halfword, offset| {
        HalfwordDataTransferRegInstruction::new(
            true,
            true,
            false,
            true,
            signed,
            halfword,
            1,
            HalfwordDataOffset::Offset(offset),
            0,
        )
    };
    load(false, true, 0).execute(&mut registers, &mut bus).unwrap();
    assert_eq!(registers.reg(0), 0x0000_F2F3);
    load(true, true, 2).execute(&mut registers, &mut bus).unwrap();
    assert_eq!(registers.reg(0), 0xFFFF_8081);
    load(true, false, 0).execute(&mut registers, &mut bus).unwrap();
    assert_eq!(registers.reg(0), 0xFFFF_FFF3);
    load(false, false, 3).execute(&mut registers, &mut bus).unwrap();
    assert_eq!(registers.reg(0), 0x0000_0080);

    *registers.reg_mut(2) = 0xAAAA_1234;
    *registers.reg_mut(3) = 8;
    let store = HalfwordDataTransferRegInstruction::new(
        false,
        true,
        false,
        false,
        false,
        true,
        1,
        HalfwordDataOffset::Register(3),
        2,
    );
    assert_eq!(store.execute(&mut registers, &mut bus), Ok(1));
    assert_eq!(bus.read_dword(0x700), Ok(0x8081_1234));
    assert_eq!(registers.reg(1), 0x708);
}

#[test]
fn long_branch_with_link_takes_two_halves() {
    let (mut bus, mut registers) = machine();
    registers.cpsr.instruction_mode = InstructionMode::Thumb;
    *registers.pc_mut() = 0x1004;
    let first = LongBranchWithLinkInstruction::decode(0xF001);
    assert_eq!(first, LongBranchWithLinkInstruction { offset: 1, h: false });
    assert_eq!(first.execute(&mut registers, &mut bus), Ok(1));
    assert_eq!(registers.reg(14), 0x2004);
    assert!(!registers.pipeline_flush);
    *registers.pc_mut() = 0x1006;
    let second = LongBranchWithLinkInstruction::decode(0xF802);
    assert_eq!(second.execute(&mut registers, &mut bus), Ok(1));
    assert_eq!(registers.pc(), 0x2008);
    assert_eq!(registers.reg(14), 0x1005);
    assert!(registers.pipeline_flush);

    *registers.pc_mut() = 0x1004;
    let backwards = LongBranchWithLinkInstruction::decode(0xF7FF);
    assert_eq!(backwards.execute(&mut registers, &mut bus), Ok(1));
    assert_eq!(registers.reg(14), 0x0004);
}

#[test]
fn arm_forms_are_tried_in_order() {
    let mut registers = RegisterBank::default();
    let mut decode = |opcode| decode_arm_instruction(&mut registers, opcode);
    assert!(matches!(decode(0xE12F_FF1E), Ok(Instruction::BranchAndExchange(_))));
    assert!(matches!(decode(0xE8BD_8000), Ok(Instruction::BlockDataTransfer(_))));
    assert!(matches!(decode(0xEA00_0000), Ok(Instruction::Branch(_))));
    assert!(matches!(decode(0xEF00_0000), Ok(Instruction::SoftwareInterrupt(_))));
    assert!(matches!(decode(0xE591_0000), Ok(Instruction::SingleDataTransfer(_))));
    assert!(matches!(decode(0xE101_0092), Ok(Instruction::SingleDataSwap(_))));
    assert_eq!(decode(0xE000_0291), Err(CoreError::OpcodeNotImplemented(0xE000_0291)));
    assert_eq!(decode(0xE080_1392), Err(CoreError::OpcodeNotImplemented(0xE080_1392)));
    assert!(matches!(decode(0xE1D1_00B0), Ok(Instruction::HalfwordDataTransfer(_))));
    assert!(matches!(decode(0xE10F_0000), Ok(Instruction::PsrTransferMrs(_))));
    assert!(matches!(decode(0xE129_F000), Ok(Instruction::PsrTransferMsr(_))));
    assert!(matches!(decode(0xE080_0001), Ok(Instruction::DataProcessing(_))));
    assert_eq!(decode(0xEE00_0000), Err(CoreError::OpcodeNotImplemented(0xEE00_0000)));
}

#[test]
fn thumb_forms_lower_to_arm_instructions() {
    assert_eq!(
        decode_thumb_instruction(0x2105),
        Ok(Instruction::DataProcessing(data(
            true,
            1,
            Operand::Immediate(5, false),
            Some(1),
            DataProcessingOperation::Move
        )))
    );
    assert_eq!(
        decode_thumb_instruction(0x1888),
        Ok(Instruction::DataProcessing(data(
            true,
            1,
            Operand::Register(2),
            Some(0),
            DataProcessingOperation::Add
        )))
    );
    assert_eq!(
        decode_thumb_instruction(0x1FC8),
        Ok(Instruction::DataProcessing(data(
            true,
            1,
            Operand::Immediate(7, false),
            Some(0),
            DataProcessingOperation::Subtract
        )))
    );
    assert_eq!(
        decode_thumb_instruction(0x4248),
        Ok(Instruction::DataProcessing(data(
            true,
            1,
            Operand::Immediate(0, false),
            Some(0),
            DataProcessingOperation::ReverseSubtract
        )))
    );
    assert_eq!(
        decode_thumb_instruction(0x0148),
        Ok(Instruction::DataProcessing(data(
            true,
            1,
            Operand::RegisterShifted(Shift::Immediate(ImmediateShift::new(
                1,
                5,
                ShiftType::LogicalLeft
            ))),
            Some(0),
            DataProcessingOperation::Move
        )))
    );
    assert_eq!(
        decode_thumb_instruction(0x4770),
        Ok(Instruction::BranchAndExchange(BranchAndExchangeInstruction::new(14)))
    );
    assert_eq!(
        decode_thumb_instruction(0x4680),
        Ok(Instruction::DataProcessing(data(
            false,
            8,
            Operand::Register(0),
            Some(8),
            DataProcessingOperation::Move
        )))
    );
    assert_eq!(
        decode_thumb_instruction(0xB5F0),
        Ok(Instruction::BlockDataTransfer(BlockDataTransferInstruction::new(
            13, 0x40F0, false, true, false, true, false, 5
        )))
    );
    assert_eq!(
        decode_thumb_instruction(0xBD01),
        Ok(Instruction::BlockDataTransfer(BlockDataTransferInstruction::new(
            13, 0x8001, true, true, true, false, false, 2
        )))
    );
    assert_eq!(
        decode_thumb_instruction(0xB082),
        Ok(Instruction::DataProcessing(data(
            false,
            13,
            Operand::Immediate(8, false),
            Some(13),
            DataProcessingOperation::Subtract
        )))
    );
    assert_eq!(
        decode_thumb_instruction(0xD0FE),
        Ok(Instruction::Branch(BranchInstruction::new(None, -4)))
    );
    assert_eq!(
        decode_thumb_instruction(0x4902),
        Ok(Instruction::SingleDataTransfer(SingleDataTransferInstruction::new(
            1,
            15,
            Operand::Immediate(8, false),
            true,
            false,
            false,
            true,
            true,
            true
        )))
    );
    assert_eq!(
        decode_thumb_instruction(0x6848),
        Ok(Instruction::SingleDataTransfer(SingleDataTransferInstruction::new(
            0,
            1,
            Operand::Immediate(4, false),
            true,
            false,
            false,
            true,
            true,
            false
        )))
    );
    assert_eq!(
        decode_thumb_instruction(0x8848),
        Ok(Instruction::HalfwordDataTransfer(HalfwordDataTransferRegInstruction::new(
            true,
            true,
            false,
            true,
            false,
            true,
            1,
            HalfwordDataOffset::Offset(2),
            0
        )))
    );
    assert_eq!(
        decode_thumb_instruction(0x5E88),
        Ok(Instruction::HalfwordDataTransfer(HalfwordDataTransferRegInstruction::new(
            true,
            true,
            false,
            true,
            true,
            true,
            1,
            HalfwordDataOffset::Register(2),
            0
        )))
    );
    assert_eq!(
        decode_thumb_instruction(0x5288),
        Ok(Instruction::HalfwordDataTransfer(HalfwordDataTransferRegInstruction::new(
            true,
            true,
            false,
            false,
            false,
            true,
            1,
            HalfwordDataOffset::Register(2),
            0
        )))
    );
}

#[test]
fn thumb_forms_without_an_executor_are_reported() {
    for opcode in [0xDF12u32, 0xE001, 0xC107, 0xA001, 0x4348, 0xE800] {
        assert_eq!(
            decode_thumb_instruction(opcode),
            Err(CoreError::OpcodeNotImplemented(opcode))
        );
    }
}
