use rgba::arm::arithmetic::DataProcessingOperation;
use rgba::disasm::{
    decimal, get_condition_label, hex, hex_padded, log_line, operand_text,
    print_offset_as_immediate, register_name, shift_text,
};
use rgba::{
    BlockDataTransferInstruction, BranchAndExchangeInstruction, BranchInstruction, Bus, CoreError,
    DataProcessingInstruction, Device, HalfwordDataOffset, HalfwordDataTransferRegInstruction,
    ImmediateShift, Instruction, InstructionExecutor, Interpreter, LongBranchWithLinkInstruction,
    Operand, Operation, PsrTransferMrsInstruction, PsrTransferMsrInstruction, RegisterBank,
    RegisterShift, Shift, ShiftType, SingleDataSwapInstruction, SingleDataTransferInstruction,
    SoftwareInterruptInstruction, Wram,
};

fn fixture() -> (Bus, RegisterBank) {
    let mut bus = Bus::default();
    bus.register_region(0..=0xFFF, Device::Wram(Wram::new(0, 0x1000)));
    (bus, RegisterBank::default())
}

#[test]
fn numbers_in_hexadecimal_and_decimal() {
    assert_eq!(hex(0), "0");
    assert_eq!(hex(0xA), "A");
    assert_eq!(hex(0x10), "10");
    assert_eq!(hex(0xDEAD_BEEF), "DEADBEEF");
    assert_eq!(hex(u32::MAX), format!("{:X}", u32::MAX));
    assert_eq!(decimal(0), "0");
    assert_eq!(decimal(15), "15");
    assert_eq!(decimal(4_294_967_295), "4294967295");
    assert_eq!(hex_padded(0x1F, 8), "0000001F");
    assert_eq!(hex_padded(0, 4), "0000");
    assert_eq!(hex_padded(0x12345, 4), "12345");
    assert_eq!(hex_padded(0xFFFF_FFFF, 8), "FFFFFFFF");
    assert_eq!(hex_padded(7, 0), "7");
    assert_eq!(register_name(0), "r0");
    assert_eq!(register_name(15), "r15");
}

#[test]
fn offsets_as_immediates() {
    assert_eq!(print_offset_as_immediate(0), "#0x0");
    assert_eq!(print_offset_as_immediate(0x1F4), "#0x1F4");
    assert_eq!(print_offset_as_immediate(-8), "#-0x8");
    assert_eq!(print_offset_as_immediate(i32::MAX), "#0x7FFFFFFF");
    assert_eq!(print_offset_as_immediate(i32::MIN), "#-0x80000000");
}

#[test]
fn condition_labels() {
    let labels = [
        "eq", "ne", "cs", "cc", "mi", "pl", "vs", "vc", "hi", "ls", "ge", "lt", "gt", "le", "", "nv",
    ];
    for (code, label) in labels.iter().enumerate() {
        assert_eq!(get_condition_label(code as u32), *label);
    }
}

#[test]
fn operands_as_text() {
    assert_eq!(operand_text(&Operand::Immediate(0xFF00, true)), "#0xFF00");
    assert_eq!(operand_text(&Operand::Register(12)), "r12");
    let by_register = Shift::Register(RegisterShift::new(1, 2, ShiftType::ArithmeticRight));
    assert_eq!(shift_text(&by_register), "r1, ASR, r2");
    let by_amount = Shift::Immediate(ImmediateShift::new(3, 31, ShiftType::RotateRight));
    assert_eq!(operand_text(&Operand::RegisterShifted(by_amount)), "r3, ROR, #1F");
    assert_eq!(
        shift_text(&Shift::Immediate(ImmediateShift::new(0, 0, ShiftType::LogicalLeft))),
        "r0, LSL, #0"
    );
    assert_eq!(
        shift_text(&Shift::Register(RegisterShift::new(0, 0, ShiftType::LogicalRight))),
        "r0, LSR, r0"
    );
}

#[test]
fn data_processing_text() {
    let (mut bus, registers) = fixture();
    let names = [
        (DataProcessingOperation::And, "and"),
        (DataProcessingOperation::ExclusiveOr, "eor"),
        (DataProcessingOperation::Subtract, "sub"),
        (DataProcessingOperation::ReverseSubtract, "rsb"),
        (DataProcessingOperation::Add, "add"),
        (DataProcessingOperation::AddWithCarry, "adc"),
        (DataProcessingOperation::SubtractWithCarry, "sbc"),
        (DataProcessingOperation::ReverseSubtractWithCarry, "rsc"),
        (DataProcessingOperation::Test, "tst"),
        (DataProcessingOperation::TestEqual, "teq"),
        (DataProcessingOperation::Compare, "cmp"),
        (DataProcessingOperation::CompareNegate, "cmn"),
        (DataProcessingOperation::Or, "orr"),
        (DataProcessingOperation::Move, "mov"),
        (DataProcessingOperation::AndNot, "bic"),
        (DataProcessingOperation::MoveNegate, "mvn"),
    ];
    for (operation, name) in names {
        let plain = DataProcessingInstruction::new(false, 1, Operand::Register(2), Some(0), operation);
        assert_eq!(plain.mnemonic(), name);
        let flagged = DataProcessingInstruction::new(true, 1, Operand::Register(2), Some(0), operation);
        assert_eq!(flagged.mnemonic(), format!("{name}s"));
    }
    let add = DataProcessingInstruction::new(
        true,
        1,
        Operand::Immediate(0x10, false),
        Some(3),
        DataProcessingOperation::Add,
    );
    assert_eq!(add.description(&registers, &mut bus), "r3, r1, #0x10");
    let compare =
        DataProcessingInstruction::new(true, 4, Operand::Register(5), None, DataProcessingOperation::Compare);
    assert_eq!(compare.description(&registers, &mut bus), "r4, r5");
}

#[test]
fn branch_text() {
    let (mut bus, mut registers) = fixture();
    assert_eq!(BranchInstruction::new(None, -8).mnemonic(), "b");
    assert_eq!(BranchInstruction::new(Some(4), 8).mnemonic(), "bl");
    assert_eq!(BranchInstruction::new(None, -8).description(&registers, &mut bus), "#-0x8");
    *registers.reg_mut(14) = 0x0800_0001;
    let exchange = BranchAndExchangeInstruction::new(14);
    assert_eq!(exchange.mnemonic(), "bx");
    assert_eq!(exchange.description(&registers, &mut bus), "r14 (=$8000001)");
    let interrupt = SoftwareInterruptInstruction { past_address: 0, comment: 0x12 };
    assert_eq!(interrupt.mnemonic(), "swi");
    assert_eq!(interrupt.description(&registers, &mut bus), "#0x12");
    *registers.pc_mut() = 0x1004;
    let first = LongBranchWithLinkInstruction { offset: 1, h: false };
    assert_eq!(first.mnemonic(), "bl");
    assert_eq!(first.description(&registers, &mut bus), "#1 (=$00002004)");
    *registers.reg_mut(14) = 0x2004;
    let second = LongBranchWithLinkInstruction { offset: 0x7FF, h: true };
    assert_eq!(second.mnemonic(), "blh");
    assert_eq!(second.description(&registers, &mut bus), "#7FF (=$00003002)");
}

#[test]
fn transfer_text() {
    let (mut bus, mut registers) = fixture();
    bus.write_dword(0x104, 0xCAFE_F00D).unwrap();
    *registers.reg_mut(1) = 0x100;
    let load = SingleDataTransferInstruction::new(
        0,
        1,
        Operand::Immediate(4, false),
        true,
        false,
        false,
        true,
        true,
        false,
    );
    assert_eq!(load.mnemonic(), "ldr");
    assert_eq!(load.description(&registers, &mut bus), "r0, [r1], #0x4 (=$CAFEF00D)");
    let load_byte = SingleDataTransferInstruction::new(
        0,
        1,
        Operand::Immediate(5, false),
        true,
        true,
        true,
        true,
        true,
        false,
    );
    assert_eq!(load_byte.mnemonic(), "ldrbt");
    assert_eq!(load_byte.description(&registers, &mut bus), "r0, [r1], #0x5 (=$F0)");
    *registers.reg_mut(1) = 0x2000;
    assert_eq!(load.description(&registers, &mut bus), "r0, [r1], #0x4 (=???)");
    let store = SingleDataTransferInstruction::new(
        2,
        3,
        Operand::Register(4),
        false,
        false,
        true,
        true,
        true,
        false,
    );
    assert_eq!(store.mnemonic(), "strb");
    assert_eq!(store.description(&registers, &mut bus), "r2, [r3], r4 ");

    let block = BlockDataTransferInstruction::new(13, 0x8013, true, true, true, false, true, 4);
    assert_eq!(block.mnemonic(), "ldmia");
    assert_eq!(block.description(&registers, &mut bus), "r13!, {r0, r1, r4, r15}^");
    let empty = BlockDataTransferInstruction::new(2, 0, false, false, false, true, false, 0);
    assert_eq!(empty.mnemonic(), "stmdb");
    assert_eq!(empty.description(&registers, &mut bus), "r2, {}");
    assert_eq!(
        BlockDataTransferInstruction::new(0, 1, false, false, false, false, false, 1).mnemonic(),
        "stmda"
    );
    assert_eq!(
        BlockDataTransferInstruction::new(0, 1, false, false, true, true, false, 1).mnemonic(),
        "stmib"
    );

    let swap = SingleDataSwapInstruction::decode(0xE141_3092);
    assert_eq!(swap.mnemonic(), "swpb");
    assert_eq!(swap.description(&registers, &mut bus), "r3, r2, [r1]");
    assert_eq!(SingleDataSwapInstruction::decode(0xE101_0092).mnemonic(), "swp");

    let half = HalfwordDataTransferRegInstruction::new(
        true,
        true,
        false,
        true,
        true,
        true,
        1,
        HalfwordDataOffset::Offset(0x1E),
        0,
    );
    assert_eq!(half.mnemonic(), "ldrsh");
    assert_eq!(half.description(&registers, &mut bus), "r0, [r1], #0x1E");
    let store_half = HalfwordDataTransferRegInstruction::new(
        true,
        true,
        false,
        false,
        false,
        true,
        1,
        HalfwordDataOffset::Register(7),
        0,
    );
    assert_eq!(store_half.mnemonic(), "strh");
    assert_eq!(store_half.description(&registers, &mut bus), "r0, [r1], r7");
}

#[test]
fn status_transfer_text() {
    let (mut bus, registers) = fixture();
    let mrs = PsrTransferMrsInstruction::decode(0xE14F_5000);
    assert_eq!(mrs.mnemonic(), "mrs");
    assert_eq!(mrs.description(&registers, &mut bus), "r5, spsr");
    assert_eq!(
        PsrTransferMrsInstruction::decode(0xE10F_0000).description(&registers, &mut bus),
        "r0, cpsr"
    );
    let msr = PsrTransferMsrInstruction {
        operand: Operand::Register(4),
        use_spsr: false,
        write_flags: true,
        write_control: true,
    };
    assert_eq!(msr.mnemonic(), "msr");
    assert_eq!(msr.description(&registers, &mut bus), "cpsr_fc, r4");
    let saved = PsrTransferMsrInstruction {
        operand: Operand::Immediate(0x1F, false),
        use_spsr: true,
        write_flags: false,
        write_control: false,
    };
    assert_eq!(saved.description(&registers, &mut bus), "spsr_, #0x1F");
}

#[test]
fn log_lines() {
    assert_eq!(log_line(0x100, 0xEAFF_FFFE, 0xE, "b", "#-0x8"), "$00000100: EAFFFFFE b #-0x8");
    assert_eq!(
        log_line(0x0800_0000, 0x03A0_0001, 0x0, "mov", "r0, r0, #0x1"),
        "$08000000: 03A00001 mov.eq r0, r0, #0x1"
    );
    let mut bus = Bus::default();
    let mut cpu = Interpreter::default();
    assert_eq!(cpu.pending_log(&mut bus), None);
    cpu.decoded_instruction = Some(Operation {
        location: 0x20,
        opcode: 0x1AFF_FFFE,
        condition: 0x1,
        instruction: Instruction::Branch(BranchInstruction::new(None, -8)),
    });
    assert_eq!(cpu.pending_log(&mut bus), None);
    assert_eq!(cpu.log_instruction(0, 0, 0xE, "b", ""), None);
    cpu.logging_enabled = true;
    assert_eq!(
        cpu.pending_log(&mut bus),
        Some("$00000020: 1AFFFFFE b.ne #-0x8".to_string())
    );
    assert_eq!(
        cpu.log_instruction(4, 0xEF00_0012, 0xE, "swi", "#0x12"),
        Some("$00000004: EF000012 swi #0x12".to_string())
    );
}

#[test]
fn faults_in_words() {
    assert_eq!(CoreError::InvalidRegion(0x20).message(), "Address access violation at 0x0020");
    assert_eq!(
        CoreError::InvalidRegion(0x0400_0209).message(),
        "Address access violation at 0x4000209"
    );
    assert_eq!(
        CoreError::OpcodeNotImplemented(0xE00_0291).message(),
        "Opcode not implemented: 0x0E000291"
    );
    assert_eq!(CoreError::BiosSizeMismatch.message(), "Bios files must be 0x4000 bytes");
}
