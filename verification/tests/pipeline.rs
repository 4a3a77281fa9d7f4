use rgba::{
    Bus, CoreError, CpuMode, Device, Gba, InstructionMode, Interpreter, ProgramStatusRegister,
    Wram,
};

fn program(words: &[u32]) -> Vec<u8> {
    let mut image = vec![0u8; 0x4000];
    for (k, word) in words.iter().enumerate() {
        image[4 * k..4 * k + 4].copy_from_slice(&word.to_le_bytes());
    }
    image
}

fn with_flags(zero: bool, carry: bool, signed: bool, overflow: bool) -> Interpreter {
    let mut cpu = Interpreter::default();
    cpu.registers.cpsr =
        ProgramStatusRegister { zero, carry, signed, overflow, ..ProgramStatusRegister::default() };
    cpu
}

#[test]
fn condition_codes_follow_the_flags() {
    let zero = with_flags(true, false, false, false);
    let carry = with_flags(false, true, false, false);
    let negative = with_flags(false, false, true, false);
    let overflow = with_flags(false, false, false, true);
    let none = with_flags(false, false, false, false);
    assert!(zero.check_condition(0x0) && !none.check_condition(0x0));
    assert!(none.check_condition(0x1) && !zero.check_condition(0x1));
    assert!(carry.check_condition(0x2) && !none.check_condition(0x2));
    assert!(none.check_condition(0x3) && !carry.check_condition(0x3));
    assert!(negative.check_condition(0x4) && !none.check_condition(0x4));
    assert!(none.check_condition(0x5) && !negative.check_condition(0x5));
    assert!(overflow.check_condition(0x6) && !none.check_condition(0x6));
    assert!(none.check_condition(0x7) && !overflow.check_condition(0x7));
    assert!(carry.check_condition(0x8) && !with_flags(true, true, false, false).check_condition(0x8));
    assert!(none.check_condition(0x9) && zero.check_condition(0x9) && !carry.check_condition(0x9));
    assert!(none.check_condition(0xA) && !negative.check_condition(0xA));
    assert!(with_flags(false, false, true, true).check_condition(0xA));
    assert!(negative.check_condition(0xB) && overflow.check_condition(0xB));
    assert!(!none.check_condition(0xB));
    assert!(none.check_condition(0xC) && !zero.check_condition(0xC));
    assert!(!negative.check_condition(0xC));
    assert!(zero.check_condition(0xD) && negative.check_condition(0xD));
    assert!(!none.check_condition(0xD));
    assert!(none.check_condition(0xE) && zero.check_condition(0xE));
    assert!(!none.check_condition(0xF) && !zero.check_condition(0xF));
}

#[test]
fn a_new_machine_has_the_default_memory_map() {
    let mut gba = Gba::new();
    assert!(gba.cpu.logging_enabled);
    assert_eq!(gba.bus.read_byte(0), Err(CoreError::InvalidRegion(0)));
    assert_eq!(gba.bus.read_byte(0x0400_0000), Ok(0));
    assert_eq!(gba.bus.write_byte(0x0400_0056, 9), Ok(()));
    assert_eq!(gba.bus.read_byte(0x0400_0057), Err(CoreError::InvalidRegion(0x0400_0057)));
    assert_eq!(gba.bus.write_byte(0x0400_0208, 1), Ok(()));
    assert_eq!(gba.bus.read_byte(0x0400_0208), Ok(1));
    assert_eq!(gba.bus.write_byte(0x0400_0209, 1), Err(CoreError::InvalidRegion(0x0400_0209)));
    assert_eq!(gba.bus.read_byte(0x0470_0000), Ok(0));
    assert_eq!(gba.bus.read_byte(0x0470_0001), Err(CoreError::InvalidRegion(0x0470_0001)));
    assert_eq!(gba.bus.write_dword(0x0300_0000, 0x0102_0304), Ok(()));
    assert_eq!(gba.bus.read_dword(0x0300_8000), Ok(0x0102_0304));
    assert_eq!(gba.bus.read_dword(0x03FF_8000), Ok(0x0102_0304));
    assert_eq!(gba.bus.write_dword(0x0FFF_FFFC, 0xA1B2_C3D4), Ok(()));
    assert_eq!(gba.bus.read_dword(0x0FFF_FFFC), Ok(0xA1B2_C3D4));
    assert_eq!(gba.bus.read_dword(0x0800_0000), Ok(0));
    assert_eq!(gba.bus.read_byte(0x1000_0000), Err(CoreError::InvalidRegion(0x1000_0000)));
    assert_eq!(gba.bus.read_byte(0x0200_0000), Err(CoreError::InvalidRegion(0x0200_0000)));
}

#[test]
fn bios_of_the_wrong_size_is_refused() {
    let mut gba = Gba::new();
    assert_eq!(gba.set_bios(&vec![0u8; 100]), Err(CoreError::BiosSizeMismatch));
    assert_eq!(gba.bus.read_byte(0), Err(CoreError::InvalidRegion(0)));
    assert_eq!(gba.set_bios(&vec![7u8; 0x4000]), Ok(()));
    assert_eq!(gba.bus.read_byte(0), Ok(7));
    assert_eq!(gba.bus.read_byte(0x3FFF), Ok(7));
    assert_eq!(gba.bus.read_byte(0x4000), Err(CoreError::InvalidRegion(0x4000)));
}

#[test]
fn the_pipeline_fills_before_it_executes() {
    let mut gba = Gba::new();
    gba.set_bios(&program(&[
        0xE3A0_0001, // MOV R0, #1
        0xE280_0002, // ADD R0, R0, #2
        0xE1A0_1000, // MOV R1, R0
        0xE1A0_0000, // MOV R0, R0
        0xE1A0_0000,
    ]))
    .unwrap();
    assert_eq!(gba.tick(), Ok(1));
    assert_eq!(gba.registers().pc(), 4);
    assert_eq!(gba.cpu.fetched_instruction, Some((0xE3A0_0001, 0)));
    assert!(gba.cpu.decoded_instruction.is_none());
    assert_eq!(gba.tick(), Ok(1));
    assert_eq!(gba.registers().pc(), 8);
    assert_eq!(gba.cpu.decoded_instruction.map(|d| (d.location, d.opcode, d.condition)), Some((0, 0xE3A0_0001, 0xE)));
    assert_eq!(gba.registers().reg(0), 0);
    assert_eq!(gba.tick(), Ok(1));
    assert_eq!(gba.registers().reg(0), 1);
    assert_eq!(gba.registers().pc(), 12);
    assert_eq!(gba.tick(), Ok(1));
    assert_eq!(gba.registers().reg(0), 3);
    assert_eq!(gba.tick(), Ok(1));
    assert_eq!(gba.registers().reg(1), 3);
    assert_eq!(gba.registers().pc(), 20);
}

#[test]
fn a_branch_flushes_and_refills() {
    let mut gba = Gba::new();
    gba.set_bios(&program(&[
        0xEA00_0001, // B +4: to the fourth word
        0xE3A0_0011, // MOV R0, #0x11 (skipped)
        0xE3A0_0022, // MOV R0, #0x22 (skipped)
        0xE3A0_1033, // MOV R1, #0x33
        0xE1A0_0000,
        0xE1A0_0000,
    ]))
    .unwrap();
    gba.tick().unwrap();
    gba.tick().unwrap();
    assert_eq!(gba.registers().pc(), 8);
    // The branch executes with the program counter two instructions ahead;
    // the slots are emptied and the fetch restarts at the target.
    assert_eq!(gba.tick(), Ok(3));
    assert_eq!(gba.cpu.fetched_instruction, Some((0xE3A0_1033, 12)));
    assert!(gba.cpu.decoded_instruction.is_none());
    assert_eq!(gba.registers().pc(), 16);
    gba.tick().unwrap();
    gba.tick().unwrap();
    assert_eq!(gba.registers().reg(0), 0);
    assert_eq!(gba.registers().reg(1), 0x33);
    assert_eq!(gba.registers().pc() % 4, 0);
}

#[test]
fn a_failing_condition_skips_the_instruction() {
    let mut gba = Gba::new();
    gba.set_bios(&program(&[
        0x03A0_0001, // MOVEQ R0, #1
        0x13A0_1002, // MOVNE R1, #2
        0xE1A0_0000,
        0xE1A0_0000,
    ]))
    .unwrap();
    for _ in 0..4 {
        assert_eq!(gba.tick(), Ok(1));
    }
    assert_eq!(gba.registers().reg(0), 0);
    assert_eq!(gba.registers().reg(1), 2);
}

#[test]
fn thumb_is_fetched_by_halfwords() {
    let mut bus = Bus::default();
    bus.register_region(0..=0xFF, Device::Wram(Wram::new(0, 0x100)));
    for (k, half) in [0x2105u16, 0x3103, 0x0000, 0x0000].iter().enumerate() {
        bus.write_word(2 * k as u32, *half).unwrap();
    }
    let mut cpu = Interpreter::default();
    cpu.registers.cpsr.instruction_mode = InstructionMode::Thumb;
    assert_eq!(cpu.tick(&mut bus), Ok(1));
    assert_eq!(cpu.fetched_instruction, Some((0x2105, 0)));
    assert_eq!(cpu.registers.pc(), 2);
    cpu.tick(&mut bus).unwrap();
    cpu.tick(&mut bus).unwrap();
    assert_eq!(cpu.registers.reg(1), 5);
    cpu.tick(&mut bus).unwrap();
    assert_eq!(cpu.registers.reg(1), 8);
    assert_eq!(cpu.registers.pc(), 8);
    assert_eq!(cpu.registers.pc() % 2, 0);
}

#[test]
fn faults_come_out_of_the_tick() {
    let mut gba = Gba::new();
    assert_eq!(gba.tick(), Err(CoreError::InvalidRegion(0)));
    assert_eq!(gba.emulate(Some(10)), Err(CoreError::InvalidRegion(0)));

    let mut gba = Gba::new();
    gba.set_bios(&program(&[0xEE00_0000, 0xE1A0_0000])).unwrap();
    assert_eq!(gba.tick(), Ok(1));
    assert_eq!(gba.tick(), Err(CoreError::OpcodeNotImplemented(0xEE00_0000)));
}

#[test]
fn emulate_stops_at_the_budget() {
    let nops = vec![0xE1A0_0000u32; 64];
    let mut gba = Gba::new();
    gba.set_bios(&program(&nops)).unwrap();
    assert_eq!(gba.emulate(Some(5)), Ok(()));
    assert_eq!(gba.registers().pc(), 20);
    assert_eq!(gba.emulate(None), Ok(()));
    assert_eq!(gba.registers().pc(), 24);
    assert_eq!(gba.emulate(Some(0)), Ok(()));
    assert_eq!(gba.registers().pc(), 28);
    assert_eq!(gba.emulate(Some(usize::MAX)), Err(CoreError::InvalidRegion(0x4000)));
}

#[test]
fn reset_returns_to_system_mode_at_address_zero() {
    let mut gba = Gba::new();
    gba.set_bios(&program(&[0xE3A0_0001, 0xE3A0_D0FF, 0xE1A0_0000, 0xE1A0_0000])).unwrap();
    gba.emulate(Some(4)).unwrap();
    assert_eq!(gba.registers().reg(0), 1);
    gba.reset();
    assert_eq!(gba.registers().pc(), 0);
    assert_eq!(gba.registers().cpsr.mode, CpuMode::System);
    assert_eq!(gba.registers().cpsr.instruction_mode, InstructionMode::Arm);
    for index in 0..16 {
        assert_eq!(gba.registers().reg(index), 0);
    }
    assert!(gba.cpu.fetched_instruction.is_none());
    assert!(gba.cpu.decoded_instruction.is_none());
    assert!(gba.cpu.logging_enabled);
    assert_eq!(gba.bus.read_dword(0), Ok(0xE3A0_0001));
}

#[test]
fn data_processing_outside_the_pipeline() {
    let mut cpu = Interpreter::default();
    assert_eq!(cpu.process_data(0xE3A0_0CFF), 1);
    assert_eq!(cpu.registers.reg(0), 0xFF00);
    assert_eq!(cpu.process_data(0xE290_1001), 1);
    assert_eq!(cpu.registers.reg(1), 0xFF01);
    assert!(!cpu.registers.cpsr.zero);
    assert_eq!(cpu.multiply(0xE000_0291), Err(CoreError::OpcodeNotImplemented(0xE000_0291)));
    assert_eq!(
        cpu.multiply_long(0xE080_1392),
        Err(CoreError::OpcodeNotImplemented(0xE080_1392))
    );
}
