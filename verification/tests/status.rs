use rgba::{CpuMode, InstructionMode, ProgramStatusRegister, RegisterBank};

fn all_modes() -> [CpuMode; 7] {
    [
        CpuMode::User,
        CpuMode::Fiq,
        CpuMode::Irq,
        CpuMode::Supervisor,
        CpuMode::Abort,
        CpuMode::Undefined,
        CpuMode::System,
    ]
}

#[test]
fn mode_bits_match_the_architecture() {
    assert_eq!(CpuMode::User.to_u32(), 0x10);
    assert_eq!(CpuMode::Fiq.to_u32(), 0x11);
    assert_eq!(CpuMode::Irq.to_u32(), 0x12);
    assert_eq!(CpuMode::Supervisor.to_u32(), 0x13);
    assert_eq!(CpuMode::Abort.to_u32(), 0x17);
    assert_eq!(CpuMode::Undefined.to_u32(), 0x1B);
    assert_eq!(CpuMode::System.to_u32(), 0x1F);
}

#[test]
fn unknown_mode_bits_read_as_undefined() {
    assert_eq!(CpuMode::from_u32(0x00), CpuMode::Undefined);
    assert_eq!(CpuMode::from_u32(0x14), CpuMode::Undefined);
    assert_eq!(CpuMode::from_u32(0x1E), CpuMode::Undefined);
    assert_eq!(CpuMode::from_u32(0x20), CpuMode::Undefined);
    assert_eq!(CpuMode::from_u32(0x1F), CpuMode::System);
}

#[test]
fn status_packs_to_the_documented_bits() {
    let status = ProgramStatusRegister {
        signed: true,
        zero: false,
        carry: true,
        overflow: false,
        sticky_overflow: true,
        irq_disable: true,
        fiq_disable: false,
        instruction_mode: InstructionMode::Thumb,
        mode: CpuMode::Supervisor,
    };
    assert_eq!(status.to_u32(), 0x8000_0000 | 0x2000_0000 | 0x0800_0000 | 0x80 | 0x20 | 0x13);
    assert_eq!(ProgramStatusRegister::default().to_u32(), 0x10);
}

#[test]
fn status_round_trips_for_every_field_combination() {
    for mode in all_modes() {
        for bits in 0u32..256 {
            let status = ProgramStatusRegister {
                signed: bits & 1 != 0,
                zero: bits & 2 != 0,
                carry: bits & 4 != 0,
                overflow: bits & 8 != 0,
                sticky_overflow: bits & 16 != 0,
                irq_disable: bits & 32 != 0,
                fiq_disable: bits & 64 != 0,
                instruction_mode: if bits & 128 != 0 {
                    InstructionMode::Thumb
                } else {
                    InstructionMode::Arm
                },
                mode,
            };
            assert_eq!(ProgramStatusRegister::from_u32(status.to_u32()), status);
        }
    }
}

#[test]
fn unpack_ignores_bits_outside_the_layout() {
    let status = ProgramStatusRegister::from_u32(0x07FF_FF00 | 0x1F);
    assert!(!status.signed && !status.zero && !status.carry && !status.overflow);
    assert!(!status.sticky_overflow);
    assert!(!status.fiq_disable && !status.irq_disable);
    assert_eq!(status.instruction_mode, InstructionMode::Arm);
    assert_eq!(status.mode, CpuMode::System);
}

#[test]
fn low_registers_are_shared_by_every_mode() {
    let mut bank = RegisterBank::default();
    for index in 0..8 {
        *bank.reg_with_mode_mut(index, CpuMode::Fiq) = 100 + index as u32;
    }
    for mode in all_modes() {
        for index in 0..8 {
            assert_eq!(bank.reg_with_mode(index, mode), 100 + index as u32);
            assert_eq!(bank.reg_with_mode(index, mode), bank.reg_with_mode(index, CpuMode::User));
        }
    }
}

#[test]
fn exception_modes_keep_their_own_r13_and_r14() {
    let modes = [CpuMode::Supervisor, CpuMode::Irq, CpuMode::Abort, CpuMode::Undefined];
    let mut bank = RegisterBank::default();
    for (k, mode) in modes.iter().enumerate() {
        *bank.reg_with_mode_mut(13, *mode) = 0x1000 + k as u32;
        *bank.reg_with_mode_mut(14, *mode) = 0x2000 + k as u32;
    }
    for (k, mode) in modes.iter().enumerate() {
        assert_eq!(bank.reg_with_mode(13, *mode), 0x1000 + k as u32);
        assert_eq!(bank.reg_with_mode(14, *mode), 0x2000 + k as u32);
    }
    assert_eq!(bank.reg_with_mode(13, CpuMode::User), 0);
    assert_eq!(bank.reg_with_mode(14, CpuMode::System), 0);
}

#[test]
fn fiq_has_seven_registers_of_its_own() {
    let mut bank = RegisterBank::default();
    for index in 8..15 {
        *bank.reg_with_mode_mut(index, CpuMode::Fiq) = index as u32;
    }
    for index in 8..15 {
        assert_eq!(bank.reg_with_mode(index, CpuMode::Fiq), index as u32);
        assert_eq!(bank.reg_with_mode(index, CpuMode::User), 0);
    }
    *bank.reg_with_mode_mut(15, CpuMode::Fiq) = 0x44;
    assert_eq!(bank.reg_with_mode(15, CpuMode::User), 0x44);
    assert_eq!(bank.pc(), 0x44);
}

#[test]
fn user_and_system_alias() {
    let mut bank = RegisterBank::default();
    for index in 0..16 {
        *bank.reg_with_mode_mut(index, CpuMode::System) = 7 * index as u32 + 1;
    }
    for index in 0..16 {
        assert_eq!(bank.reg_with_mode(index, CpuMode::User), 7 * index as u32 + 1);
    }
}

#[test]
fn saved_status_belongs_to_the_current_mode() {
    let mut bank = RegisterBank::default();
    bank.cpsr.mode = CpuMode::Irq;
    assert_eq!(bank.spsr().mode, CpuMode::Irq);
    bank.spsr_mut().carry = true;
    bank.cpsr.mode = CpuMode::Supervisor;
    assert!(!bank.spsr().carry);
    assert_eq!(bank.spsr().mode, CpuMode::Supervisor);
    bank.cpsr.mode = CpuMode::Irq;
    assert!(bank.spsr().carry);
    bank.cpsr.mode = CpuMode::User;
    assert_eq!(bank.spsr().mode, CpuMode::Fiq);
}

#[test]
fn program_counter_advances_by_the_stride() {
    let mut bank = RegisterBank::default();
    bank.increment_pc();
    assert_eq!(bank.pc(), 4);
    bank.cpsr.instruction_mode = InstructionMode::Thumb;
    bank.increment_pc();
    assert_eq!(bank.pc(), 6);
    *bank.pc_mut() = 0xFFFF_FFFE;
    bank.increment_pc();
    assert_eq!(bank.pc(), 0);
}
