use rgba::shift::{encode_rotated_immediate, rotated_immediate_carry};
use rgba::{rotated_immediate, ImmediateShift, RegisterBank, RegisterShift, Shift, ShiftType};

#[test]
fn lsl_by_zero_keeps_operand_and_carry() {
    assert_eq!(ShiftType::LogicalLeft.shift(0x1234, 0, true), (0x1234, true));
    assert_eq!(ShiftType::LogicalLeft.shift(0x1234, 0, false), (0x1234, false));
}

#[test]
fn lsl_carry_is_the_last_bit_out() {
    assert_eq!(ShiftType::LogicalLeft.shift(0x8000_0001, 1, false), (2, true));
    assert_eq!(ShiftType::LogicalLeft.shift(0x4000_0000, 1, true), (0x8000_0000, false));
    assert_eq!(ShiftType::LogicalLeft.shift(0x0000_0003, 31, false), (0x8000_0000, true));
}

#[test]
fn lsl_by_32_gives_zero_and_bit_zero() {
    assert_eq!(ShiftType::LogicalLeft.shift(0xFFFF_FFFF, 32, false), (0, true));
    assert_eq!(ShiftType::LogicalLeft.shift(0xFFFF_FFFE, 32, true), (0, false));
    assert_eq!(ShiftType::LogicalLeft.shift(0xFFFF_FFFF, 33, true), (0, false));
    assert_eq!(ShiftType::LogicalLeft.shift(0xFFFF_FFFF, 255, true), (0, false));
}

#[test]
fn lsr_with_encoded_zero_is_a_shift_by_32() {
    assert_eq!(ShiftType::LogicalRight.shift(0x8000_0000, 0, false), (0, true));
    assert_eq!(ShiftType::LogicalRight.shift(0x7FFF_FFFF, 0, true), (0, false));
    assert_eq!(
        ShiftType::LogicalRight.shift(0x8000_0000, 0, false),
        ShiftType::LogicalRight.shift(0x8000_0000, 32, false)
    );
    assert_eq!(ShiftType::LogicalRight.shift(0xFFFF_FFFF, 33, true), (0, false));
}

#[test]
fn lsr_carry_is_the_last_bit_out() {
    assert_eq!(ShiftType::LogicalRight.shift(0b110, 2, false), (1, true));
    assert_eq!(ShiftType::LogicalRight.shift(0b101, 2, true), (1, false));
    assert_eq!(ShiftType::LogicalRight.shift(0x8000_0000, 31, false), (1, false));
}

#[test]
fn asr_fills_with_the_sign() {
    assert_eq!(ShiftType::ArithmeticRight.shift(0x8000_0000, 4, false), (0xF800_0000, false));
    assert_eq!(ShiftType::ArithmeticRight.shift(0x4000_0008, 4, false), (0x0400_0000, true));
    assert_eq!(ShiftType::ArithmeticRight.shift(0xFFFF_FFFF, 31, false), (0xFFFF_FFFF, true));
}

#[test]
fn asr_with_encoded_zero_is_a_shift_by_32() {
    assert_eq!(ShiftType::ArithmeticRight.shift(0x8000_0000, 0, false), (0xFFFF_FFFF, true));
    assert_eq!(ShiftType::ArithmeticRight.shift(0x7FFF_FFFF, 0, true), (0, false));
    assert_eq!(
        ShiftType::ArithmeticRight.shift(0x8123_4567, 0, false),
        ShiftType::ArithmeticRight.shift(0x8123_4567, 32, false)
    );
    assert_eq!(ShiftType::ArithmeticRight.shift(0x8000_0000, 200, false), (0xFFFF_FFFF, true));
}

#[test]
fn ror_with_encoded_zero_is_rrx() {
    assert_eq!(ShiftType::RotateRight.shift(0x0000_0003, 0, true), (0x8000_0001, true));
    assert_eq!(ShiftType::RotateRight.shift(0x0000_0002, 0, false), (0x0000_0001, false));
    assert_eq!(ShiftType::RotateRight.shift(0xFFFF_FFFF, 0, false), (0x7FFF_FFFF, true));
}

#[test]
fn ror_rotates_modulo_32() {
    assert_eq!(ShiftType::RotateRight.shift(0x0000_00F1, 4, false), (0x1000_000F, false));
    assert_eq!(ShiftType::RotateRight.shift(0x0000_00F8, 4, false), (0x8000_000F, true));
    assert_eq!(ShiftType::RotateRight.shift(0x8000_0001, 32, false), (0x8000_0001, true));
    assert_eq!(ShiftType::RotateRight.shift(0x0000_00F1, 36, false), (0x1000_000F, false));
}

#[test]
fn register_amount_uses_the_low_byte() {
    let mut registers = RegisterBank::default();
    *registers.reg_mut(1) = 0x0000_00FF;
    *registers.reg_mut(2) = 0x0000_0104;
    let shift = RegisterShift::new(1, 2, ShiftType::LogicalLeft);
    assert_eq!(shift.shift(&registers), (0x0000_0FF0, false));
}

#[test]
fn register_amount_of_zero_changes_nothing() {
    let mut registers = RegisterBank::default();
    *registers.reg_mut(1) = 0x8000_0001;
    *registers.reg_mut(2) = 0x0000_0100;
    registers.cpsr.carry = true;
    for kind in [
        ShiftType::LogicalLeft,
        ShiftType::LogicalRight,
        ShiftType::ArithmeticRight,
        ShiftType::RotateRight,
    ] {
        assert_eq!(RegisterShift::new(1, 2, kind).shift(&registers), (0x8000_0001, true));
    }
}

#[test]
fn immediate_shift_reads_the_base_register() {
    let mut registers = RegisterBank::default();
    *registers.reg_mut(3) = 0xF000_000F;
    assert_eq!(
        ImmediateShift::new(3, 4, ShiftType::LogicalRight).shift(&registers),
        (0x0F00_0000, true)
    );
    assert_eq!(
        Shift::Immediate(ImmediateShift::new(3, 0, ShiftType::LogicalRight)).shift(&registers),
        (0, true)
    );
}

#[test]
fn shift_is_decoded_from_the_low_twelve_bits() {
    assert_eq!(
        Shift::from_opcode(0x0000_0312),
        Shift::Register(RegisterShift::new(2, 3, ShiftType::LogicalLeft))
    );
    assert_eq!(
        Shift::from_opcode(0x0000_0FE5),
        Shift::Immediate(ImmediateShift::new(5, 31, ShiftType::RotateRight))
    );
    assert_eq!(
        Shift::from_opcode(0xFFFF_F0C1),
        Shift::Immediate(ImmediateShift::new(1, 1, ShiftType::ArithmeticRight))
    );
    assert_eq!(ShiftType::from_u32(5), ShiftType::LogicalRight);
}

#[test]
fn rotated_immediate_rotates_by_twice_the_field() {
    assert_eq!(rotated_immediate(0x0000_00FF), 0x0000_00FF);
    assert_eq!(rotated_immediate(0x0000_0CFF), 0x0000_FF00);
    assert_eq!(rotated_immediate(0x0000_06FF), 0x0FF0_0000);
    assert_eq!(rotated_immediate(0x0000_01FF), 0xC000_003F);
    assert_eq!(rotated_immediate(0xE3A0_0CFF), 0x0000_FF00);
}

#[test]
fn rotated_immediate_carry_follows_bit_31() {
    assert!(rotated_immediate_carry(0x0000_00FF, true));
    assert!(!rotated_immediate_carry(0x0000_00FF, false));
    assert!(rotated_immediate_carry(0x0000_01FF, false));
    assert!(!rotated_immediate_carry(0x0000_0CFF, true));
}

#[test]
fn encoder_and_decoder_round_trip() {
    for rotation in 0u32..16 {
        for low in [0u32, 1, 2, 0x3F, 0x80, 0xA5, 0xFF] {
            let value = low.rotate_right(2 * rotation);
            let field = encode_rotated_immediate(value).expect("the value has an encoding");
            assert!(field < 0x1000);
            assert_eq!(rotated_immediate(field), value);
        }
    }
}

#[test]
fn encoder_picks_the_smallest_rotation() {
    assert_eq!(encode_rotated_immediate(0), Some(0));
    assert_eq!(encode_rotated_immediate(0xFF), Some(0x0FF));
    assert_eq!(encode_rotated_immediate(0xFF00), Some(0xCFF));
    assert_eq!(encode_rotated_immediate(0x0FF0_0000), Some(0x6FF));
    assert_eq!(encode_rotated_immediate(0x3FC), Some(0xFFF));
}

#[test]
fn encoder_refuses_what_no_rotation_gives() {
    assert_eq!(encode_rotated_immediate(0x101), None);
    assert_eq!(encode_rotated_immediate(0xFFFF_FFFF), None);
    assert_eq!(encode_rotated_immediate(0x1FE), None);
    assert_eq!(encode_rotated_immediate(0x0001_0001), None);
}
