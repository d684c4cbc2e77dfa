use running_man_advance::cpu::arm::{ShiftResult, expand_rotated_immediate, shift_immediate, shift_register};

use running_man_advance::cpu::arm::ShiftType;

#[test]
fn immediate_lsl_zero_preserves_value_and_carry() {
    assert_eq!(
        shift_immediate(0x1234_5678, ShiftType::LogicalLeft, 0, true,),
        ShiftResult {
            value: 0x1234_5678,
            carry: true,
        }
    );
}

#[test]
fn immediate_lsl_one() {
    assert_eq!(
        shift_immediate(0x8000_0001, ShiftType::LogicalLeft, 1, false,),
        ShiftResult {
            value: 0x0000_0002,
            carry: true,
        }
    );
}

#[test]
fn immediate_lsr_zero_means_lsr_32() {
    assert_eq!(
        shift_immediate(0x8000_0001, ShiftType::LogicalRight, 0, false,),
        ShiftResult {
            value: 0,
            carry: true,
        }
    );
}

#[test]
fn immediate_lsr_four() {
    assert_eq!(
        shift_immediate(0x8000_0010, ShiftType::LogicalRight, 4, false,),
        ShiftResult {
            value: 0x0800_0001,
            carry: false,
        }
    );
}

#[test]
fn immediate_asr_zero_sign_extends_negative_value() {
    assert_eq!(
        shift_immediate(0x8000_0000, ShiftType::ArithmeticRight, 0, false,),
        ShiftResult {
            value: 0xFFFF_FFFF,
            carry: true,
        }
    );
}

#[test]
fn immediate_asr_zero_clears_positive_value() {
    assert_eq!(
        shift_immediate(0x7FFF_FFFF, ShiftType::ArithmeticRight, 0, true,),
        ShiftResult {
            value: 0,
            carry: false,
        }
    );
}

#[test]
fn immediate_ror_zero_performs_rrx() {
    assert_eq!(
        shift_immediate(0x0000_0003, ShiftType::RotateRight, 0, true,),
        ShiftResult {
            value: 0x8000_0001,
            carry: true,
        }
    );
}

#[test]
fn immediate_ror_four() {
    assert_eq!(
        shift_immediate(0x0000_0001, ShiftType::RotateRight, 4, false,),
        ShiftResult {
            value: 0x1000_0000,
            carry: false,
        }
    );
}

#[test]
fn register_shift_zero_preserves_value_and_carry() {
    for shift_type in [
        ShiftType::LogicalLeft,
        ShiftType::LogicalRight,
        ShiftType::ArithmeticRight,
        ShiftType::RotateRight,
    ] {
        assert_eq!(
            shift_register(0x8123_4567, shift_type, 0, true,),
            ShiftResult {
                value: 0x8123_4567,
                carry: true,
            }
        );
    }
}

#[test]
fn register_lsl_32_uses_bit_zero_as_carry() {
    assert_eq!(
        shift_register(0x0000_0001, ShiftType::LogicalLeft, 32, false,),
        ShiftResult {
            value: 0,
            carry: true,
        }
    );
}

#[test]
fn register_lsl_above_32_clears_value_and_carry() {
    assert_eq!(
        shift_register(0xFFFF_FFFF, ShiftType::LogicalLeft, 33, true,),
        ShiftResult {
            value: 0,
            carry: false,
        }
    );
}

#[test]
fn register_lsr_32_uses_bit_31_as_carry() {
    assert_eq!(
        shift_register(0x8000_0000, ShiftType::LogicalRight, 32, false,),
        ShiftResult {
            value: 0,
            carry: true,
        }
    );
}

#[test]
fn register_lsr_above_32_clears_value_and_carry() {
    assert_eq!(
        shift_register(0xFFFF_FFFF, ShiftType::LogicalRight, 33, true,),
        ShiftResult {
            value: 0,
            carry: false,
        }
    );
}

#[test]
fn register_asr_32_sign_extends() {
    assert_eq!(
        shift_register(0x8000_0000, ShiftType::ArithmeticRight, 32, false,),
        ShiftResult {
            value: 0xFFFF_FFFF,
            carry: true,
        }
    );
}

#[test]
fn register_asr_above_32_sign_extends() {
    assert_eq!(
        shift_register(0x7FFF_FFFF, ShiftType::ArithmeticRight, 100, true,),
        ShiftResult {
            value: 0,
            carry: false,
        }
    );
}

#[test]
fn register_ror_32_preserves_value_and_uses_bit_31_as_carry() {
    assert_eq!(
        shift_register(0x8000_0001, ShiftType::RotateRight, 32, false,),
        ShiftResult {
            value: 0x8000_0001,
            carry: true,
        }
    );
}

#[test]
fn register_shift_uses_lowest_eight_bits_of_rs() {
    /*
     * 0x101 becomes shift amount 1.
     */
    assert_eq!(
        shift_register(0x8000_0000, ShiftType::LogicalLeft, 0x101, false,),
        ShiftResult {
            value: 0,
            carry: true,
        }
    );
}

#[test]
fn rotated_immediate_without_rotation_preserves_carry() {
    assert_eq!(
        expand_rotated_immediate(0x80, 0, true),
        ShiftResult {
            value: 0x0000_0080,
            carry: true,
        }
    );
}

#[test]
fn rotated_immediate_calculates_value_and_carry() {
    /*
     * ROR(0x00000080, 8) = 0x80000000
     */
    assert_eq!(
        expand_rotated_immediate(0x80, 4, false),
        ShiftResult {
            value: 0x8000_0000,
            carry: true,
        }
    );
}

