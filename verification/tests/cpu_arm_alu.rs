use running_man_advance::cpu::arm::{AddResult, AluFlags, add_with_carry, logical_flags};

#[test]
fn adds_two_values() {
    assert_eq!(
        add_with_carry(1, 2, false),
        AddResult {
            value: 3,
            flags: AluFlags {
                negative: false,
                zero: false,
                carry: false,
                overflow: false,
            },
        }
    );
}

#[test]
fn addition_can_produce_unsigned_carry() {
    assert_eq!(
        add_with_carry(0xFFFF_FFFF, 1, false),
        AddResult {
            value: 0,
            flags: AluFlags {
                negative: false,
                zero: true,
                carry: true,
                overflow: false,
            },
        }
    );
}

#[test]
fn addition_can_produce_signed_overflow() {
    /*
     * i32::MAX + 1 = i32::MIN
     */
    assert_eq!(
        add_with_carry(0x7FFF_FFFF, 1, false),
        AddResult {
            value: 0x8000_0000,
            flags: AluFlags {
                negative: true,
                zero: false,
                carry: false,
                overflow: true,
            },
        }
    );
}

#[test]
fn adding_two_negative_values_can_overflow() {
    /*
     * i32::MIN + (-1) wraps to i32::MAX.
     */
    assert_eq!(
        add_with_carry(0x8000_0000, 0xFFFF_FFFF, false,),
        AddResult {
            value: 0x7FFF_FFFF,
            flags: AluFlags {
                negative: false,
                zero: false,
                carry: true,
                overflow: true,
            },
        }
    );
}

#[test]
fn carry_in_participates_in_addition() {
    assert_eq!(add_with_carry(1, 2, true).value, 4);
}

#[test]
fn subtraction_without_borrow() {
    /*
     * 5 - 3
     *
     * 5 + NOT(3) + 1
     */
    let result = add_with_carry(5, !3, true);

    assert_eq!(result.value, 2);

    /*
     * C=1 means no unsigned borrow.
     */
    assert!(result.flags.carry);
    assert!(!result.flags.overflow);
}

#[test]
fn subtraction_with_borrow() {
    /*
     * 3 - 5 wraps to 0xFFFF_FFFE.
     */
    let result = add_with_carry(3, !5, true);

    assert_eq!(result.value, 0xFFFF_FFFE);

    /*
     * C=0 means an unsigned borrow occurred.
     */
    assert!(!result.flags.carry);
    assert!(result.flags.negative);
}

#[test]
fn subtraction_can_produce_signed_overflow() {
    /*
     * i32::MIN - 1 wraps to i32::MAX.
     */
    let result = add_with_carry(0x8000_0000, !1, true);

    assert_eq!(result.value, 0x7FFF_FFFF);
    assert!(result.flags.overflow);
}

#[test]
fn subtraction_of_equal_values_is_zero_without_borrow() {
    let result = add_with_carry(0x1234_5678, !0x1234_5678, true);

    assert_eq!(result.value, 0);
    assert!(result.flags.zero);
    assert!(result.flags.carry);
}

#[test]
fn sbc_with_carry_set_has_no_extra_borrow() {
    /*
     * C=1:
     *
     * 5 - 3 - NOT(C)
     * = 5 - 3
     */
    let result = add_with_carry(5, !3, true);

    assert_eq!(result.value, 2);
}

#[test]
fn sbc_with_carry_clear_subtracts_one_more() {
    /*
     * C=0:
     *
     * 5 - 3 - 1
     */
    let result = add_with_carry(5, !3, false);

    assert_eq!(result.value, 1);
}

#[test]
fn logical_flags_use_shifter_carry_and_preserve_overflow() {
    assert_eq!(
        logical_flags(0x8000_0000, true, true,),
        AluFlags {
            negative: true,
            zero: false,
            carry: true,
            overflow: true,
        }
    );
}

#[test]
fn logical_zero_result_sets_zero_flag() {
    assert_eq!(
        logical_flags(0, false, true),
        AluFlags {
            negative: false,
            zero: true,
            carry: false,
            overflow: true,
        }
    );
}

