use running_man_advance::cpu::arm::{
    DataProcessingDecodeError, DataProcessingOpcode, Operand2, RegisterShift, ShiftAmount,
    ShiftType, decode_data_processing,
};

use running_man_advance::cpu::arm::ArmCondition;

#[test]
fn decodes_mov_register_without_shift() {
    /*
     * MOV R0, R1
     *
     * Operand2 is encoded as R1, LSL #0.
     */
    let decoded = decode_data_processing(0xE1A0_0001).unwrap();

    assert_eq!(decoded.condition, ArmCondition::Always);
    assert_eq!(decoded.opcode, DataProcessingOpcode::Mov);
    assert!(!decoded.set_flags);
    assert_eq!(decoded.rn, 0);
    assert_eq!(decoded.rd, 0);

    assert_eq!(
        decoded.operand2,
        Operand2::Register(RegisterShift {
            rm: 1,
            shift_type: ShiftType::LogicalLeft,
            amount: ShiftAmount::Immediate(0),
        })
    );
}

#[test]
fn decodes_add_register() {
    // ADD R0, R1, R2
    let decoded = decode_data_processing(0xE081_0002).unwrap();

    assert_eq!(decoded.opcode, DataProcessingOpcode::Add);
    assert!(!decoded.set_flags);
    assert_eq!(decoded.rn, 1);
    assert_eq!(decoded.rd, 0);

    assert_eq!(
        decoded.operand2,
        Operand2::Register(RegisterShift {
            rm: 2,
            shift_type: ShiftType::LogicalLeft,
            amount: ShiftAmount::Immediate(0),
        })
    );
}

#[test]
fn decodes_add_and_set_flags() {
    // ADDS R0, R1, R2
    let decoded = decode_data_processing(0xE091_0002).unwrap();

    assert_eq!(decoded.opcode, DataProcessingOpcode::Add);
    assert!(decoded.set_flags);
    assert_eq!(decoded.rn, 1);
    assert_eq!(decoded.rd, 0);
}

#[test]
fn decodes_immediate_operand() {
    // MOV R0, #1
    let decoded = decode_data_processing(0xE3A0_0001).unwrap();

    assert_eq!(decoded.opcode, DataProcessingOpcode::Mov);

    assert_eq!(
        decoded.operand2,
        Operand2::Immediate {
            value: 1,
            rotate: 0,
        }
    );

    assert_eq!(decoded.operand2.expanded_immediate(), Some(1));
}

#[test]
fn decodes_rotated_immediate_operand() {
    /*
     * MOV R0, #0x01000000
     *
     * imm8 = 1
     * rotate = 4
     * actual rotation = 8 bits
     */
    let decoded = decode_data_processing(0xE3A0_0401).unwrap();

    assert_eq!(
        decoded.operand2,
        Operand2::Immediate {
            value: 1,
            rotate: 4,
        }
    );

    assert_eq!(decoded.operand2.expanded_immediate(), Some(0x0100_0000));
}

#[test]
fn decodes_immediate_shift() {
    // MOV R0, R1, LSL #3
    let decoded = decode_data_processing(0xE1A0_0181).unwrap();

    assert_eq!(
        decoded.operand2,
        Operand2::Register(RegisterShift {
            rm: 1,
            shift_type: ShiftType::LogicalLeft,
            amount: ShiftAmount::Immediate(3),
        })
    );
}

#[test]
fn decodes_logical_right_shift() {
    // MOV R0, R1, LSR #4
    let decoded = decode_data_processing(0xE1A0_0221).unwrap();

    assert_eq!(
        decoded.operand2,
        Operand2::Register(RegisterShift {
            rm: 1,
            shift_type: ShiftType::LogicalRight,
            amount: ShiftAmount::Immediate(4),
        })
    );
}

#[test]
fn decodes_arithmetic_right_shift() {
    // MOV R0, R1, ASR #5
    let decoded = decode_data_processing(0xE1A0_02C1).unwrap();

    assert_eq!(
        decoded.operand2,
        Operand2::Register(RegisterShift {
            rm: 1,
            shift_type: ShiftType::ArithmeticRight,
            amount: ShiftAmount::Immediate(5),
        })
    );
}

#[test]
fn decodes_rotate_right_shift() {
    // MOV R0, R1, ROR #8
    let decoded = decode_data_processing(0xE1A0_0461).unwrap();

    assert_eq!(
        decoded.operand2,
        Operand2::Register(RegisterShift {
            rm: 1,
            shift_type: ShiftType::RotateRight,
            amount: ShiftAmount::Immediate(8),
        })
    );
}

#[test]
fn decodes_register_controlled_shift() {
    // MOV R0, R1, LSL R2
    let decoded = decode_data_processing(0xE1A0_0211).unwrap();

    assert_eq!(
        decoded.operand2,
        Operand2::Register(RegisterShift {
            rm: 1,
            shift_type: ShiftType::LogicalLeft,
            amount: ShiftAmount::Register(2),
        })
    );
}

#[test]
fn decodes_cmp() {
    // CMP R1, R2
    let decoded = decode_data_processing(0xE151_0002).unwrap();

    assert_eq!(decoded.opcode, DataProcessingOpcode::Cmp);
    assert!(decoded.set_flags);
    assert_eq!(decoded.rn, 1);

    /*
     * Rd is physically present in the instruction word, but CMP
     * does not write a destination register.
     */
    assert!(!decoded.opcode.writes_result());
}

#[test]
fn decodes_conditional_instruction() {
    // ADDEQ R0, R1, R2
    let decoded = decode_data_processing(0x0081_0002).unwrap();

    assert_eq!(decoded.condition, ArmCondition::Equal);
    assert_eq!(decoded.opcode, DataProcessingOpcode::Add);
}

#[test]
fn mov_does_not_use_rn() {
    assert!(!DataProcessingOpcode::Mov.uses_rn());
    assert!(!DataProcessingOpcode::Mvn.uses_rn());
    assert!(DataProcessingOpcode::Add.uses_rn());
}

#[test]
fn rejects_non_data_processing_major_group() {
    // B instruction
    let result = decode_data_processing(0xEA00_0000);

    assert_eq!(result, Err(DataProcessingDecodeError::InvalidMajor));
}

#[test]
fn rejects_test_opcode_when_s_is_clear() {
    /*
     * Opcode 1000 with S=0 occupies a special encoding region,
     * rather than representing a normal TST instruction.
     */
    let result = decode_data_processing(0xE100_0000);

    assert_eq!(result, Err(DataProcessingDecodeError::Special));
}

#[test]
fn rejects_invalid_register_shift_overlap() {
    /*
     * Register operand with both bit 7 and bit 4 set cannot be a
     * valid data-processing register-controlled shift.
     */
    let result = decode_data_processing(0xE1A0_0091);

    assert_eq!(result, Err(DataProcessingDecodeError::InvalidRegisterShift));
}

#[test]
fn decodes_all_opcodes() {
    let expected = [
        DataProcessingOpcode::And,
        DataProcessingOpcode::Eor,
        DataProcessingOpcode::Sub,
        DataProcessingOpcode::Rsb,
        DataProcessingOpcode::Add,
        DataProcessingOpcode::Adc,
        DataProcessingOpcode::Sbc,
        DataProcessingOpcode::Rsc,
        DataProcessingOpcode::Tst,
        DataProcessingOpcode::Teq,
        DataProcessingOpcode::Cmp,
        DataProcessingOpcode::Cmn,
        DataProcessingOpcode::Orr,
        DataProcessingOpcode::Mov,
        DataProcessingOpcode::Bic,
        DataProcessingOpcode::Mvn,
    ];

    for opcode_bits in 0u8..16 {
        assert_eq!(
            DataProcessingOpcode::from_bits(opcode_bits),
            expected[opcode_bits as usize]
        );
    }
}

