use running_man_advance::cpu::arm::{
    SingleDataTransferDecodeError, SingleDataTransferInstruction, TransferOffset,
    decode_single_data_transfer,
};

use running_man_advance::cpu::arm::{ArmCondition, ShiftType};

#[test]
fn decodes_ldr_immediate_offset() {
    // LDR R0, [R1, #4]
    assert_eq!(
        decode_single_data_transfer(0xE591_0004),
        Ok(SingleDataTransferInstruction {
            condition: ArmCondition::Always,
            pre_index: true,
            add_offset: true,
            byte: false,
            write_back: false,
            force_user_mode: false,
            load: true,
            rn: 1,
            rd: 0,
            offset: TransferOffset::Immediate(4),
        })
    );
}

#[test]
fn decodes_str_immediate_offset() {
    // STR R0, [R1, #4]
    let decoded = decode_single_data_transfer(0xE581_0004).unwrap();

    assert!(!decoded.load);
    assert!(!decoded.byte);
    assert_eq!(decoded.rn, 1);
    assert_eq!(decoded.rd, 0);
}

#[test]
fn decodes_ldrb() {
    // LDRB R0, [R1]
    let decoded = decode_single_data_transfer(0xE5D1_0000).unwrap();

    assert!(decoded.load);
    assert!(decoded.byte);
}

#[test]
fn decodes_strb() {
    // STRB R0, [R1]
    let decoded = decode_single_data_transfer(0xE5C1_0000).unwrap();

    assert!(!decoded.load);
    assert!(decoded.byte);
}

#[test]
fn single_data_transfer_decodes_negative_offset() {
    // LDR R0, [R1, #-4]
    let decoded = decode_single_data_transfer(0xE511_0004).unwrap();

    assert!(!decoded.add_offset);
    assert_eq!(decoded.offset, TransferOffset::Immediate(4));
}

#[test]
fn single_data_transfer_decodes_pre_index_writeback() {
    // LDR R0, [R1, #4]!
    let decoded = decode_single_data_transfer(0xE5B1_0004).unwrap();

    assert!(decoded.pre_index);
    assert!(decoded.write_back);
    assert!(!decoded.force_user_mode);
}

#[test]
fn single_data_transfer_decodes_post_index() {
    // LDR R0, [R1], #4
    let decoded = decode_single_data_transfer(0xE491_0004).unwrap();

    assert!(!decoded.pre_index);
    assert!(decoded.write_back);
    assert!(!decoded.force_user_mode);
}

#[test]
fn decodes_post_index_user_mode_variant() {
    // LDRT R0, [R1], #4
    let decoded = decode_single_data_transfer(0xE4B1_0004).unwrap();

    assert!(!decoded.pre_index);
    assert!(decoded.write_back);
    assert!(decoded.force_user_mode);
}

#[test]
fn decodes_shifted_register_offset() {
    // LDR R0, [R1, R2, LSL #2]
    let decoded = decode_single_data_transfer(0xE791_0102).unwrap();

    assert_eq!(
        decoded.offset,
        TransferOffset::ShiftedRegister {
            rm: 2,
            shift_type: ShiftType::LogicalLeft,
            shift_amount: 2,
        }
    );
}

#[test]
fn rejects_register_controlled_shift() {
    /*
     * Bit 4 set is invalid for single-data-transfer
     * register offset.
     */
    assert_eq!(
        decode_single_data_transfer(0xE791_0012),
        Err(SingleDataTransferDecodeError::InvalidRegisterOffset)
    );
}

#[test]
fn rejects_pc_as_offset_register() {
    assert_eq!(
        decode_single_data_transfer(0xE791_000F),
        Err(SingleDataTransferDecodeError::ProgramCounterAsOffsetRegister)
    );
}

#[test]
fn rejects_non_transfer_instruction() {
    assert_eq!(
        decode_single_data_transfer(0xE1A0_0000),
        Err(SingleDataTransferDecodeError::InvalidEncoding)
    );
}

