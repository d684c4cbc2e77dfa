use running_man_advance::cpu::arm::{
    BlockAddressingMode, BlockDataTransferDecodeError, RegisterList, decode_block_data_transfer,
};

use running_man_advance::cpu::arm::ArmCondition;

#[test]
fn register_list_reports_membership_and_count() {
    let list = RegisterList::new((1 << 0) | (1 << 3) | (1 << 14));

    assert!(list.contains(0));
    assert!(list.contains(3));
    assert!(list.contains(14));
    assert!(!list.contains(1));
    assert_eq!(list.count(), 3);
}

#[test]
fn decodes_stmia() {
    /*
     * STMIA R0!, {R1, R2}
     */
    let decoded = decode_block_data_transfer(0xE8A0_0006).unwrap();

    assert_eq!(decoded.condition, ArmCondition::Always);
    assert_eq!(decoded.addressing_mode, BlockAddressingMode::IncrementAfter);

    assert!(!decoded.load);
    assert!(decoded.write_back);
    assert_eq!(decoded.rn, 0);
    assert!(decoded.registers.contains(1));
    assert!(decoded.registers.contains(2));
    assert_eq!(decoded.registers.count(), 2);
}

#[test]
fn decodes_ldmia() {
    // LDMIA R0!, {R1, R2}
    let decoded = decode_block_data_transfer(0xE8B0_0006).unwrap();

    assert!(decoded.load);
    assert!(decoded.write_back);

    assert_eq!(decoded.addressing_mode, BlockAddressingMode::IncrementAfter);
}

#[test]
fn decodes_stmdb_stack_push() {
    /*
     * STMDB SP!, {R4-R7, LR}
     *
     * Equivalent stack alias:
     * STMFD SP!, {R4-R7, LR}
     */
    let decoded = decode_block_data_transfer(0xE92D_40F0).unwrap();

    assert!(!decoded.load);
    assert!(decoded.write_back);
    assert_eq!(decoded.rn, 13);

    assert_eq!(
        decoded.addressing_mode,
        BlockAddressingMode::DecrementBefore
    );

    for register in 4..=7 {
        assert!(decoded.registers.contains(register));
    }

    assert!(decoded.registers.contains(14));
    assert_eq!(decoded.registers.count(), 5);
}

#[test]
fn decodes_ldmia_stack_pop() {
    /*
     * LDMIA SP!, {R4-R7, PC}
     *
     * Equivalent stack alias:
     * LDMFD SP!, {R4-R7, PC}
     */
    let decoded = decode_block_data_transfer(0xE8BD_80F0).unwrap();

    assert!(decoded.load);
    assert!(decoded.write_back);
    assert_eq!(decoded.rn, 13);

    assert_eq!(decoded.addressing_mode, BlockAddressingMode::IncrementAfter);

    assert!(decoded.registers.contains(15));
}

#[test]
fn decodes_increment_before() {
    let decoded = decode_block_data_transfer(0xE9A0_0006).unwrap();

    assert_eq!(
        decoded.addressing_mode,
        BlockAddressingMode::IncrementBefore
    );
}

#[test]
fn decodes_decrement_after() {
    let decoded = decode_block_data_transfer(0xE820_0006).unwrap();

    assert_eq!(decoded.addressing_mode, BlockAddressingMode::DecrementAfter);
}

#[test]
fn preserves_s_bit() {
    let decoded = decode_block_data_transfer(0xE8E0_0006).unwrap();

    assert!(decoded.psr_or_user_mode);
}

#[test]
fn rejects_empty_register_list() {
    assert_eq!(
        decode_block_data_transfer(0xE8A0_0000),
        Err(BlockDataTransferDecodeError::EmptyRegisterList)
    );
}

#[test]
fn rejects_non_block_transfer() {
    assert_eq!(
        decode_block_data_transfer(0xE1A0_0000),
        Err(BlockDataTransferDecodeError::InvalidEncoding)
    );
}

