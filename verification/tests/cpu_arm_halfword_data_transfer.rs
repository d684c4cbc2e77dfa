use running_man_advance::cpu::arm::{
    HalfwordDataTransferDecodeError, HalfwordTransferKind, HalfwordTransferOffset,
    decode_halfword_data_transfer,
};

#[test]
fn decodes_strh_immediate() {
    // STRH R1, [R0, #4]
    let decoded = decode_halfword_data_transfer(0xE1C0_10B4).unwrap();

    assert_eq!(decoded.offset, HalfwordTransferOffset::Immediate(4));
}

#[test]
fn decodes_ldr_halfword() {
    // LDRH R1, [R0]
    let decoded = decode_halfword_data_transfer(0xE1D0_10B0).unwrap();

    assert_eq!(decoded.kind, HalfwordTransferKind::LoadHalfword);
}

#[test]
fn decodes_ldr_signed_byte() {
    // LDRSB R1, [R0]
    let decoded = decode_halfword_data_transfer(0xE1D0_10D0).unwrap();

    assert_eq!(decoded.kind, HalfwordTransferKind::LoadSignedByte);
}

#[test]
fn decodes_ldr_signed_halfword() {
    // LDRSH R1, [R0]
    let decoded = decode_halfword_data_transfer(0xE1D0_10F0).unwrap();

    assert_eq!(decoded.kind, HalfwordTransferKind::LoadSignedHalfword);
}

#[test]
fn decodes_register_offset() {
    /*
     * LDRH R1, [R0, R2]
     */
    let decoded = decode_halfword_data_transfer(0xE190_10B2).unwrap();

    assert_eq!(decoded.offset, HalfwordTransferOffset::Register(2));
}

#[test]
fn halfword_data_transfer_decodes_negative_offset() {
    // LDRH R1, [R0, #-4]
    let decoded = decode_halfword_data_transfer(0xE150_10B4).unwrap();

    assert!(!decoded.add_offset);
}

#[test]
fn halfword_data_transfer_decodes_pre_index_writeback() {
    // LDRH R1, [R0, #4]!
    let decoded = decode_halfword_data_transfer(0xE1F0_10B4).unwrap();

    assert!(decoded.pre_index);
    assert!(decoded.write_back);
}

#[test]
fn halfword_data_transfer_decodes_post_index() {
    // LDRH R1, [R0], #4
    let decoded = decode_halfword_data_transfer(0xE0D0_10B4).unwrap();

    assert!(!decoded.pre_index);
    assert!(decoded.write_back);
}

#[test]
fn rejects_signed_store_encoding() {
    let result = decode_halfword_data_transfer(0xE1C0_10D0);

    assert_eq!(
        result,
        Err(HalfwordDataTransferDecodeError::InvalidOperation)
    );
}

#[test]
fn rejects_pc_as_register_offset() {
    let result = decode_halfword_data_transfer(0xE190_10BF);

    assert_eq!(
        result,
        Err(HalfwordDataTransferDecodeError::ProgramCounterAsOffsetRegister)
    );
}

