use running_man_advance::cpu::arm::{MultiplyLongDecodeError, MultiplyLongInstruction, decode_multiply_long};

use running_man_advance::cpu::arm::ArmCondition;

#[test]
fn decodes_umull() {
    /*
     * UMULL R0, R1, R2, R3
     *
     * RdLo = R0
     * RdHi = R1
     * Rm   = R2
     * Rs   = R3
     */
    assert_eq!(
        decode_multiply_long(0xE081_0392),
        Ok(MultiplyLongInstruction {
            condition: ArmCondition::Always,
            signed: false,
            accumulate: false,
            set_flags: false,
            rd_hi: 1,
            rd_lo: 0,
            rs: 3,
            rm: 2,
        })
    );
}

#[test]
fn decodes_umlal() {
    let decoded = decode_multiply_long(0xE0A1_0392).unwrap();

    assert!(!decoded.signed);
    assert!(decoded.accumulate);
    assert!(!decoded.set_flags);
}

#[test]
fn decodes_smull() {
    let decoded = decode_multiply_long(0xE0C1_0392).unwrap();

    assert!(decoded.signed);
    assert!(!decoded.accumulate);
    assert!(!decoded.set_flags);
}

#[test]
fn decodes_smlal() {
    let decoded = decode_multiply_long(0xE0E1_0392).unwrap();

    assert!(decoded.signed);
    assert!(decoded.accumulate);
}

#[test]
fn decodes_flag_setting_variant() {
    // UMULLS R0, R1, R2, R3
    let decoded = decode_multiply_long(0xE091_0392).unwrap();

    assert!(decoded.set_flags);
}

#[test]
fn multiply_long_preserves_condition() {
    // UMULLNE R0, R1, R2, R3
    let decoded = decode_multiply_long(0x1081_0392).unwrap();

    assert_eq!(decoded.condition, ArmCondition::NotEqual);
}

#[test]
fn rejects_pc_usage() {
    /*
     * UMULL R0, R1, PC, R3
     */
    assert_eq!(
        decode_multiply_long(0xE081_039F),
        Err(MultiplyLongDecodeError::ProgramCounterUsed)
    );
}

#[test]
fn rejects_equal_destination_registers() {
    /*
     * RdLo = R1
     * RdHi = R1
     */
    assert_eq!(
        decode_multiply_long(0xE081_1392),
        Err(MultiplyLongDecodeError::DestinationRegistersEqual)
    );
}

#[test]
fn rejects_non_multiply_long_encoding() {
    assert_eq!(
        decode_multiply_long(0xE1A0_0000),
        Err(MultiplyLongDecodeError::InvalidEncoding)
    );
}

