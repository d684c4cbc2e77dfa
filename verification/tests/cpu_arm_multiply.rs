use running_man_advance::cpu::arm::{MultiplyDecodeError, MultiplyInstruction, decode_multiply};

use running_man_advance::cpu::arm::ArmCondition;

#[test]
fn decodes_mul() {
    /*
     * MUL R0, R1, R2
     *
     * Rd = R0
     * Rm = R1
     * Rs = R2
     */
    assert_eq!(
        decode_multiply(0xE000_0291),
        Ok(MultiplyInstruction {
            condition: ArmCondition::Always,
            accumulate: false,
            set_flags: false,
            rd: 0,
            rn: 0,
            rs: 2,
            rm: 1,
        })
    );
}

#[test]
fn decodes_muls() {
    // MULS R0, R1, R2
    let decoded = decode_multiply(0xE010_0291).unwrap();

    assert!(!decoded.accumulate);
    assert!(decoded.set_flags);
}

#[test]
fn decodes_mla() {
    /*
     * MLA R0, R1, R2, R3
     *
     * R0 = R1 * R2 + R3
     */
    assert_eq!(
        decode_multiply(0xE020_3291),
        Ok(MultiplyInstruction {
            condition: ArmCondition::Always,
            accumulate: true,
            set_flags: false,
            rd: 0,
            rn: 3,
            rs: 2,
            rm: 1,
        })
    );
}

#[test]
fn decodes_mlas() {
    // MLAS R0, R1, R2, R3
    let decoded = decode_multiply(0xE030_3291).unwrap();

    assert!(decoded.accumulate);
    assert!(decoded.set_flags);
}

#[test]
fn multiply_preserves_condition() {
    // MULNE R0, R1, R2
    let decoded = decode_multiply(0x1000_0291).unwrap();

    assert_eq!(decoded.condition, ArmCondition::NotEqual);
}

#[test]
fn rejects_non_multiply_encoding() {
    assert_eq!(
        decode_multiply(0xE1A0_0000),
        Err(MultiplyDecodeError::InvalidEncoding)
    );
}

#[test]
fn rejects_non_zero_rn_for_mul() {
    /*
     * A=0 means MUL, so Rn is an unused field and must be zero.
     */
    assert_eq!(
        decode_multiply(0xE000_1291),
        Err(MultiplyDecodeError::NonZeroAccumulateRegisterForMul)
    );
}

#[test]
fn rejects_program_counter() {
    // MUL R0, PC, R2
    assert_eq!(
        decode_multiply(0xE000_029F),
        Err(MultiplyDecodeError::ProgramCounterUsed)
    );
}

#[test]
fn rejects_rd_equal_to_rm() {
    // MUL R1, R1, R2
    assert_eq!(
        decode_multiply(0xE001_0291),
        Err(MultiplyDecodeError::DestinationEqualsMultiplier)
    );
}

