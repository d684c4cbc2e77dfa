use running_man_advance::cpu::arm::{BranchExchangeDecodeError, BranchExchangeInstruction, decode_branch_exchange};

use running_man_advance::cpu::arm::ArmCondition;

#[test]
fn decodes_bx_lr() {
    assert_eq!(
        decode_branch_exchange(0xE12F_FF1E),
        Ok(BranchExchangeInstruction {
            condition: ArmCondition::Always,
            register: 14,
        })
    );
}

#[test]
fn decodes_bx_r0() {
    assert_eq!(
        decode_branch_exchange(0xE12F_FF10),
        Ok(BranchExchangeInstruction {
            condition: ArmCondition::Always,
            register: 0,
        })
    );
}

#[test]
fn branch_exchange_preserves_condition() {
    assert_eq!(
        decode_branch_exchange(0x112F_FF10).unwrap().condition,
        ArmCondition::NotEqual
    );
}

#[test]
fn rejects_non_bx_instruction() {
    assert_eq!(
        decode_branch_exchange(0xE1A0_0000),
        Err(BranchExchangeDecodeError::InvalidEncoding)
    );
}

