use running_man_advance::cpu::arm::{ArmInstruction, decode_arm};

use running_man_advance::cpu::arm::{ArmCondition, BranchInstruction, DataProcessingOpcode, Operand2};

#[test]
fn decodes_data_processing_instruction() {
    // MOV R0, #1
    let instruction = decode_arm(0xE3A0_0001).unwrap();

    match instruction {
        ArmInstruction::DataProcessing(decoded) => {
            assert_eq!(decoded.condition, ArmCondition::Always);

            assert_eq!(decoded.opcode, DataProcessingOpcode::Mov);

            assert_eq!(decoded.rd, 0);

            assert_eq!(
                decoded.operand2,
                Operand2::Immediate {
                    value: 1,
                    rotate: 0,
                }
            );
        }

        other => {
            panic!("expected data-processing instruction, got {other:?}");
        }
    }
}

#[test]
fn decodes_typed_branch_exchange() {
    let instruction = decode_arm(0xE12F_FF1E).unwrap();

    assert_eq!(
        instruction,
        ArmInstruction::BranchExchange(running_man_advance::cpu::arm::BranchExchangeInstruction {
            condition: ArmCondition::Always,
            register: 14,
        })
    );
}

#[test]
fn decodes_software_interrupt_comment() {
    let instruction = decode_arm(0xEF12_3456).unwrap();

    assert_eq!(
        instruction,
        ArmInstruction::SoftwareInterrupt {
            condition: ArmCondition::Always,
            comment: 0x0012_3456,
        }
    );
}

#[test]
fn preserves_condition_for_non_data_processing_instruction() {
    // BNE
    let instruction = decode_arm(0x1A00_0000).unwrap();

    assert_eq!(instruction.condition(), ArmCondition::NotEqual);
}

#[test]
fn returns_undefined_instruction() {
    /*
     * Major group 011 with bit 4 set.
     */
    let raw = 0xE791_0012;

    let instruction = decode_arm(raw).unwrap();

    assert_eq!(
        instruction,
        ArmInstruction::Undefined {
            condition: ArmCondition::Always,
            raw,
        }
    );
}

#[test]
fn decodes_typed_branch_instruction() {
    // BL with displacement +4.
    let instruction = decode_arm(0xEB00_0001).unwrap();

    assert_eq!(
        instruction,
        ArmInstruction::Branch(BranchInstruction {
            condition: ArmCondition::Always,
            link: true,
            offset: 4,
        })
    );
}

