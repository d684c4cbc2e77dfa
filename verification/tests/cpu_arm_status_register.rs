use running_man_advance::cpu::arm::ArmCondition;
use running_man_advance::cpu::arm::{ProgramStatusRegister, StatusRegisterDecodeError, StatusRegisterInstruction, StatusRegisterMask, StatusRegisterOperand, decode_status_register};

#[test]
fn decodes_mrs_cpsr() {
    // MRS R0, CPSR
    assert_eq!(
        decode_status_register(0xE10F_0000),
        Ok(StatusRegisterInstruction::Mrs {
            condition: ArmCondition::Always,
            source: ProgramStatusRegister::Cpsr,
            rd: 0,
        })
    );
}

#[test]
fn decodes_mrs_spsr() {
    // MRS R1, SPSR
    assert_eq!(
        decode_status_register(0xE14F_1000),
        Ok(StatusRegisterInstruction::Mrs {
            condition: ArmCondition::Always,
            source: ProgramStatusRegister::Spsr,
            rd: 1,
        })
    );
}

#[test]
fn decodes_msr_cpsr_register() {
    // MSR CPSR_fc, R0
    let decoded = decode_status_register(0xE129_F000).unwrap();

    assert_eq!(
        decoded,
        StatusRegisterInstruction::Msr {
            condition: ArmCondition::Always,

            destination: ProgramStatusRegister::Cpsr,

            mask: StatusRegisterMask {
                control: true,
                extension: false,
                status: false,
                flags: true,
            },

            operand: StatusRegisterOperand::Register(0),
        }
    );
}

#[test]
fn decodes_msr_immediate() {
    // MSR CPSR_f, #0x80000000
    let decoded = decode_status_register(0xE328_F102).unwrap();

    match decoded {
        StatusRegisterInstruction::Msr {
            destination,
            mask,
            operand,
            ..
        } => {
            assert_eq!(destination, ProgramStatusRegister::Cpsr);

            assert!(mask.flags);
            assert!(!mask.control);

            assert_eq!(
                operand,
                StatusRegisterOperand::Immediate {
                    value: 2,
                    rotate: 1,
                }
            );
        }

        _ => panic!("expected MSR"),
    }
}

#[test]
fn rejects_pc_operand() {
    assert_eq!(
        decode_status_register(0xE129_F00F),
        Err(StatusRegisterDecodeError::ProgramCounterUsed)
    );
}

