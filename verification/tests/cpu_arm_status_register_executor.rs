use running_man_advance::cpu::Cpsr;
use running_man_advance::cpu::arm::{ProgramStatusRegister, StatusRegisterExecutionError, StatusRegisterInstruction, StatusRegisterMask, StatusRegisterOperand, execute_status_register};

use running_man_advance::cpu::arm::ArmCondition;
use running_man_advance::cpu::{CpuMode, Registers};

#[test]
fn mrs_reads_cpsr() {
    let mut registers = Registers::new();

    registers.cpsr_mut().set_zero(true);

    execute_status_register(
        &mut registers,
        StatusRegisterInstruction::Mrs {
            condition: ArmCondition::Always,
            source: ProgramStatusRegister::Cpsr,
            rd: 0,
        },
    )
    .unwrap();

    assert_eq!(registers.read(0), registers.cpsr().raw());
}

#[test]
fn mrs_reads_current_modes_spsr() {
    let mut registers = Registers::new();

    registers.set_spsr_raw(0x6000_0010).unwrap();

    execute_status_register(
        &mut registers,
        StatusRegisterInstruction::Mrs {
            condition: ArmCondition::Always,
            source: ProgramStatusRegister::Spsr,
            rd: 1,
        },
    )
    .unwrap();

    assert_eq!(registers.read(1), 0x6000_0010);
}

#[test]
fn user_mode_can_write_flags_but_not_control() {
    let mut registers = Registers::new();

    registers.cpsr_mut().set_mode(CpuMode::User);

    registers.write(0, 0xF000_0013);

    execute_status_register(
        &mut registers,
        StatusRegisterInstruction::Msr {
            condition: ArmCondition::Always,

            destination: ProgramStatusRegister::Cpsr,

            mask: StatusRegisterMask {
                control: true,
                extension: false,
                status: false,
                flags: true,
            },

            operand: StatusRegisterOperand::Register(0),
        },
    )
    .unwrap();

    assert_eq!(registers.mode(), CpuMode::User);

    assert_eq!(registers.cpsr().raw() & 0xF000_0000, 0xF000_0000);
}

#[test]
fn privileged_msr_can_switch_mode() {
    let mut registers = Registers::new();

    registers.write(Registers::SP, 0x0300_7FE0);

    registers.cpsr_mut().set_mode(CpuMode::Irq);

    registers.write(Registers::SP, 0x0300_7FA0);

    registers.cpsr_mut().set_mode(CpuMode::Supervisor);

    registers.write(0, CpuMode::Irq.bits());

    execute_status_register(
        &mut registers,
        StatusRegisterInstruction::Msr {
            condition: ArmCondition::Always,

            destination: ProgramStatusRegister::Cpsr,

            mask: StatusRegisterMask {
                control: true,
                extension: false,
                status: false,
                flags: false,
            },

            operand: StatusRegisterOperand::Register(0),
        },
    )
    .unwrap();

    assert_eq!(registers.mode(), CpuMode::Irq);

    assert_eq!(registers.read(Registers::SP), 0x0300_7FA0);
}

#[test]
fn msr_preserves_thumb_bit() {
    let mut registers = Registers::new();

    registers.cpsr_mut().set_thumb_state(false);

    registers.write(0, Cpsr::THUMB_STATE_MASK | CpuMode::Supervisor.bits());

    execute_status_register(
        &mut registers,
        StatusRegisterInstruction::Msr {
            condition: ArmCondition::Always,
            destination: ProgramStatusRegister::Cpsr,

            mask: StatusRegisterMask {
                control: true,
                extension: false,
                status: false,
                flags: false,
            },

            operand: StatusRegisterOperand::Register(0),
        },
    )
    .unwrap();

    assert!(!registers.cpsr().thumb_state());
}

#[test]
fn system_mode_cannot_access_spsr() {
    let mut registers = Registers::new();

    registers.cpsr_mut().set_mode(CpuMode::System);

    let result = execute_status_register(
        &mut registers,
        StatusRegisterInstruction::Mrs {
            condition: ArmCondition::Always,
            source: ProgramStatusRegister::Spsr,
            rd: 0,
        },
    );

    assert!(matches!(
        result,
        Err(StatusRegisterExecutionError::SpsrUnavailable(_))
    ));
}

