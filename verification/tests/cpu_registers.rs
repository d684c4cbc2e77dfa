use running_man_advance::cpu::{CpuMode, Registers, SpsrAccessError};

#[test]
fn supervisor_and_irq_have_separate_stack_pointers() {
    let mut registers = Registers::new();

    assert_eq!(registers.mode(), CpuMode::Supervisor);

    registers.write(Registers::SP, 0x0300_7FE0);

    registers.cpsr_mut().set_mode(CpuMode::Irq);

    registers.write(Registers::SP, 0x0300_7FA0);

    assert_eq!(registers.read(Registers::SP), 0x0300_7FA0);

    registers.cpsr_mut().set_mode(CpuMode::Supervisor);

    assert_eq!(registers.read(Registers::SP), 0x0300_7FE0);
}

#[test]
fn user_and_system_share_sp_and_lr() {
    let mut registers = Registers::new();

    registers.cpsr_mut().set_mode(CpuMode::User);

    registers.write(Registers::SP, 0x0300_7F00);

    registers.cpsr_mut().set_mode(CpuMode::System);

    assert_eq!(registers.read(Registers::SP), 0x0300_7F00);
}

#[test]
fn fiq_has_banked_r8_to_r12() {
    let mut registers = Registers::new();

    registers.cpsr_mut().set_mode(CpuMode::System);

    registers.write(8, 0x1111_1111);
    registers.write(12, 0xCCCC_CCCC);

    registers.cpsr_mut().set_mode(CpuMode::Fiq);

    assert_eq!(registers.read(8), 0);
    assert_eq!(registers.read(12), 0);

    registers.write(8, 0x8888_8888);

    registers.cpsr_mut().set_mode(CpuMode::System);

    assert_eq!(registers.read(8), 0x1111_1111);
}

#[test]
fn exception_modes_have_distinct_spsrs() {
    let mut registers = Registers::new();

    registers.set_spsr_raw(0x1111_1111).unwrap();

    registers.cpsr_mut().set_mode(CpuMode::Irq);

    registers.set_spsr_raw(0x2222_2222).unwrap();

    assert_eq!(registers.spsr().unwrap().raw(), 0x2222_2222);

    registers.cpsr_mut().set_mode(CpuMode::Supervisor);

    assert_eq!(registers.spsr().unwrap().raw(), 0x1111_1111);
}

#[test]
fn user_mode_has_no_spsr() {
    let mut registers = Registers::new();

    registers.cpsr_mut().set_mode(CpuMode::User);

    assert_eq!(
        registers.spsr(),
        Err(SpsrAccessError::CurrentModeHasNoSpsr(CpuMode::User,))
    );
}
