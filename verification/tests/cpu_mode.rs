use running_man_advance::cpu::CpuMode;

#[test]
fn decodes_valid_modes() {
    assert_eq!(CpuMode::from_bits(0x10), Ok(CpuMode::User));

    assert_eq!(CpuMode::from_bits(0x13), Ok(CpuMode::Supervisor));

    assert_eq!(CpuMode::from_bits(0x1F), Ok(CpuMode::System));
}

#[test]
fn user_is_not_privileged() {
    assert!(!CpuMode::User.is_privileged());
    assert!(CpuMode::System.is_privileged());
    assert!(CpuMode::Supervisor.is_privileged());
}

#[test]
fn only_exception_modes_have_spsr() {
    assert!(CpuMode::Fiq.has_spsr());
    assert!(CpuMode::Irq.has_spsr());
    assert!(CpuMode::Supervisor.has_spsr());

    assert!(!CpuMode::User.has_spsr());
    assert!(!CpuMode::System.has_spsr());
}

