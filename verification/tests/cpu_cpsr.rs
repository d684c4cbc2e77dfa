use running_man_advance::cpu::{Cpsr, CpuMode};

#[test]
fn new_cpsr_starts_in_supervisor_mode() {
    let cpsr = Cpsr::new();

    assert_eq!(cpsr.mode(), Ok(CpuMode::Supervisor));

    assert!(cpsr.irq_disabled());
    assert!(cpsr.fiq_disabled());
    assert!(!cpsr.thumb_state());
}

#[test]
fn flags_are_clear_by_default() {
    let cpsr = Cpsr::new();

    assert!(!cpsr.negative());
    assert!(!cpsr.zero());
    assert!(!cpsr.carry());
    assert!(!cpsr.overflow());
}

#[test]
fn can_set_and_clear_individual_flags() {
    let mut cpsr = Cpsr::new();

    cpsr.set_negative(true);

    assert!(cpsr.negative());
    assert_eq!(cpsr.raw() & Cpsr::CONDITION_FLAGS_MASK, Cpsr::NEGATIVE_MASK,);

    cpsr.set_zero(true);

    assert!(cpsr.zero());
    assert_eq!(
        cpsr.raw() & Cpsr::CONDITION_FLAGS_MASK,
        Cpsr::NEGATIVE_MASK | Cpsr::ZERO_MASK,
    );

    cpsr.set_carry(true);

    assert!(cpsr.carry());
    assert_eq!(
        cpsr.raw() & Cpsr::CONDITION_FLAGS_MASK,
        Cpsr::NEGATIVE_MASK | Cpsr::ZERO_MASK | Cpsr::CARRY_MASK,
    );

    cpsr.set_overflow(true);

    assert!(cpsr.overflow());
    assert_eq!(
        cpsr.raw() & Cpsr::CONDITION_FLAGS_MASK,
        Cpsr::CONDITION_FLAGS_MASK,
    );

    cpsr.set_negative(false);
    cpsr.set_zero(false);
    cpsr.set_carry(false);
    cpsr.set_overflow(false);

    assert!(!cpsr.negative());
    assert!(!cpsr.zero());
    assert!(!cpsr.carry());
    assert!(!cpsr.overflow());

    assert_eq!(cpsr.raw() & Cpsr::CONDITION_FLAGS_MASK, 0,);

    /*
     * Clearing condition flags must not destroy control-state bits.
     */
    assert_eq!(cpsr.mode(), Ok(CpuMode::Supervisor),);

    assert!(cpsr.irq_disabled());
    assert!(cpsr.fiq_disabled());
}

#[test]
fn changing_flags_preserves_other_bits() {
    let mut cpsr = Cpsr::from_raw(0x0000_001F);

    cpsr.set_zero(true);

    assert_eq!(cpsr.raw(), 0x4000_001F);

    cpsr.set_zero(false);

    assert_eq!(cpsr.raw(), 0x0000_001F);
}

#[test]
fn can_set_all_condition_flags_together() {
    let mut cpsr = Cpsr::new();

    let control_bits = cpsr.raw() & !Cpsr::CONDITION_FLAGS_MASK;

    cpsr.set_nzcv(true, false, true, false);

    assert_eq!(
        cpsr.raw() & Cpsr::CONDITION_FLAGS_MASK,
        Cpsr::NEGATIVE_MASK | Cpsr::CARRY_MASK,
    );

    assert_eq!(cpsr.raw() & !Cpsr::CONDITION_FLAGS_MASK, control_bits,);
}

#[test]
fn reads_flags_from_raw_value() {
    let cpsr = Cpsr::from_raw(0x9000_0000);

    assert!(cpsr.negative());
    assert!(!cpsr.zero());
    assert!(!cpsr.carry());
    assert!(cpsr.overflow());
}

#[test]
fn can_set_thumb_state_bit() {
    let mut cpsr = Cpsr::new();

    assert!(!cpsr.thumb_state());

    cpsr.set_thumb_state(true);

    assert!(cpsr.thumb_state());
    assert_eq!(cpsr.raw() & Cpsr::THUMB_STATE_MASK, Cpsr::THUMB_STATE_MASK);

    cpsr.set_thumb_state(false);

    assert!(!cpsr.thumb_state());
}

