use running_man_advance::bus::{InterruptController, InterruptSource};

#[test]
fn starts_disabled() {
    let controller = InterruptController::new();

    assert_eq!(controller.interrupt_enable(), 0);

    assert_eq!(controller.interrupt_flags(), 0);

    assert!(!controller.master_enable());
    assert!(!controller.irq_line());
}

#[test]
fn request_sets_interrupt_flag() {
    let mut controller = InterruptController::new();

    controller.request(InterruptSource::Timer0);

    assert_eq!(controller.interrupt_flags(), InterruptSource::Timer0.mask());
}

#[test]
fn irq_requires_matching_ie_if_and_ime() {
    let mut controller = InterruptController::new();

    controller.request(InterruptSource::Timer0);

    assert!(!controller.irq_line());

    controller.set_interrupt_enable(InterruptSource::Timer0.mask());

    assert!(!controller.irq_line());

    controller.set_master_enable(1);

    assert!(controller.irq_line());
}

#[test]
fn unrelated_enabled_source_does_not_raise_irq() {
    let mut controller = InterruptController::new();

    controller.request(InterruptSource::Timer0);

    controller.set_interrupt_enable(InterruptSource::VBlank.mask());

    controller.set_master_enable(1);

    assert!(!controller.irq_line());
}

#[test]
fn acknowledge_is_write_one_to_clear() {
    let mut controller = InterruptController::new();

    controller.request(InterruptSource::VBlank);

    controller.request(InterruptSource::Timer0);

    controller.acknowledge(InterruptSource::VBlank.mask());

    assert_eq!(controller.interrupt_flags(), InterruptSource::Timer0.mask());
}

#[test]
fn writing_zero_clears_nothing() {
    let mut controller = InterruptController::new();

    controller.request(InterruptSource::Timer0);

    controller.acknowledge(0);

    assert_eq!(controller.interrupt_flags(), InterruptSource::Timer0.mask());
}

#[test]
fn ime_uses_only_bit_zero() {
    let mut controller = InterruptController::new();

    controller.set_master_enable(0xFFFE);

    assert!(!controller.master_enable());

    controller.set_master_enable(0xFFFF);

    assert!(controller.master_enable());
}

#[test]
fn unsupported_bits_are_masked() {
    let mut controller = InterruptController::new();

    controller.set_interrupt_enable(0xFFFF);

    controller.request_mask(0xFFFF);

    assert_eq!(
        controller.interrupt_enable(),
        InterruptController::SUPPORTED_MASK
    );

    assert_eq!(
        controller.interrupt_flags(),
        InterruptController::SUPPORTED_MASK
    );
}

