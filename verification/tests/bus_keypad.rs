use running_man_advance::bus::{Key, KeyControl, Keypad, KeypadInterruptCondition};

use running_man_advance::bus::InterruptSource;

#[test]
fn all_keys_start_released() {
    let keypad = Keypad::new();

    assert_eq!(keypad.key_input(), 0x03FF,);

    assert_eq!(keypad.pressed_mask(), 0,);
}

#[test]
fn pressed_key_reads_as_zero() {
    let mut keypad = Keypad::new();

    keypad.set_key(Key::A, true);

    assert_eq!(keypad.key_input() & Key::A.mask(), 0,);

    assert_ne!(keypad.key_input() & Key::B.mask(), 0,);
}

#[test]
fn key_control_decodes_any_condition() {
    let control = KeyControl::from_raw(Key::A.mask() | (1 << 14));

    assert_eq!(control.condition(), KeypadInterruptCondition::Any,);

    assert!(control.irq_enabled());
}

#[test]
fn any_selected_key_can_request_interrupt() {
    let mut keypad = Keypad::new();

    keypad.write_control(Key::A.mask() | Key::B.mask() | (1 << 14));

    let result = keypad.set_key(Key::B, true);

    assert_ne!(
        result.interrupt_requests & InterruptSource::Keypad.mask(),
        0,
    );
}

#[test]
fn all_condition_requires_every_selected_key() {
    let mut keypad = Keypad::new();

    keypad.write_control(Key::A.mask() | Key::B.mask() | (1 << 14) | (1 << 15));

    let first = keypad.set_key(Key::A, true);

    assert_eq!(first.interrupt_requests, 0,);

    let second = keypad.set_key(Key::B, true);

    assert_ne!(
        second.interrupt_requests & InterruptSource::Keypad.mask(),
        0,
    );
}

#[test]
fn held_key_does_not_repeatedly_request_interrupt() {
    let mut keypad = Keypad::new();

    keypad.write_control(Key::A.mask() | (1 << 14));

    let first = keypad.set_key(Key::A, true);

    let second = keypad.set_key(Key::A, true);

    assert_ne!(first.interrupt_requests, 0,);

    assert_eq!(second.interrupt_requests, 0,);
}

#[test]
fn condition_can_trigger_again_after_becoming_false() {
    let mut keypad = Keypad::new();

    keypad.write_control(Key::A.mask() | (1 << 14));

    assert_ne!(keypad.set_key(Key::A, true).interrupt_requests, 0,);

    keypad.set_key(Key::A, false);

    assert_ne!(keypad.set_key(Key::A, true).interrupt_requests, 0,);
}

