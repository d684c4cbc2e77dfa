use vstd::prelude::*;

use super::interrupt::{source_mask, InterruptSource};

verus! {

/// The ten GBA buttons, each one bit of KEYINPUT and KEYCNT.
#[derive(Debug, Clone, Copy, PartialEq, Eq, Structural)]
pub enum Key {
    A,
    B,
    Select,
    Start,
    Right,
    Left,
    Up,
    Down,
    R,
    L,
}

pub open spec fn key_mask(key: Key) -> u16 {
    match key {
        Key::A => 0x001,
        Key::B => 0x002,
        Key::Select => 0x004,
        Key::Start => 0x008,
        Key::Right => 0x010,
        Key::Left => 0x020,
        Key::Up => 0x040,
        Key::Down => 0x080,
        Key::R => 0x100,
        Key::L => 0x200,
    }
}

impl Key {
    pub fn mask(self) -> (r: u16)
        ensures
            r == key_mask(self),
    {
        match self {
            Key::A => 0x001,
            Key::B => 0x002,
            Key::Select => 0x004,
            Key::Start => 0x008,
            Key::Right => 0x010,
            Key::Left => 0x020,
            Key::Up => 0x040,
            Key::Down => 0x080,
            Key::R => 0x100,
            Key::L => 0x200,
        }
    }
}

#[derive(Debug, Clone, Copy, PartialEq, Eq, Structural)]
pub enum KeypadInterruptCondition {
    Any,
    All,
}

/// KEYCNT: selected keys, IRQ enable (bit 14) and AND condition (bit 15).
#[derive(Debug, Clone, Copy, PartialEq, Eq, Structural)]
pub struct KeyControl {
    pub raw: u16,
}

impl KeyControl {
    pub const KEY_MASK: u16 = 0x03FF;
    pub const IRQ_ENABLE_MASK: u16 = 0x4000;
    pub const CONDITION_MASK: u16 = 0x8000;
    pub const WRITABLE_MASK: u16 = 0xC3FF;

    pub open spec fn spec_condition(self) -> KeypadInterruptCondition {
        if self.raw & 0x8000 != 0 {
            KeypadInterruptCondition::All
        } else {
            KeypadInterruptCondition::Any
        }
    }

    pub fn new() -> (r: Self)
        ensures
            r.raw == 0,
    {
        KeyControl { raw: 0 }
    }

    pub fn from_raw(value: u16) -> (r: Self)
        ensures
            r.raw == value & 0xC3FF,
    {
        KeyControl { raw: value & 0xC3FF }
    }

    pub fn raw(self) -> (r: u16)
        ensures
            r == self.raw,
    {
        self.raw
    }

    pub fn selected_keys(self) -> (r: u16)
        ensures
            r == self.raw & 0x03FF,
    {
        self.raw & 0x03FF
    }

    pub fn irq_enabled(self) -> (r: bool)
        ensures
            r == (self.raw & 0x4000 != 0),
    {
        self.raw & 0x4000 != 0
    }

    pub fn condition(self) -> (r: KeypadInterruptCondition)
        ensures
            r == self.spec_condition(),
    {
        if self.raw & 0x8000 != 0 {
            KeypadInterruptCondition::All
        } else {
            KeypadInterruptCondition::Any
        }
    }
}

#[derive(Debug, Clone, Copy, PartialEq, Eq, Structural)]
pub struct KeypadUpdateResult {
    pub interrupt_requests: u16,
    pub condition_active: bool,
}

/// The keypad: pressed keys (active high), KEYCNT and the previous value
/// of the interrupt condition, for edge detection.
#[derive(Debug, Clone, Copy, PartialEq, Eq, Structural)]
pub struct Keypad {
    pub pressed: u16,
    pub control: KeyControl,
    pub previous_condition_active: bool,
}

/// Whether the KEYCNT condition holds for `pressed`: never with no keys
/// selected; otherwise any selected key (OR) or all of them (AND).
pub open spec fn keypad_condition(pressed: u16, control: KeyControl) -> bool {
    let selected = control.raw & 0x03FF;
    if selected == 0 {
        false
    } else {
        match control.spec_condition() {
            KeypadInterruptCondition::Any => pressed & selected != 0,
            KeypadInterruptCondition::All => pressed & selected == selected,
        }
    }
}

/// The keypad after an update to `pressed` and `control`, and the result:
/// an interrupt request only on a rising edge of the condition with IRQ
/// enabled.
pub open spec fn keypad_evaluated(pressed: u16, control: KeyControl, previous: bool) -> (Keypad, KeypadUpdateResult) {
    let active = keypad_condition(pressed, control);
    (
        Keypad { pressed, control, previous_condition_active: active },
        KeypadUpdateResult {
            interrupt_requests: if active && !previous && control.raw & 0x4000 != 0 {
                source_mask(InterruptSource::Keypad)
            } else {
                0
            },
            condition_active: active,
        },
    )
}

impl Keypad {
    pub const KEY_MASK: u16 = 0x03FF;

    pub fn new() -> (r: Self)
        ensures
            r == (Keypad { pressed: 0, control: KeyControl { raw: 0 }, previous_condition_active: false }),
    {
        Keypad { pressed: 0, control: KeyControl::new(), previous_condition_active: false }
    }

    /// KEYINPUT: bits are active low.
    pub fn key_input(&self) -> (r: u16)
        ensures
            r == !self.pressed & 0x03FF,
    {
        !self.pressed & 0x03FF
    }

    pub fn pressed_mask(&self) -> (r: u16)
        ensures
            r == self.pressed,
    {
        self.pressed
    }

    pub fn control(&self) -> (r: KeyControl)
        ensures
            r == self.control,
    {
        self.control
    }

    pub fn read_control(&self) -> (r: u16)
        ensures
            r == self.control.raw,
    {
        self.control.raw
    }

    /// Writes KEYCNT and re-evaluates the interrupt condition.
    pub fn write_control(&mut self, value: u16) -> (r: KeypadUpdateResult)
        ensures
            (*final(self), r) == keypad_evaluated(
                old(self).pressed,
                KeyControl { raw: value & 0xC3FF },
                old(self).previous_condition_active,
            ),
    {
        self.control = KeyControl::from_raw(value);
        self.evaluate_condition()
    }

    /// Presses or releases one key.
    pub fn set_key(&mut self, key: Key, pressed: bool) -> (r: KeypadUpdateResult)
        ensures
            (*final(self), r) == keypad_evaluated(
                (if pressed {
                    old(self).pressed | key_mask(key)
                } else {
                    old(self).pressed & !key_mask(key)
                }) & 0x03FF,
                old(self).control,
                old(self).previous_condition_active,
            ),
    {
        let mask = key.mask();
        let updated: u16 = if pressed {
            self.pressed | mask
        } else {
            self.pressed & !mask
        };
        self.pressed = updated & 0x03FF;
        self.evaluate_condition()
    }

    /// Replaces the whole set of pressed keys.
    pub fn set_pressed_mask(&mut self, pressed: u16) -> (r: KeypadUpdateResult)
        ensures
            (*final(self), r) == keypad_evaluated(
                pressed & 0x03FF,
                old(self).control,
                old(self).previous_condition_active,
            ),
    {
        self.pressed = pressed & 0x03FF;
        self.evaluate_condition()
    }

    pub fn release_all(&mut self) -> (r: KeypadUpdateResult)
        ensures
            (*final(self), r) == keypad_evaluated(
                0u16 & 0x03FF,
                old(self).control,
                old(self).previous_condition_active,
            ),
    {
        self.set_pressed_mask(0)
    }

    pub fn reset(&mut self)
        ensures
            *final(self) == (Keypad {
                pressed: 0,
                control: KeyControl { raw: 0 },
                previous_condition_active: false,
            }),
    {
        *self = Keypad::new();
    }

    fn evaluate_condition(&mut self) -> (r: KeypadUpdateResult)
        ensures
            (*final(self), r) == keypad_evaluated(
                old(self).pressed,
                old(self).control,
                old(self).previous_condition_active,
            ),
    {
        let selected = self.control.selected_keys();
        let condition_active = if selected == 0 {
            false
        } else {
            match self.control.condition() {
                KeypadInterruptCondition::Any => self.pressed & selected != 0,
                KeypadInterruptCondition::All => self.pressed & selected == selected,
            }
        };
        let rising_edge = condition_active && !self.previous_condition_active;
        self.previous_condition_active = condition_active;
        let interrupt_requests = if rising_edge && self.control.irq_enabled() {
            InterruptSource::Keypad.mask()
        } else {
            0
        };
        KeypadUpdateResult { interrupt_requests, condition_active }
    }
}

/// A held condition requests the keypad interrupt once: evaluating the
/// same keys again after a request gives no further request.
pub proof fn law_keypad_interrupt_is_edge_triggered(pressed: u16, control: KeyControl, previous: bool)
    ensures
        ({
            let (after, _) = keypad_evaluated(pressed, control, previous);
            keypad_evaluated(pressed, control, after.previous_condition_active).1.interrupt_requests
                == 0
        }),
{
}

} // verus!
