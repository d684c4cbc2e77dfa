use running_man_advance::bus::{TimerControl, TimerController, TimerIndex};

#[test]
fn decodes_timer_control() {
    let control = TimerControl::from_raw(0x00C7);

    assert_eq!(control.prescaler(), 1024);
    assert!(control.cascade());
    assert!(control.irq_enabled());
    assert!(control.enabled());
}

#[test]
fn enabling_timer_loads_reload_value() {
    let mut timers = TimerController::new();

    timers.write_reload(TimerIndex::Timer0, 0xFFF0);

    timers.write_control(TimerIndex::Timer0, 1 << 7);

    assert_eq!(timers.read_counter(TimerIndex::Timer0), 0xFFF0);
}

#[test]
fn disabled_timer_does_not_advance() {
    let mut timers = TimerController::new();

    timers.write_reload(TimerIndex::Timer0, 0x1234);

    timers.tick(1_000);

    assert_eq!(timers.read_counter(TimerIndex::Timer0), 0);
}

#[test]
fn timer_zero_advances_with_prescaler_one() {
    let mut timers = TimerController::new();

    timers.write_reload(TimerIndex::Timer0, 0);

    timers.write_control(TimerIndex::Timer0, 1 << 7);

    timers.tick(42);

    assert_eq!(timers.read_counter(TimerIndex::Timer0), 42);
}

#[test]
fn prescaler_accumulates_partial_cycles() {
    let mut timers = TimerController::new();

    /*
     * Prescaler = 64, enabled.
     */
    timers.write_control(TimerIndex::Timer0, (1 << 7) | 0b01);

    timers.tick(63);

    assert_eq!(timers.read_counter(TimerIndex::Timer0), 0);

    timers.tick(1);

    assert_eq!(timers.read_counter(TimerIndex::Timer0), 1);
}

#[test]
fn overflow_reloads_counter() {
    let mut timers = TimerController::new();

    timers.write_reload(TimerIndex::Timer0, 0xFFFE);

    timers.write_control(TimerIndex::Timer0, 1 << 7);

    timers.tick(2);

    assert_eq!(timers.read_counter(TimerIndex::Timer0), 0xFFFE);
}

#[test]
fn overflow_requests_timer_interrupt() {
    let mut timers = TimerController::new();

    timers.write_reload(TimerIndex::Timer0, 0xFFFF);

    timers.write_control(TimerIndex::Timer0, (1 << 7) | (1 << 6));

    let requests = timers.tick(1);

    assert_ne!(
        requests.interrupt_requests & TimerIndex::Timer0.interrupt_source().mask(),
        0
    );
    assert_eq!(requests.overflows[TimerIndex::Timer0.as_usize()], 1);
}

#[test]
fn cascade_timer_increments_on_previous_overflow() {
    let mut timers = TimerController::new();

    /*
     * Timer 0 overflows every cycle.
     */
    timers.write_reload(TimerIndex::Timer0, 0xFFFF);

    timers.write_control(TimerIndex::Timer0, 1 << 7);

    /*
     * Timer 1 is cascaded.
     */
    timers.write_reload(TimerIndex::Timer1, 0);

    timers.write_control(TimerIndex::Timer1, (1 << 7) | (1 << 2));

    timers.tick(10);

    assert_eq!(timers.read_counter(TimerIndex::Timer1), 10);
}

#[test]
fn cascade_overflow_can_propagate_through_multiple_timers() {
    let mut timers = TimerController::new();

    for timer in [TimerIndex::Timer0, TimerIndex::Timer1, TimerIndex::Timer2] {
        timers.write_reload(timer, 0xFFFF);
    }

    timers.write_control(TimerIndex::Timer0, 1 << 7);

    timers.write_control(TimerIndex::Timer1, (1 << 7) | (1 << 2));

    timers.write_control(TimerIndex::Timer2, (1 << 7) | (1 << 2));

    timers.tick(1);

    assert_eq!(timers.read_counter(TimerIndex::Timer0), 0xFFFF);

    assert_eq!(timers.read_counter(TimerIndex::Timer1), 0xFFFF);

    assert_eq!(timers.read_counter(TimerIndex::Timer2), 0xFFFF);
}

#[test]
fn large_tick_handles_multiple_overflows() {
    let mut timers = TimerController::new();

    /*
     * Period = 16 cycles.
     */
    timers.write_reload(TimerIndex::Timer0, 0xFFF0);

    timers.write_control(TimerIndex::Timer0, 1 << 7);

    timers.tick(16 * 100 + 5);

    assert_eq!(timers.read_counter(TimerIndex::Timer0), 0xFFF5);
}

