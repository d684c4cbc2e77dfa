use vstd::prelude::*;

use super::interrupt::{source_mask, InterruptSource};

verus! {

pub const TIMER_COUNT: usize = 4;

#[derive(Debug, Clone, Copy, PartialEq, Eq)]
pub struct TimerTickResult {
    pub interrupt_requests: u16,
    pub overflows: [u64; 4],
}

impl TimerTickResult {
    pub fn new() -> (r: Self)
        ensures
            r.interrupt_requests == 0,
            r.overflows@ == seq![0u64, 0u64, 0u64, 0u64],
    {
        let r = TimerTickResult { interrupt_requests: 0, overflows: [0; 4] };
        assert(r.overflows@ =~= seq![0u64, 0u64, 0u64, 0u64]);
        r
    }
}

#[derive(Debug, Clone, Copy, PartialEq, Eq, Structural)]
pub enum TimerIndex {
    Timer0,
    Timer1,
    Timer2,
    Timer3,
}

pub open spec fn timer_number(index: TimerIndex) -> int {
    match index {
        TimerIndex::Timer0 => 0,
        TimerIndex::Timer1 => 1,
        TimerIndex::Timer2 => 2,
        TimerIndex::Timer3 => 3,
    }
}

pub open spec fn timer_interrupt(index: int) -> InterruptSource {
    if index == 0 {
        InterruptSource::Timer0
    } else if index == 1 {
        InterruptSource::Timer1
    } else if index == 2 {
        InterruptSource::Timer2
    } else {
        InterruptSource::Timer3
    }
}

impl TimerIndex {
    pub fn from_usize(index: usize) -> (r: Option<Self>)
        ensures
            index < 4 ==> (r matches Some(t) && timer_number(t) == index),
            index >= 4 ==> r is None,
    {
        match index {
            0 => Some(TimerIndex::Timer0),
            1 => Some(TimerIndex::Timer1),
            2 => Some(TimerIndex::Timer2),
            3 => Some(TimerIndex::Timer3),
            _ => None,
        }
    }

    pub fn as_usize(self) -> (r: usize)
        ensures
            r == timer_number(self),
    {
        match self {
            TimerIndex::Timer0 => 0,
            TimerIndex::Timer1 => 1,
            TimerIndex::Timer2 => 2,
            TimerIndex::Timer3 => 3,
        }
    }

    pub fn interrupt_source(self) -> (r: InterruptSource)
        ensures
            r == timer_interrupt(timer_number(self)),
    {
        match self {
            TimerIndex::Timer0 => InterruptSource::Timer0,
            TimerIndex::Timer1 => InterruptSource::Timer1,
            TimerIndex::Timer2 => InterruptSource::Timer2,
            TimerIndex::Timer3 => InterruptSource::Timer3,
        }
    }
}

/// TMxCNT_H: prescaler (bits 0-1), cascade (2), IRQ (6), enable (7).
#[derive(Debug, Clone, Copy, PartialEq, Eq, Structural)]
pub struct TimerControl {
    pub raw: u16,
}

impl TimerControl {
    pub const WRITABLE_MASK: u16 = 0x00C7;

    pub open spec fn spec_prescaler(self) -> u32 {
        let p = self.raw & 3;
        if p == 0 {
            1
        } else if p == 1 {
            64
        } else if p == 2 {
            256
        } else {
            1024
        }
    }

    pub open spec fn spec_cascade(self) -> bool {
        self.raw & 4 != 0
    }

    pub open spec fn spec_irq_enabled(self) -> bool {
        self.raw & 0x40 != 0
    }

    pub open spec fn spec_enabled(self) -> bool {
        self.raw & 0x80 != 0
    }

    pub fn new() -> (r: Self)
        ensures
            r.raw == 0,
    {
        TimerControl { raw: 0 }
    }

    pub fn from_raw(raw: u16) -> (r: Self)
        ensures
            r.raw == raw & 0x00C7,
    {
        TimerControl { raw: raw & 0x00C7 }
    }

    pub fn raw(self) -> (r: u16)
        ensures
            r == self.raw,
    {
        self.raw
    }

    /// CPU cycles per increment: 1, 64, 256 or 1024.
    pub fn prescaler(self) -> (r: u32)
        ensures
            r == self.spec_prescaler(),
            1 <= r <= 1024,
    {
        let p: u16 = self.raw & 0b11;
        if p == 0 {
            1
        } else if p == 1 {
            64
        } else if p == 2 {
            256
        } else {
            1024
        }
    }

    pub fn cascade(self) -> (r: bool)
        ensures
            r == self.spec_cascade(),
    {
        self.raw & 4 != 0
    }

    pub fn irq_enabled(self) -> (r: bool)
        ensures
            r == self.spec_irq_enabled(),
    {
        self.raw & 0x40 != 0
    }

    pub fn enabled(self) -> (r: bool)
        ensures
            r == self.spec_enabled(),
    {
        self.raw & 0x80 != 0
    }
}

/// One timer: the reload latch, the counter, the control register and the
/// cycles not yet worth a prescaled increment.
#[derive(Debug, Clone, Copy, PartialEq, Eq, Structural)]
pub struct Timer {
    pub reload: u16,
    pub counter: u16,
    pub control: TimerControl,
    pub prescaler_remainder: u32,
}

/// A 16-bit counter at `counter`, reloading from `reload` on overflow,
/// after `increments` increments: the new counter and the overflow count.
pub open spec fn counter_after(counter: u16, reload: u16, increments: nat) -> (u16, nat) {
    let to_first = 0x1_0000 - counter as int;
    if increments < to_first {
        ((counter as int + increments) as u16, 0)
    } else {
        let remaining = increments - to_first;
        let period = 0x1_0000 - reload as int;
        ((reload as int + remaining % period) as u16, (1 + remaining / period) as nat)
    }
}

impl Timer {
    /// The timer after `cycles` CPU cycles when it counts by prescaler,
    /// and the number of overflows.
    pub open spec fn spec_tick_direct(self, cycles: u32) -> (Timer, nat) {
        if !self.control.spec_enabled() {
            (self, 0)
        } else {
            let accumulated = self.prescaler_remainder as int + cycles as int;
            let prescaler = self.control.spec_prescaler() as int;
            let increments = (accumulated / prescaler) as nat;
            let (counter, overflows) = counter_after(self.counter, self.reload, increments);
            (
                Timer {
                    prescaler_remainder: (accumulated % prescaler) as u32,
                    counter,
                    ..self
                },
                overflows,
            )
        }
    }

    /// The timer after the previous timer overflowed `previous` times,
    /// when it cascades.
    pub open spec fn spec_tick_cascade(self, previous: nat) -> (Timer, nat) {
        if !self.control.spec_enabled() || !self.control.spec_cascade() {
            (self, 0)
        } else {
            let (counter, overflows) = counter_after(self.counter, self.reload, previous);
            (Timer { counter, ..self }, overflows)
        }
    }

    /// Writing TMxCNT_H: a rising enable edge loads the reload value into
    /// the counter; enabling or disabling discards prescaler progress.
    pub open spec fn spec_write_control(self, value: u16) -> Timer {
        let old_enabled = self.control.spec_enabled();
        let control = TimerControl { raw: value & 0x00C7 };
        let new_enabled = control.spec_enabled();
        if !old_enabled && new_enabled {
            Timer { control, counter: self.reload, prescaler_remainder: 0, ..self }
        } else if old_enabled && !new_enabled {
            Timer { control, prescaler_remainder: 0, ..self }
        } else {
            Timer { control, ..self }
        }
    }

    pub open spec fn wf(self) -> bool {
        self.prescaler_remainder < 1024
    }

    pub fn new() -> (r: Self)
        ensures
            r == (Timer { reload: 0, counter: 0, control: TimerControl { raw: 0 }, prescaler_remainder: 0 }),
    {
        Timer { reload: 0, counter: 0, control: TimerControl::new(), prescaler_remainder: 0 }
    }

    pub fn reload(self) -> (r: u16)
        ensures
            r == self.reload,
    {
        self.reload
    }

    pub fn counter(self) -> (r: u16)
        ensures
            r == self.counter,
    {
        self.counter
    }

    pub fn control(self) -> (r: TimerControl)
        ensures
            r == self.control,
    {
        self.control
    }

    /// Writing TMxCNT_L changes only the reload latch.
    pub fn write_reload(&mut self, value: u16)
        ensures
            *final(self) == (Timer { reload: value, ..*old(self) }),
    {
        self.reload = value;
    }

    pub fn write_control(&mut self, value: u16)
        ensures
            *final(self) == old(self).spec_write_control(value),
    {
        let old_enabled = self.control.enabled();
        let new_control = TimerControl::from_raw(value);
        let new_enabled = new_control.enabled();
        self.control = new_control;
        if !old_enabled && new_enabled {
            self.counter = self.reload;
            self.prescaler_remainder = 0;
        } else if old_enabled && !new_enabled {
            self.prescaler_remainder = 0;
        }
    }

    pub fn reset(&mut self)
        ensures
            *final(self) == (Timer {
                reload: 0,
                counter: 0,
                control: TimerControl { raw: 0 },
                prescaler_remainder: 0,
            }),
    {
        *self = Timer::new();
    }

    fn tick_direct(&mut self, cycles: u32) -> (r: u64)
        requires
            old(self).wf(),
        ensures
            (*final(self), r as nat) == old(self).spec_tick_direct(cycles),
            final(self).wf(),
    {
        if !self.control.enabled() {
            return 0;
        }
        let prescaler = self.control.prescaler() as u64;
        let accumulated: u64 = self.prescaler_remainder as u64 + cycles as u64;
        let increments: u64 = accumulated / prescaler;
        self.prescaler_remainder = (accumulated % prescaler) as u32;
        self.advance_counter(increments)
    }

    fn tick_cascade(&mut self, previous_overflows: u64) -> (r: u64)
        requires
            old(self).wf(),
        ensures
            (*final(self), r as nat) == old(self).spec_tick_cascade(previous_overflows as nat),
            final(self).wf(),
    {
        if !self.control.enabled() || !self.control.cascade() {
            return 0;
        }
        self.advance_counter(previous_overflows)
    }

    fn advance_counter(&mut self, increments: u64) -> (r: u64)
        ensures
            (final(self).counter, r as nat) == counter_after(
                old(self).counter,
                old(self).reload,
                increments as nat,
            ),
            *final(self) == (Timer { counter: final(self).counter, ..*old(self) }),
    {
        let to_first: u64 = 0x1_0000u64 - self.counter as u64;
        if increments < to_first {
            self.counter = (self.counter as u64 + increments) as u16;
            return 0;
        }
        let remaining: u64 = increments - to_first;
        let period: u64 = 0x1_0000u64 - self.reload as u64;
        let overflows: u64 = 1 + remaining / period;
        let after: u64 = remaining % period;
        self.counter = (self.reload as u64 + after) as u16;
        overflows
    }
}

/// The four timers.
#[derive(Debug, Clone, PartialEq, Eq)]
pub struct TimerController {
    pub timers: [Timer; 4],
    pub enabled_mask: u8,
}

/// The index of the highest timer whose enable bit is in `mask`.
pub open spec fn last_enabled(mask: u8) -> int {
    if mask & 8 != 0 {
        3
    } else if mask & 4 != 0 {
        2
    } else if mask & 2 != 0 {
        1
    } else {
        0
    }
}

/// The timer `index` after a tick and its overflows, given the overflows
/// of the timer below it: timer 0 always counts cycles, the others count
/// overflows of their neighbour when cascading.
pub open spec fn timer_step(timer: Timer, index: int, cycles: u32, previous: nat) -> (Timer, nat) {
    if index > 0 && timer.control.spec_cascade() {
        timer.spec_tick_cascade(previous)
    } else {
        timer.spec_tick_direct(cycles)
    }
}

/// The timers after `cycles` cycles and what they reported: each timer
/// up to the highest enabled one steps (cascading ones by the overflows of
/// the timer below), the others stay, and a timer with IRQ enabled that
/// overflowed asks for its interrupt.
pub open spec fn timers_ticked(before: TimerController, after: TimerController, cycles: u32, r: TimerTickResult) -> bool {
    &&& after.enabled_mask == before.enabled_mask
    &&& before.enabled_mask == 0 ==> after.timers@ == before.timers@ && r.overflows@
        == seq![0u64, 0u64, 0u64, 0u64] && r.interrupt_requests == 0
    &&& forall|i: int|
        0 <= i < 4 ==> {
            let previous = if i == 0 {
                0nat
            } else {
                r.overflows@[i - 1] as nat
            };
            if before.enabled_mask != 0 && i <= last_enabled(before.enabled_mask) {
                (#[trigger] after.timers@[i], r.overflows@[i] as nat) == timer_step(
                    before.timers@[i],
                    i,
                    cycles,
                    previous,
                )
            } else {
                after.timers@[i] == before.timers@[i] && r.overflows@[i] == 0
            }
        }
    &&& forall|i: int|
        0 <= i < 4 ==> ((r.interrupt_requests & #[trigger] source_mask(timer_interrupt(i)))
            != 0 <==> (r.overflows@[i] > 0 && after.timers@[i].control.spec_irq_enabled()))
}

impl TimerController {
    /// Each timer is well formed, and the enable mask has exactly the
    /// bits of the enabled timers.
    pub open spec fn wf(self) -> bool {
        &&& forall|i: int| 0 <= i < 4 ==> #[trigger] self.timers@[i].wf()
        &&& self.enabled_mask < 16
        &&& forall|i: int|
            0 <= i < 4 ==> ((self.enabled_mask & enable_bit(i)) != 0) == #[trigger] self.timers@[i].control.spec_enabled()
    }

    pub fn new() -> (r: Self)
        ensures
            r.enabled_mask == 0,
            forall|i: int| 0 <= i < 4 ==> #[trigger] r.timers@[i] == (Timer {
                reload: 0,
                counter: 0,
                control: TimerControl { raw: 0 },
                prescaler_remainder: 0,
            }),
            r.wf(),
    {
        proof {
            lemma_enable_mask_bits(0, 1, 1);
            lemma_enable_mask_bits(0, 1, 2);
            lemma_enable_mask_bits(0, 1, 4);
            lemma_enable_mask_bits(0, 1, 8);
        }
        TimerController {
            timers: [Timer::new(), Timer::new(), Timer::new(), Timer::new()],
            enabled_mask: 0,
        }
    }

    pub fn timer(&self, index: TimerIndex) -> (r: &Timer)
        ensures
            *r == self.timers@[timer_number(index)],
    {
        &self.timers[index.as_usize()]
    }

    pub fn timer_mut(&mut self, index: TimerIndex) -> (r: &mut Timer)
        ensures
            *r == old(self).timers@[timer_number(index)],
            final(self).timers@ == old(self).timers@.update(timer_number(index), *final(r)),
            final(self).enabled_mask == old(self).enabled_mask,
    {
        &mut self.timers[index.as_usize()]
    }

    pub fn read_counter(&self, index: TimerIndex) -> (r: u16)
        ensures
            r == self.timers@[timer_number(index)].counter,
    {
        self.timer(index).counter()
    }

    pub fn read_control(&self, index: TimerIndex) -> (r: u16)
        ensures
            r == self.timers@[timer_number(index)].control.raw,
    {
        self.timer(index).control().raw()
    }

    pub fn write_reload(&mut self, index: TimerIndex, value: u16)
        ensures
            final(self).timers@ == old(self).timers@.update(
                timer_number(index),
                Timer { reload: value, ..old(self).timers@[timer_number(index)] },
            ),
            final(self).enabled_mask == old(self).enabled_mask,
    {
        let i = index.as_usize();
        let mut timer = self.timers[i];
        timer.write_reload(value);
        self.timers[i] = timer;
    }

    /// Writes TMxCNT_H and records whether the timer is enabled.
    pub fn write_control(&mut self, index: TimerIndex, value: u16)
        requires
            old(self).wf(),
        ensures
            final(self).wf(),
            final(self).timers@ == old(self).timers@.update(
                timer_number(index),
                old(self).timers@[timer_number(index)].spec_write_control(value),
            ),
            final(self).enabled_mask == if (value & 0x00C7) & 0x80 != 0 {
                old(self).enabled_mask | enable_bit(timer_number(index))
            } else {
                old(self).enabled_mask & !enable_bit(timer_number(index))
            },
    {
        let i = index.as_usize();
        let mut timer = self.timers[i];
        timer.write_control(value);
        self.timers[i] = timer;
        let mask: u8 = enable_bit_exec(i);
        let ghost old_mask = self.enabled_mask;
        if timer.control().enabled() {
            self.enabled_mask = self.enabled_mask | mask;
        } else {
            self.enabled_mask = self.enabled_mask & !mask;
        }
        proof {
            assert forall|j: int| 0 <= j < 4 implies ((self.enabled_mask & enable_bit(j)) != 0)
                == #[trigger] self.timers@[j].control.spec_enabled() by {
                lemma_enable_mask_bits(old_mask, mask, enable_bit(j));
            }
            lemma_enable_mask_bits(old_mask, mask, mask);
            assert forall|j: int| 0 <= j < 4 implies #[trigger] self.timers@[j].wf() by {
                assert(old(self).timers@[j].wf());
            }
        }
    }

    /// Advances every timer up to the highest enabled one by `cycles` and
    /// reports the overflows and the interrupt requests of timers with
    /// IRQ enabled that overflowed.
    pub fn tick(&mut self, cycles: u32) -> (r: TimerTickResult)
        requires
            old(self).wf(),
        ensures
            final(self).wf(),
            timers_ticked(*old(self), *final(self), cycles, r),
    {
        let mut result = TimerTickResult::new();
        if self.enabled_mask == 0 {
            proof {
                crate::bits::lemma_u16_set_clear();
                crate::bits::lemma_u16_pairwise();
            }
            return result;
        }
        let last: usize = if self.enabled_mask & 8 != 0 {
            3
        } else if self.enabled_mask & 4 != 0 {
            2
        } else if self.enabled_mask & 2 != 0 {
            1
        } else {
            0
        };
        let mut previous_overflows: u64 = 0;
        let mut index: usize = 0;
        let ghost old_timers = self.timers@;
        proof {
            lemma_timer_masks();
            crate::bits::lemma_u16_pairwise();
        }
        while index <= last
            invariant
                last == last_enabled(self.enabled_mask),
                last < 4,
                index <= last + 1,
                self.enabled_mask == old(self).enabled_mask,
                old(self).enabled_mask != 0,
                old_timers == old(self).timers@,
                forall|i: int| 0 <= i < 4 ==> #[trigger] self.timers@[i].wf(),
                forall|i: int| 0 <= i < 4 ==> #[trigger] self.timers@[i].control == old_timers[i].control,
                forall|i: int| index <= i < 4 ==> #[trigger] self.timers@[i] == old_timers[i],
                forall|i: int| index <= i < 4 ==> #[trigger] result.overflows@[i] == 0,
                index > 0 ==> previous_overflows == result.overflows@[index - 1],
                index == 0 ==> previous_overflows == 0,
                forall|i: int|
                    0 <= i < index ==> {
                        let previous = if i == 0 {
                            0nat
                        } else {
                            result.overflows@[i - 1] as nat
                        };
                        (#[trigger] self.timers@[i], result.overflows@[i] as nat) == timer_step(
                            old_timers[i],
                            i,
                            cycles,
                            previous,
                        )
                    },
                forall|i: int|
                    0 <= i < 4 ==> ((result.interrupt_requests & #[trigger] source_mask(
                        timer_interrupt(i),
                    )) != 0 <==> (i < index && result.overflows@[i] > 0
                        && self.timers@[i].control.spec_irq_enabled())),
            decreases last + 1 - index,
        {
            let mut timer = self.timers[index];
            let overflows = if index > 0 && timer.control().cascade() {
                timer.tick_cascade(previous_overflows)
            } else {
                timer.tick_direct(cycles)
            };
            self.timers[index] = timer;
            let timer_index = match TimerIndex::from_usize(index) {
                Some(t) => t,
                None => TimerIndex::Timer0,
            };
            let bit = timer_index.interrupt_source().mask();
            let old_requests = result.interrupt_requests;
            if overflows > 0 && timer.control().irq_enabled() {
                result.interrupt_requests = result.interrupt_requests | bit;
            }
            proof {
                crate::bits::lemma_u16_set_clear();
                lemma_timer_masks();
            }
            result.overflows[index] = overflows;
            previous_overflows = overflows;
            index = index + 1;
        }
        result
    }

    pub fn reset(&mut self)
        ensures
            final(self).enabled_mask == 0,
            forall|i: int| 0 <= i < 4 ==> #[trigger] final(self).timers@[i] == (Timer {
                reload: 0,
                counter: 0,
                control: TimerControl { raw: 0 },
                prescaler_remainder: 0,
            }),
            final(self).wf(),
    {
        *self = TimerController::new();
    }
}

/// The enable-tracking bit of timer `index`.
pub open spec fn enable_bit(index: int) -> u8 {
    if index == 0 {
        1
    } else if index == 1 {
        2
    } else if index == 2 {
        4
    } else {
        8
    }
}

fn enable_bit_exec(index: usize) -> (r: u8)
    ensures
        r == enable_bit(index as int),
{
    if index == 0 {
        1
    } else if index == 1 {
        2
    } else if index == 2 {
        4
    } else {
        8
    }
}

/// The prescaler values in the order of TMxCNT_H bits 0-1.
pub open spec fn prescaler_table() -> Seq<u32> {
    seq![1u32, 64, 256, 1024]
}

/// TMxCNT_H bits 0-1 select 1, 64, 256 or 1024 cycles per increment, four
/// distinct rates; and a timer that counts cycles, enabled, takes one
/// increment per that many cycles, carrying the rest over: below the
/// overflow it counts up by them, and past it it reloads once per
/// overflow.
pub proof fn law_prescaler_selects_rate(timer: Timer, cycles: u32)
    requires
        timer.wf(),
        timer.control.spec_enabled(),
    ensures
        timer.control.spec_prescaler() == prescaler_table()[(timer.control.raw & 3) as int],
        forall|a: int, b: int|
            0 <= a < 4 && 0 <= b < 4 && a != b ==> #[trigger] prescaler_table()[a]
                != #[trigger] prescaler_table()[b],
        ({
            let rate = prescaler_table()[(timer.control.raw & 3) as int] as int;
            let total = timer.prescaler_remainder as int + cycles as int;
            let increments = total / rate;
            let (after, overflows) = timer.spec_tick_direct(cycles);
            &&& after.prescaler_remainder as int == total % rate
            &&& after.reload == timer.reload
            &&& after.control == timer.control
            &&& timer.counter as int + increments < 0x1_0000 ==> after.counter as int == timer.counter as int
                + increments && overflows == 0
            &&& timer.counter as int + increments >= 0x1_0000 ==> overflows == 1 + (timer.counter as int
                + increments - 0x1_0000) / (0x1_0000 - timer.reload as int) && after.counter as int
                == timer.reload as int + (timer.counter as int + increments - 0x1_0000) % (0x1_0000
                - timer.reload as int)
        }),
{
    let raw = timer.control.raw;
    let p = raw & 3;
    assert(p < 4) by (bit_vector)
        requires
            p == raw & 3,
    ;
    let rate = prescaler_table()[p as int] as int;
    let total = timer.prescaler_remainder as int + cycles as int;
    let period = 0x1_0000 - timer.reload as int;
    vstd::arithmetic::div_mod::lemma_mod_bound(total, rate);
    vstd::arithmetic::div_mod::lemma_div_pos_is_pos(total, rate);
    if timer.counter as int + total / rate >= 0x1_0000 {
        let remaining = timer.counter as int + total / rate - 0x1_0000;
        vstd::arithmetic::div_mod::lemma_mod_bound(remaining, period);
    }
}

/// Setting or clearing one enable bit of a four-bit mask decides that bit
/// and keeps the others.
proof fn lemma_enable_mask_bits(m: u8, a: u8, b: u8)
    by (bit_vector)
    requires
        m < 16,
        a == 1 || a == 2 || a == 4 || a == 8,
        b == 1 || b == 2 || b == 4 || b == 8,
    ensures
        m | a < 16,
        m & !a < 16,
        0u8 & b == 0,
        0u16 & 0x80u16 == 0,
        ((m | a) & b != 0) == (a == b || m & b != 0),
        ((m & !a) & b != 0) == (a != b && m & b != 0),
{
}

proof fn lemma_timer_masks()
    ensures
        forall|i: int, j: int|
            0 <= i < 4 && 0 <= j < 4 && i != j ==> #[trigger] source_mask(timer_interrupt(i)) & #[trigger] source_mask(
                timer_interrupt(j),
            ) == 0,
        forall|i: int| 0 <= i < 4 ==> #[trigger] source_mask(timer_interrupt(i)) != 0,
{
    crate::bits::lemma_u16_pairwise();
}

} // verus!
