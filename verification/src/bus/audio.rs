use vstd::prelude::*;

use std::collections::VecDeque;

verus! {

pub const AUDIO_OUTPUT_RATE: u32 = 48_000;

/// CPU cycles per second.
pub const GBA_CLOCK_HZ: u64 = 16_777_216;

pub const FIFO_CAPACITY: usize = 32;

/// A FIFO at or below this level asks for a refill.
pub const FIFO_DMA_THRESHOLD: usize = 16;

/// The output queue holds at most a third of a second of stereo samples.
pub const MAX_OUTPUT_SAMPLES: usize = 16_000;

#[derive(Debug, Clone, Copy, PartialEq, Eq, Structural)]
pub enum DirectSoundFifo {
    A,
    B,
}

pub open spec fn fifo_number(fifo: DirectSoundFifo) -> int {
    match fifo {
        DirectSoundFifo::A => 0,
        DirectSoundFifo::B => 1,
    }
}

impl DirectSoundFifo {
    pub fn as_usize(self) -> (r: usize)
        ensures
            r == fifo_number(self),
    {
        match self {
            DirectSoundFifo::A => 0,
            DirectSoundFifo::B => 1,
        }
    }
}

#[derive(Debug, Clone, Copy, PartialEq, Eq)]
pub struct AudioTickResult {
    pub fifo_dma_requests: [bool; 2],
}

/// One Direct Sound channel: the sample FIFO and the sample now playing.
#[derive(Debug, Clone)]
pub struct DirectSoundChannel {
    pub fifo: VecDeque<i8>,
    pub current_sample: i8,
}

/// `fifo` after the bytes are queued as signed samples, up to capacity;
/// bytes beyond it are dropped.
pub open spec fn fifo_after_push(fifo: Seq<i8>, bytes: Seq<u8>) -> Seq<i8> {
    let room = 32 - fifo.len();
    let taken = if bytes.len() < room {
        bytes.len() as int
    } else {
        room
    };
    fifo + Seq::new(taken as nat, |i: int| bytes[i] as i8)
}

/// The sample playing after `count` timer overflows: the last sample
/// taken, or silence once the FIFO ran dry.
pub open spec fn sample_after_clock(fifo: Seq<i8>, current: i8, count: u64) -> i8 {
    if count == 0 {
        current
    } else if count > fifo.len() {
        0
    } else {
        fifo[count - 1]
    }
}

pub open spec fn fifo_after_clock(fifo: Seq<i8>, count: u64) -> Seq<i8> {
    if count > fifo.len() {
        Seq::empty()
    } else {
        fifo.skip(count as int)
    }
}

impl DirectSoundChannel {
    pub open spec fn wf(&self) -> bool {
        self.fifo@.len() <= 32
    }

    pub fn new() -> (r: Self)
        ensures
            r.fifo@ == Seq::<i8>::empty(),
            r.current_sample == 0,
    {
        DirectSoundChannel { fifo: VecDeque::with_capacity(FIFO_CAPACITY), current_sample: 0 }
    }

    fn push_bytes(&mut self, bytes: &[u8])
        requires
            old(self).wf(),
        ensures
            final(self).wf(),
            final(self).fifo@ == fifo_after_push(old(self).fifo@, bytes@),
            final(self).current_sample == old(self).current_sample,
    {
        let mut i: usize = 0;
        while i < bytes.len()
            invariant_except_break
                i <= bytes.len(),
                self.fifo@.len() <= 32,
                i <= 32 - old(self).fifo@.len(),
                self.fifo@ == old(self).fifo@ + Seq::new(i as nat, |k: int| bytes@[k] as i8),
                self.current_sample == old(self).current_sample,
            ensures
                self.fifo@.len() <= 32,
                self.fifo@ == fifo_after_push(old(self).fifo@, bytes@),
                self.current_sample == old(self).current_sample,
            decreases bytes.len() - i,
        {
            if self.fifo.len() == FIFO_CAPACITY {
                proof {
                    assert(self.fifo@ =~= fifo_after_push(old(self).fifo@, bytes@));
                }
                break;
            }
            self.fifo.push_back(bytes[i] as i8);
            i = i + 1;
            proof {
                assert(self.fifo@ =~= old(self).fifo@ + Seq::new(i as nat, |k: int| bytes@[k] as i8));
            }
        }
        proof {
            if i == bytes.len() {
                assert(self.fifo@ =~= fifo_after_push(old(self).fifo@, bytes@));
            }
        }
    }

    fn clock(&mut self, count: u64)
        requires
            old(self).wf(),
        ensures
            final(self).wf(),
            final(self).fifo@ == fifo_after_clock(old(self).fifo@, count),
            final(self).current_sample == sample_after_clock(
                old(self).fifo@,
                old(self).current_sample,
                count,
            ),
    {
        if count == 0 {
            return;
        }
        let length = self.fifo.len() as u64;
        let consumed: u64 = if count < length {
            count
        } else {
            length
        };
        let mut taken: u64 = 0;
        while taken < consumed
            invariant
                taken <= consumed,
                consumed <= old(self).fifo@.len(),
                consumed == count || consumed == old(self).fifo@.len(),
                count > 0,
                self.fifo@ == old(self).fifo@.skip(taken as int),
                taken > 0 ==> self.current_sample == old(self).fifo@[taken - 1],
                taken == 0 ==> self.current_sample == old(self).current_sample,
            decreases consumed - taken,
        {
            match self.fifo.pop_front() {
                Some(sample) => {
                    self.current_sample = sample;
                },
                None => {},
            }
            taken = taken + 1;
            proof {
                assert(self.fifo@ =~= old(self).fifo@.skip(taken as int));
            }
        }
        if count > consumed {
            self.current_sample = 0;
        }
        proof {
            if count > old(self).fifo@.len() {
                assert(self.fifo@ =~= Seq::<i8>::empty());
            }
        }
    }

    fn reset(&mut self)
        ensures
            final(self).fifo@ == Seq::<i8>::empty(),
            final(self).current_sample == 0,
    {
        self.fifo.clear();
        self.current_sample = 0;
    }
}

/// The output queue after dropping leading stereo pairs until one more
/// pair fits.
pub open spec fn trimmed(samples: Seq<i16>) -> Seq<i16>
    decreases samples.len(),
{
    if samples.len() + 2 > 16_000 {
        trimmed(samples.skip(2))
    } else {
        samples
    }
}

/// The output queue after `pairs` more (left, right) pairs.
pub open spec fn emitted(samples: Seq<i16>, left: i16, right: i16, pairs: nat) -> Seq<i16>
    decreases pairs,
{
    if pairs == 0 {
        samples
    } else {
        emitted(trimmed(samples).push(left).push(right), left, right, (pairs - 1) as nat)
    }
}

/// What each register write does to the sound state.
pub open spec fn sound_control_high_written(before: Audio, after: Audio, value: u16) -> bool {
    &&& after.sound_control_high == value & 0xFF0F & !0x8800u16
    &&& value & 0x0800 != 0 ==> after.channels@[0].fifo@.len() == 0
        && after.channels@[0].current_sample == 0
    &&& value & 0x0800 == 0 ==> after.channels@[0] == before.channels@[0]
    &&& value & 0x8000 != 0 ==> after.channels@[1].fifo@.len() == 0
        && after.channels@[1].current_sample == 0
    &&& value & 0x8000 == 0 ==> after.channels@[1] == before.channels@[1]
    &&& after.sound_control_x == before.sound_control_x
    &&& after.sound_bias == before.sound_bias
    &&& after.output_enabled == before.output_enabled
    &&& after.output_phase == before.output_phase
    &&& after.output_samples@ == before.output_samples@
}

pub open spec fn sound_control_x_written(before: Audio, after: Audio, value: u16) -> bool {
    &&& after.sound_control_x == value & 0x80
    &&& before.spec_master_enabled() && value & 0x80 == 0 ==> {
        &&& after.sound_control_high == 0
        &&& after.channels@[0].fifo@.len() == 0
        &&& after.channels@[1].fifo@.len() == 0
        &&& after.channels@[0].current_sample == 0
        &&& after.channels@[1].current_sample == 0
    }
    &&& !(before.spec_master_enabled() && value & 0x80 == 0) ==> {
        &&& after.sound_control_high == before.sound_control_high
        &&& after.channels@[0] == before.channels@[0]
        &&& after.channels@[1] == before.channels@[1]
    }
    &&& after.sound_bias == before.sound_bias
    &&& after.output_enabled == before.output_enabled
    &&& after.output_phase == before.output_phase
    &&& after.output_samples@ == before.output_samples@
}

pub open spec fn fifo16_written(before: Audio, after: Audio, fifo: DirectSoundFifo, value: u16) -> bool {
    &&& after.channels@[fifo_number(fifo)].fifo@ == fifo_after_push(
        before.channels@[fifo_number(fifo)].fifo@,
        seq![(value & 0xFF) as u8, (value >> 8u16) as u8],
    )
    &&& after.channels@[fifo_number(fifo)].current_sample == before.channels@[fifo_number(fifo)].current_sample
    &&& after.channels@[1 - fifo_number(fifo)] == before.channels@[1 - fifo_number(fifo)]
    &&& after.sound_control_high == before.sound_control_high
    &&& after.sound_control_x == before.sound_control_x
    &&& after.sound_bias == before.sound_bias
    &&& after.output_samples@ == before.output_samples@
    &&& after.output_phase == before.output_phase
    &&& after.output_enabled == before.output_enabled
}

pub open spec fn fifo8_written(before: Audio, after: Audio, fifo: DirectSoundFifo, value: u8) -> bool {
    &&& after.channels@[fifo_number(fifo)].fifo@ == fifo_after_push(
        before.channels@[fifo_number(fifo)].fifo@,
        seq![value],
    )
    &&& after.channels@[fifo_number(fifo)].current_sample == before.channels@[fifo_number(fifo)].current_sample
    &&& after.channels@[1 - fifo_number(fifo)] == before.channels@[1 - fifo_number(fifo)]
    &&& after.sound_control_high == before.sound_control_high
    &&& after.sound_control_x == before.sound_control_x
    &&& after.sound_bias == before.sound_bias
    &&& after.output_samples@ == before.output_samples@
    &&& after.output_phase == before.output_phase
    &&& after.output_enabled == before.output_enabled
}

/// The sound state after `cycles` cycles with these timer overflows.
pub open spec fn audio_ticked(before: Audio, after: Audio, cycles: u32, overflows: Seq<u64>, r: AudioTickResult) -> bool {
    &&& after.sound_control_high == before.sound_control_high
    &&& after.sound_control_x == before.sound_control_x
    &&& after.sound_bias == before.sound_bias
    &&& after.output_enabled == before.output_enabled
    &&& channel_ticked(before, after, 0, overflows, r.fifo_dma_requests@[0])
    &&& channel_ticked(before, after, 1, overflows, r.fifo_dma_requests@[1])
    &&& !before.output_enabled ==> after.output_phase == before.output_phase
        && after.output_samples@ == before.output_samples@
    &&& before.output_enabled ==> {
        let total = before.output_phase as int + cycles as int * 48_000;
        let (left, right) = after.spec_mix();
        &&& after.output_phase == total % 16_777_216
        &&& after.output_samples@ == emitted(
            before.output_samples@,
            left,
            right,
            (total / 16_777_216) as nat,
        )
    }
}

/// Channel `k` after a tick: clocked by its timer's overflows while sound
/// is on, with a refill request when clocked and at most half full.
pub open spec fn channel_ticked(before: Audio, after: Audio, k: int, overflows: Seq<u64>, requested: bool) -> bool {
    let count = overflows[before.spec_timer_index(k)];
    let channel = before.channels@[k];
    if before.spec_master_enabled() {
        &&& after.channels@[k].fifo@ == fifo_after_clock(channel.fifo@, count)
        &&& after.channels@[k].current_sample == sample_after_clock(
            channel.fifo@,
            channel.current_sample,
            count,
        )
        &&& requested == (count != 0 && after.channels@[k].fifo@.len() <= 16)
    } else {
        &&& after.channels@[k] == channel
        &&& !requested
    }
}

pub open spec fn clamp_i16(value: int) -> i16 {
    if value < -32768 {
        -32768i16
    } else if value > 32767 {
        32767i16
    } else {
        value as i16
    }
}

/// The sound registers, both Direct Sound channels and the resampled
/// stereo output.
#[derive(Debug, Clone)]
pub struct Audio {
    pub sound_control_high: u16,
    pub sound_control_x: u16,
    pub sound_bias: u16,
    pub channels: [DirectSoundChannel; 2],
    pub output_enabled: bool,
    pub output_phase: u64,
    pub output_samples: VecDeque<i16>,
}

impl Audio {
    pub open spec fn wf(&self) -> bool {
        &&& self.channels@[0].wf()
        &&& self.channels@[1].wf()
        &&& self.output_phase < 16_777_216
        &&& self.output_samples@.len() <= 16_000
        &&& self.output_samples@.len() % 2 == 0
    }

    pub open spec fn spec_master_enabled(&self) -> bool {
        self.sound_control_x & 0x80 != 0
    }

    /// The timer (0 or 1) clocking a FIFO: SOUNDCNT_H bit 10 for A, 14 for B.
    pub open spec fn spec_timer_index(&self, fifo: int) -> int {
        if fifo == 0 {
            ((self.sound_control_high >> 10u16) & 1) as int
        } else {
            ((self.sound_control_high >> 14u16) & 1) as int
        }
    }

    /// One channel's contribution: the sample at full (x128) or half (x64)
    /// volume, on the sides it is routed to.
    pub open spec fn channel_contribution(&self, fifo: int) -> int {
        let sample = self.channels@[fifo].current_sample as int;
        let full = if fifo == 0 {
            self.sound_control_high & 4 != 0
        } else {
            self.sound_control_high & 8 != 0
        };
        sample * if full {
            128int
        } else {
            64int
        }
    }

    pub open spec fn routed_left(&self, fifo: int) -> bool {
        if fifo == 0 {
            self.sound_control_high & 0x0200 != 0
        } else {
            self.sound_control_high & 0x2000 != 0
        }
    }

    pub open spec fn routed_right(&self, fifo: int) -> bool {
        if fifo == 0 {
            self.sound_control_high & 0x0100 != 0
        } else {
            self.sound_control_high & 0x1000 != 0
        }
    }

    /// The stereo sample now playing, silent when sound is off.
    pub open spec fn spec_mix(&self) -> (i16, i16) {
        if !self.spec_master_enabled() {
            (0, 0)
        } else {
            let left = (if self.routed_left(0) {
                self.channel_contribution(0)
            } else {
                0
            }) + (if self.routed_left(1) {
                self.channel_contribution(1)
            } else {
                0
            });
            let right = (if self.routed_right(0) {
                self.channel_contribution(0)
            } else {
                0
            }) + (if self.routed_right(1) {
                self.channel_contribution(1)
            } else {
                0
            });
            (clamp_i16(left), clamp_i16(right))
        }
    }

    pub fn new() -> (r: Self)
        ensures
            r.wf(),
            r.sound_control_high == 0,
            r.sound_control_x == 0,
            r.sound_bias == 0x0200,
            r.channels@[0].fifo@.len() == 0,
            r.channels@[1].fifo@.len() == 0,
            r.channels@[0].current_sample == 0,
            r.channels@[1].current_sample == 0,
            !r.output_enabled,
            r.output_phase == 0,
            r.output_samples@.len() == 0,
    {
        Audio {
            sound_control_high: 0,
            sound_control_x: 0,
            sound_bias: 0x0200,
            channels: [DirectSoundChannel::new(), DirectSoundChannel::new()],
            output_enabled: false,
            output_phase: 0,
            output_samples: VecDeque::with_capacity(MAX_OUTPUT_SAMPLES),
        }
    }

    pub fn read_sound_control_high(&self) -> (r: u16)
        ensures
            r == self.sound_control_high,
    {
        self.sound_control_high
    }

    /// Bits 11 and 15 empty FIFO A and B; they read back as zero.
    pub fn write_sound_control_high(&mut self, value: u16)
        requires
            old(self).wf(),
        ensures
            final(self).wf(),
            sound_control_high_written(*old(self), *final(self), value),
    {
        if value & 0x0800 != 0 {
            self.channels[0].reset();
        }
        if value & 0x8000 != 0 {
            self.channels[1].reset();
        }
        self.sound_control_high = value & 0xFF0F & !0x8800u16;
    }

    pub fn read_sound_control_x(&self) -> (r: u16)
        ensures
            r == self.sound_control_x & 0x80,
    {
        self.sound_control_x & 0x80
    }

    /// Only the master enable is kept; turning sound off empties both
    /// FIFOs and clears SOUNDCNT_H.
    pub fn write_sound_control_x(&mut self, value: u16)
        requires
            old(self).wf(),
        ensures
            final(self).wf(),
            sound_control_x_written(*old(self), *final(self), value),
    {
        let was_enabled = self.master_enabled();
        proof {
            crate::bits::lemma_u16_fields(value);
        }
        self.sound_control_x = value & 0x80;
        if was_enabled && !self.master_enabled() {
            self.channels[0].reset();
            self.channels[1].reset();
            self.sound_control_high = 0;
        }
    }

    pub fn read_sound_bias(&self) -> (r: u16)
        ensures
            r == self.sound_bias,
    {
        self.sound_bias
    }

    pub fn write_sound_bias(&mut self, value: u16)
        ensures
            *final(self) == (Audio { sound_bias: value & 0xC3FE, ..*old(self) }),
    {
        self.sound_bias = value & 0xC3FE;
    }

    /// Queues the two bytes of `value`, low byte first.
    pub fn write_fifo16(&mut self, fifo: DirectSoundFifo, value: u16)
        requires
            old(self).wf(),
        ensures
            final(self).wf(),
            fifo16_written(*old(self), *final(self), fifo, value),
    {
        let bytes: [u8; 2] = [(value & 0xFF) as u8, (value >> 8u16) as u8];
        proof {
            assert(bytes@ =~= seq![(value & 0xFF) as u8, (value >> 8u16) as u8]);
        }
        let n = fifo.as_usize();
        if n == 0 {
            self.channels[0].push_bytes(&bytes);
        } else {
            self.channels[1].push_bytes(&bytes);
        }
    }

    pub fn write_fifo8(&mut self, fifo: DirectSoundFifo, value: u8)
        requires
            old(self).wf(),
        ensures
            final(self).wf(),
            fifo8_written(*old(self), *final(self), fifo, value),
    {
        let bytes: [u8; 1] = [value];
        proof {
            assert(bytes@ =~= seq![value]);
        }
        let n = fifo.as_usize();
        if n == 0 {
            self.channels[0].push_bytes(&bytes);
        } else {
            self.channels[1].push_bytes(&bytes);
        }
    }

    /// Turning output on or off restarts the resampling phase; turning it
    /// off drops the queued samples.
    pub fn set_output_enabled(&mut self, enabled: bool)
        requires
            old(self).wf(),
        ensures
            final(self).wf(),
            final(self).output_enabled == enabled,
            final(self).output_phase == 0,
            final(self).output_samples@ == if enabled {
                old(self).output_samples@
            } else {
                Seq::<i16>::empty()
            },
            final(self).channels == old(self).channels,
            final(self).sound_control_high == old(self).sound_control_high,
            final(self).sound_control_x == old(self).sound_control_x,
            final(self).sound_bias == old(self).sound_bias,
    {
        self.output_enabled = enabled;
        self.output_phase = 0;
        if !enabled {
            self.output_samples.clear();
        }
    }

    /// Moves every queued sample, oldest first, to the end of `destination`.
    pub fn drain_output_samples(&mut self, destination: &mut Vec<i16>)
        requires
            old(self).wf(),
        ensures
            final(self).wf(),
            final(destination)@ == old(destination)@ + old(self).output_samples@,
            final(self).output_samples@.len() == 0,
            final(self).channels == old(self).channels,
            final(self).output_phase == old(self).output_phase,
            final(self).output_enabled == old(self).output_enabled,
            final(self).sound_control_high == old(self).sound_control_high,
            final(self).sound_control_x == old(self).sound_control_x,
            final(self).sound_bias == old(self).sound_bias,
    {
        while self.output_samples.len() > 0
            invariant
                old(self).wf(),
                self.output_samples@.len() <= 16_000,
                self.sound_bias == old(self).sound_bias,
                destination@ + self.output_samples@ == old(destination)@ + old(self).output_samples@,
                self.channels == old(self).channels,
                self.output_phase == old(self).output_phase,
                self.output_enabled == old(self).output_enabled,
                self.sound_control_high == old(self).sound_control_high,
                self.sound_control_x == old(self).sound_control_x,
            decreases self.output_samples@.len(),
        {
            let ghost before = self.output_samples@;
            match self.output_samples.pop_front() {
                Some(sample) => {
                    destination.push(sample);
                    proof {
                        assert(before =~= seq![sample] + self.output_samples@);
                        assert(destination@ + self.output_samples@ =~= old(destination)@ + old(
                            self,
                        ).output_samples@);
                    }
                },
                None => {},
            }
        }
        proof {
            assert(destination@ =~= destination@ + self.output_samples@);
        }
    }

    pub fn fifo_level(&self, fifo: DirectSoundFifo) -> (r: usize)
        ensures
            r == self.channels@[fifo_number(fifo)].fifo@.len(),
    {
        self.channels[fifo.as_usize()].fifo.len()
    }

    /// Clocks each FIFO by its timer's overflows (while sound is on),
    /// asks for a refill of a clocked FIFO at or below half, and resamples
    /// the mix to 48 kHz while output is on.
    pub fn tick(&mut self, cycles: u32, timer_overflows: [u64; 4]) -> (r: AudioTickResult)
        requires
            old(self).wf(),
        ensures
            final(self).wf(),
            audio_ticked(*old(self), *final(self), cycles, timer_overflows@, r),
    {
        let mut fifo_dma_requests: [bool; 2] = [false, false];
        proof {
            crate::bits::lemma_u16_fields(self.sound_control_high);
        }
        if self.master_enabled() {
            let timer_a = self.timer_index(DirectSoundFifo::A);
            let count_a = timer_overflows[timer_a];
            self.channels[0].clock(count_a);
            fifo_dma_requests[0] = count_a != 0 && self.channels[0].fifo.len() <= FIFO_DMA_THRESHOLD;
            let timer_b = self.timer_index(DirectSoundFifo::B);
            let count_b = timer_overflows[timer_b];
            self.channels[1].clock(count_b);
            fifo_dma_requests[1] = count_b != 0 && self.channels[1].fifo.len() <= FIFO_DMA_THRESHOLD;
        }
        if self.output_enabled {
            self.output_phase = self.output_phase + cycles as u64 * AUDIO_OUTPUT_RATE as u64;
            let (left, right) = self.mix_sample();
            let ghost total = self.output_phase as int;
            let ghost clocked = self.channels;
            while self.output_phase >= GBA_CLOCK_HZ
                invariant
                    self.channels == clocked,
                    self.channels@[0].wf(),
                    self.channels@[1].wf(),
                    self.output_samples@.len() <= 16_000,
                    self.output_samples@.len() % 2 == 0,
                    self.sound_bias == old(self).sound_bias,
                    self.output_phase as int % 16_777_216 == total % 16_777_216,
                    (left, right) == self.spec_mix(),
                    emitted(
                        self.output_samples@,
                        left,
                        right,
                        (self.output_phase as int / 16_777_216) as nat,
                    ) == emitted(
                        old(self).output_samples@,
                        left,
                        right,
                        (total / 16_777_216) as nat,
                    ),
                    self.sound_control_high == old(self).sound_control_high,
                    self.sound_control_x == old(self).sound_control_x,
                    self.output_enabled == old(self).output_enabled,
                decreases self.output_phase,
            {
                let ghost before = self.output_samples@;
                let ghost phase = self.output_phase;
                self.output_phase = self.output_phase - GBA_CLOCK_HZ;
                self.trim_output();
                self.output_samples.push_back(left);
                self.output_samples.push_back(right);
                proof {
                    assert(self.output_samples@ == trimmed(before).push(left).push(right));
                    assert((phase as int / 16_777_216) as nat == (self.output_phase as int
                        / 16_777_216) as nat + 1);
                }
            }
        }
        AudioTickResult { fifo_dma_requests }
    }

    fn trim_output(&mut self)
        requires
            old(self).output_samples@.len() <= 16_000,
            old(self).output_samples@.len() % 2 == 0,
        ensures
            final(self).output_samples@ == trimmed(old(self).output_samples@),
            final(self).output_samples@.len() <= 15_998,
            final(self).output_samples@.len() % 2 == 0,
            final(self).sound_bias == old(self).sound_bias,
            final(self).channels == old(self).channels,
            final(self).output_phase == old(self).output_phase,
            final(self).output_enabled == old(self).output_enabled,
            final(self).sound_control_high == old(self).sound_control_high,
            final(self).sound_control_x == old(self).sound_control_x,
    {
        while self.output_samples.len() + 2 > MAX_OUTPUT_SAMPLES
            invariant
                trimmed(self.output_samples@) == trimmed(old(self).output_samples@),
                self.output_samples@.len() <= 16_000,
                self.output_samples@.len() % 2 == 0,
                self.sound_bias == old(self).sound_bias,
                self.channels == old(self).channels,
                self.output_phase == old(self).output_phase,
                self.output_enabled == old(self).output_enabled,
                self.sound_control_high == old(self).sound_control_high,
                self.sound_control_x == old(self).sound_control_x,
            decreases self.output_samples@.len(),
        {
            let ghost before = self.output_samples@;
            self.output_samples.pop_front();
            self.output_samples.pop_front();
            proof {
                assert(self.output_samples@ =~= before.skip(2));
            }
        }
    }

    fn mix_sample(&self) -> (r: (i16, i16))
        ensures
            r == self.spec_mix(),
    {
        if !self.master_enabled() {
            return (0, 0);
        }
        let mut left: i32 = 0;
        let mut right: i32 = 0;
        let sample_a = self.channels[0].current_sample as i32;
        let scaled_a: i32 = sample_a * if self.sound_control_high & 4 != 0 {
            128
        } else {
            64
        };
        if self.sound_control_high & 0x0200 != 0 {
            left = left + scaled_a;
        }
        if self.sound_control_high & 0x0100 != 0 {
            right = right + scaled_a;
        }
        let sample_b = self.channels[1].current_sample as i32;
        let scaled_b: i32 = sample_b * if self.sound_control_high & 8 != 0 {
            128
        } else {
            64
        };
        if self.sound_control_high & 0x2000 != 0 {
            left = left + scaled_b;
        }
        if self.sound_control_high & 0x1000 != 0 {
            right = right + scaled_b;
        }
        (clamp_to_i16(left), clamp_to_i16(right))
    }

    fn timer_index(&self, fifo: DirectSoundFifo) -> (r: usize)
        ensures
            r == self.spec_timer_index(fifo_number(fifo)),
            r < 2,
    {
        proof {
            crate::bits::lemma_u16_fields(self.sound_control_high);
        }
        match fifo {
            DirectSoundFifo::A => ((self.sound_control_high >> 10u16) & 1) as usize,
            DirectSoundFifo::B => ((self.sound_control_high >> 14u16) & 1) as usize,
        }
    }

    fn master_enabled(&self) -> (r: bool)
        ensures
            r == self.spec_master_enabled(),
    {
        self.sound_control_x & 0x80 != 0
    }
}

fn clamp_to_i16(value: i32) -> (r: i16)
    ensures
        r == clamp_i16(value as int),
{
    if value < -32768 {
        -32768
    } else if value > 32767 {
        32767
    } else {
        value as i16
    }
}

} // verus!
