use vstd::prelude::*;

use super::interrupt::InterruptSource;

verus! {

pub const DMA_CHANNEL_COUNT: usize = 4;

/// The sound FIFO registers that special-timing DMA1/DMA2 feed.
pub const FIFO_A_ADDRESS: u32 = 0x0400_00A0;
pub const FIFO_B_ADDRESS: u32 = 0x0400_00A4;

#[derive(Debug, Clone, Copy, PartialEq, Eq, Structural)]
pub enum DmaChannelIndex {
    Dma0,
    Dma1,
    Dma2,
    Dma3,
}

pub open spec fn dma_number(index: DmaChannelIndex) -> int {
    match index {
        DmaChannelIndex::Dma0 => 0,
        DmaChannelIndex::Dma1 => 1,
        DmaChannelIndex::Dma2 => 2,
        DmaChannelIndex::Dma3 => 3,
    }
}

pub open spec fn dma_interrupt(index: DmaChannelIndex) -> InterruptSource {
    match index {
        DmaChannelIndex::Dma0 => InterruptSource::Dma0,
        DmaChannelIndex::Dma1 => InterruptSource::Dma1,
        DmaChannelIndex::Dma2 => InterruptSource::Dma2,
        DmaChannelIndex::Dma3 => InterruptSource::Dma3,
    }
}

impl DmaChannelIndex {
    pub open spec fn spec_maximum_count(self) -> u32 {
        if self is Dma3 {
            0x1_0000
        } else {
            0x4000
        }
    }

    pub open spec fn spec_count_mask(self) -> u16 {
        if self is Dma3 {
            0xFFFF
        } else {
            0x3FFF
        }
    }

    /// DMA0 cannot read the cartridge range.
    pub open spec fn spec_source_address_mask(self) -> u32 {
        if self is Dma0 {
            0x07FF_FFFF
        } else {
            0x0FFF_FFFF
        }
    }

    pub open spec fn spec_destination_address_mask(self) -> u32 {
        if self is Dma3 {
            0x0FFF_FFFF
        } else {
            0x07FF_FFFF
        }
    }

    pub fn from_usize(index: usize) -> (r: Option<Self>)
        ensures
            index < 4 ==> (r matches Some(c) && dma_number(c) == index),
            index >= 4 ==> r is None,
    {
        match index {
            0 => Some(DmaChannelIndex::Dma0),
            1 => Some(DmaChannelIndex::Dma1),
            2 => Some(DmaChannelIndex::Dma2),
            3 => Some(DmaChannelIndex::Dma3),
            _ => None,
        }
    }

    pub fn as_usize(self) -> (r: usize)
        ensures
            r == dma_number(self),
    {
        match self {
            DmaChannelIndex::Dma0 => 0,
            DmaChannelIndex::Dma1 => 1,
            DmaChannelIndex::Dma2 => 2,
            DmaChannelIndex::Dma3 => 3,
        }
    }

    pub fn interrupt_source(self) -> (r: InterruptSource)
        ensures
            r == dma_interrupt(self),
    {
        match self {
            DmaChannelIndex::Dma0 => InterruptSource::Dma0,
            DmaChannelIndex::Dma1 => InterruptSource::Dma1,
            DmaChannelIndex::Dma2 => InterruptSource::Dma2,
            DmaChannelIndex::Dma3 => InterruptSource::Dma3,
        }
    }

    pub fn maximum_count(self) -> (r: u32)
        ensures
            r == self.spec_maximum_count(),
    {
        match self {
            DmaChannelIndex::Dma3 => 0x1_0000,
            _ => 0x4000,
        }
    }

    pub fn count_mask(self) -> (r: u16)
        ensures
            r == self.spec_count_mask(),
    {
        match self {
            DmaChannelIndex::Dma3 => 0xFFFF,
            _ => 0x3FFF,
        }
    }

    pub fn source_address_mask(self) -> (r: u32)
        ensures
            r == self.spec_source_address_mask(),
    {
        match self {
            DmaChannelIndex::Dma0 => 0x07FF_FFFF,
            _ => 0x0FFF_FFFF,
        }
    }

    pub fn destination_address_mask(self) -> (r: u32)
        ensures
            r == self.spec_destination_address_mask(),
    {
        match self {
            DmaChannelIndex::Dma3 => 0x0FFF_FFFF,
            _ => 0x07FF_FFFF,
        }
    }
}

/// How an address moves after each unit. `IncrementReload` is for the
/// destination only: it increments, and a repeating event DMA restores it.
#[derive(Debug, Clone, Copy, PartialEq, Eq, Structural)]
pub enum DmaAddressControl {
    Increment,
    Decrement,
    Fixed,
    IncrementReload,
}

pub open spec fn address_control_from_bits(bits: u16) -> DmaAddressControl {
    let b = bits & 3;
    if b == 0 {
        DmaAddressControl::Increment
    } else if b == 1 {
        DmaAddressControl::Decrement
    } else if b == 2 {
        DmaAddressControl::Fixed
    } else {
        DmaAddressControl::IncrementReload
    }
}

impl DmaAddressControl {
    pub fn from_bits(bits: u16) -> (r: Self)
        ensures
            r == address_control_from_bits(bits),
    {
        let b: u16 = bits & 3;
        if b == 0 {
            DmaAddressControl::Increment
        } else if b == 1 {
            DmaAddressControl::Decrement
        } else if b == 2 {
            DmaAddressControl::Fixed
        } else {
            DmaAddressControl::IncrementReload
        }
    }
}

#[derive(Debug, Clone, Copy, PartialEq, Eq, Structural)]
pub enum DmaStartTiming {
    Immediate,
    VBlank,
    HBlank,
    Special,
}

pub open spec fn start_timing_from_bits(bits: u16) -> DmaStartTiming {
    let b = bits & 3;
    if b == 0 {
        DmaStartTiming::Immediate
    } else if b == 1 {
        DmaStartTiming::VBlank
    } else if b == 2 {
        DmaStartTiming::HBlank
    } else {
        DmaStartTiming::Special
    }
}

impl DmaStartTiming {
    pub fn from_bits(bits: u16) -> (r: Self)
        ensures
            r == start_timing_from_bits(bits),
    {
        let b: u16 = bits & 3;
        if b == 0 {
            DmaStartTiming::Immediate
        } else if b == 1 {
            DmaStartTiming::VBlank
        } else if b == 2 {
            DmaStartTiming::HBlank
        } else {
            DmaStartTiming::Special
        }
    }
}

#[derive(Debug, Clone, Copy, PartialEq, Eq, Structural)]
pub enum DmaTransferWidth {
    Halfword,
    Word,
}

impl DmaTransferWidth {
    pub open spec fn spec_bytes(self) -> u32 {
        if self is Word {
            4
        } else {
            2
        }
    }

    pub fn bytes(self) -> (r: u32)
        ensures
            r == self.spec_bytes(),
    {
        match self {
            DmaTransferWidth::Halfword => 2,
            DmaTransferWidth::Word => 4,
        }
    }
}

/// DMAxCNT_H: destination control (bits 5-6), source control (7-8),
/// repeat (9), width (10), Game Pak DRQ (11), start timing (12-13),
/// IRQ (14), enable (15).
#[derive(Debug, Clone, Copy, PartialEq, Eq, Structural)]
pub struct DmaControl {
    pub raw: u16,
}

impl DmaControl {
    pub const WRITABLE_MASK: u16 = 0xFFE0;

    pub open spec fn spec_destination_control(self) -> DmaAddressControl {
        address_control_from_bits((self.raw >> 5) & 3)
    }

    pub open spec fn spec_source_control(self) -> DmaAddressControl {
        address_control_from_bits((self.raw >> 7) & 3)
    }

    pub open spec fn spec_repeat(self) -> bool {
        self.raw & 0x0200 != 0
    }

    pub open spec fn spec_transfer_width(self) -> DmaTransferWidth {
        if self.raw & 0x0400 != 0 {
            DmaTransferWidth::Word
        } else {
            DmaTransferWidth::Halfword
        }
    }

    pub open spec fn spec_game_pak_drq(self) -> bool {
        self.raw & 0x0800 != 0
    }

    pub open spec fn spec_start_timing(self) -> DmaStartTiming {
        start_timing_from_bits((self.raw >> 12) & 3)
    }

    pub open spec fn spec_irq_enabled(self) -> bool {
        self.raw & 0x4000 != 0
    }

    pub open spec fn spec_enabled(self) -> bool {
        self.raw & 0x8000 != 0
    }

    pub fn new() -> (r: Self)
        ensures
            r.raw == 0,
    {
        DmaControl { raw: 0 }
    }

    pub fn from_raw(raw: u16) -> (r: Self)
        ensures
            r.raw == raw & 0xFFE0,
    {
        DmaControl { raw: raw & 0xFFE0 }
    }

    pub fn raw(self) -> (r: u16)
        ensures
            r == self.raw,
    {
        self.raw
    }

    pub fn destination_control(self) -> (r: DmaAddressControl)
        ensures
            r == self.spec_destination_control(),
    {
        DmaAddressControl::from_bits((self.raw >> 5) & 3)
    }

    pub fn source_control(self) -> (r: DmaAddressControl)
        ensures
            r == self.spec_source_control(),
    {
        DmaAddressControl::from_bits((self.raw >> 7) & 3)
    }

    pub fn repeat(self) -> (r: bool)
        ensures
            r == self.spec_repeat(),
    {
        self.raw & 0x0200 != 0
    }

    pub fn transfer_width(self) -> (r: DmaTransferWidth)
        ensures
            r == self.spec_transfer_width(),
    {
        if self.raw & 0x0400 != 0 {
            DmaTransferWidth::Word
        } else {
            DmaTransferWidth::Halfword
        }
    }

    pub fn game_pak_drq(self) -> (r: bool)
        ensures
            r == self.spec_game_pak_drq(),
    {
        self.raw & 0x0800 != 0
    }

    pub fn start_timing(self) -> (r: DmaStartTiming)
        ensures
            r == self.spec_start_timing(),
    {
        DmaStartTiming::from_bits((self.raw >> 12) & 3)
    }

    pub fn irq_enabled(self) -> (r: bool)
        ensures
            r == self.spec_irq_enabled(),
    {
        self.raw & 0x4000 != 0
    }

    pub fn enabled(self) -> (r: bool)
        ensures
            r == self.spec_enabled(),
    {
        self.raw & 0x8000 != 0
    }

    pub fn set_enabled(&mut self, enabled: bool)
        ensures
            final(self).raw == if enabled {
                old(self).raw | 0x8000
            } else {
                old(self).raw & !0x8000u16
            },
            final(self).spec_enabled() == enabled,
    {
        proof {
            crate::bits::lemma_u16_set_clear();
        }
        if enabled {
            self.raw = self.raw | 0x8000;
        } else {
            self.raw = self.raw & !0x8000u16;
        }
    }
}

/// One channel: the three programmed registers, the control register, the
/// values latched when the transfer was armed, and the queued activations.
#[derive(Debug, Clone, Copy, PartialEq, Eq, Structural)]
pub struct DmaChannel {
    pub source_register: u32,
    pub destination_register: u32,
    pub count_register: u16,
    pub control: DmaControl,
    pub internal_source: u32,
    pub internal_destination: u32,
    pub internal_count: u32,
    pub pending_count: u32,
}

pub open spec fn idle_channel() -> DmaChannel {
    DmaChannel {
        source_register: 0,
        destination_register: 0,
        count_register: 0,
        control: DmaControl { raw: 0 },
        internal_source: 0,
        internal_destination: 0,
        internal_count: 0,
        pending_count: 0,
    }
}

/// The unit count a count register encodes: zero means the channel's
/// maximum.
pub open spec fn decoded_count(index: DmaChannelIndex, count_register: u16) -> u32 {
    let encoded = count_register & index.spec_count_mask();
    if encoded == 0 {
        index.spec_maximum_count()
    } else {
        encoded as u32
    }
}

/// The channel with its registers latched into the internal counters.
pub open spec fn latched(index: DmaChannelIndex, channel: DmaChannel) -> DmaChannel {
    DmaChannel {
        internal_source: channel.source_register & index.spec_source_address_mask(),
        internal_destination: channel.destination_register & index.spec_destination_address_mask(),
        internal_count: decoded_count(index, channel.count_register),
        ..channel
    }
}

impl DmaChannel {
    pub fn new() -> (r: Self)
        ensures
            r == idle_channel(),
    {
        DmaChannel {
            source_register: 0,
            destination_register: 0,
            count_register: 0,
            control: DmaControl::new(),
            internal_source: 0,
            internal_destination: 0,
            internal_count: 0,
            pending_count: 0,
        }
    }

    pub fn source_register(self) -> (r: u32)
        ensures
            r == self.source_register,
    {
        self.source_register
    }

    pub fn destination_register(self) -> (r: u32)
        ensures
            r == self.destination_register,
    {
        self.destination_register
    }

    pub fn count_register(self) -> (r: u16)
        ensures
            r == self.count_register,
    {
        self.count_register
    }

    pub fn control(self) -> (r: DmaControl)
        ensures
            r == self.control,
    {
        self.control
    }

    pub fn pending(self) -> (r: bool)
        ensures
            r == (self.pending_count != 0),
    {
        self.pending_count != 0
    }

    pub fn pending_count(self) -> (r: u32)
        ensures
            r == self.pending_count,
    {
        self.pending_count
    }

    fn reset(&mut self)
        ensures
            *final(self) == idle_channel(),
    {
        *self = DmaChannel::new();
    }
}

/// What the bus needs to run one activation of a channel.
#[derive(Debug, Clone, Copy, PartialEq, Eq, Structural)]
pub struct DmaTransferRequest {
    pub channel: DmaChannelIndex,
    pub source: u32,
    pub destination: u32,
    pub count: u32,
    pub width: DmaTransferWidth,
    pub source_control: DmaAddressControl,
    pub destination_control: DmaAddressControl,
    pub irq_enabled: bool,
    pub start_timing: DmaStartTiming,
    pub repeat: bool,
}

/// Where a finished transfer left its addresses.
#[derive(Debug, Clone, Copy, PartialEq, Eq, Structural)]
pub struct DmaTransferCompletion {
    pub channel: DmaChannelIndex,
    pub final_source: u32,
    pub final_destination: u32,
    pub transferred_units: u32,
}

/// DMA1 and DMA2 with special timing aimed at a sound FIFO always move
/// four words to a fixed destination.
pub open spec fn is_sound_fifo_dma(index: DmaChannelIndex, channel: DmaChannel) -> bool {
    (index is Dma1 || index is Dma2) && channel.control.spec_start_timing() is Special && (
    channel.internal_destination == FIFO_A_ADDRESS || channel.internal_destination
        == FIFO_B_ADDRESS)
}

/// The request a pending channel issues. Source mode 3 is prohibited and
/// runs as increment.
pub open spec fn channel_request(index: DmaChannelIndex, channel: DmaChannel) -> DmaTransferRequest {
    let fifo = is_sound_fifo_dma(index, channel);
    DmaTransferRequest {
        channel: index,
        source: channel.internal_source,
        destination: channel.internal_destination,
        count: if fifo {
            4
        } else {
            channel.internal_count
        },
        width: if fifo {
            DmaTransferWidth::Word
        } else {
            channel.control.spec_transfer_width()
        },
        source_control: if channel.control.spec_source_control() is IncrementReload {
            DmaAddressControl::Increment
        } else {
            channel.control.spec_source_control()
        },
        destination_control: if fifo {
            DmaAddressControl::Fixed
        } else {
            channel.control.spec_destination_control()
        },
        irq_enabled: channel.control.spec_irq_enabled(),
        start_timing: channel.control.spec_start_timing(),
        repeat: channel.control.spec_repeat(),
    }
}

/// Writing DMAxCNT_H: a rising enable edge latches the registers and, for
/// immediate timing, queues one activation; a falling edge drops every
/// queued activation.
pub open spec fn channel_after_control_write(
    index: DmaChannelIndex,
    channel: DmaChannel,
    value: u16,
) -> DmaChannel {
    let control = DmaControl { raw: value & 0xFFE0 };
    let written = DmaChannel { control, ..channel };
    if !channel.control.spec_enabled() && control.spec_enabled() {
        let armed = latched(index, written);
        if control.spec_start_timing() is Immediate {
            DmaChannel { pending_count: armed.pending_count.saturating_add(1), ..armed }
        } else {
            armed
        }
    } else if channel.control.spec_enabled() && !control.spec_enabled() {
        DmaChannel { pending_count: 0, ..written }
    } else {
        written
    }
}

/// A finished activation: a repeating event DMA reloads its count (and
/// its destination under increment/reload) and stays armed; any other
/// transfer disables the channel and drops its queue.
pub open spec fn channel_after_completion(
    index: DmaChannelIndex,
    channel: DmaChannel,
    completion: DmaTransferCompletion,
) -> DmaChannel {
    let repeated = channel.control.spec_repeat() && !(channel.control.spec_start_timing() is Immediate);
    if repeated {
        DmaChannel {
            internal_source: completion.final_source,
            internal_destination: if channel.control.spec_destination_control() is IncrementReload {
                channel.destination_register & index.spec_destination_address_mask()
            } else {
                completion.final_destination
            },
            internal_count: decoded_count(index, channel.count_register),
            ..channel
        }
    } else {
        DmaChannel {
            internal_source: completion.final_source,
            internal_destination: completion.final_destination,
            internal_count: 0,
            control: DmaControl { raw: channel.control.raw & !0x8000u16 },
            pending_count: 0,
            ..channel
        }
    }
}

/// An event of `timing` occurring `occurrences` times queues that many
/// activations on each armed channel waiting for it.
pub open spec fn channel_after_event(channel: DmaChannel, timing: DmaStartTiming, occurrences: u32) -> DmaChannel {
    if occurrences != 0 && !(timing is Immediate) && channel.control.spec_enabled()
        && channel.control.spec_start_timing() == timing {
        DmaChannel { pending_count: channel.pending_count.saturating_add(occurrences), ..channel }
    } else {
        channel
    }
}

/// A word written to a sound FIFO queues one activation on DMA1/DMA2 when
/// armed with special timing and aimed at that FIFO.
pub open spec fn channel_after_fifo_request(
    index: int,
    channel: DmaChannel,
    destination: u32,
) -> DmaChannel {
    if (index == 1 || index == 2) && (destination == FIFO_A_ADDRESS || destination == FIFO_B_ADDRESS)
        && channel.control.spec_enabled() && channel.control.spec_start_timing() is Special
        && channel.internal_destination == destination {
        DmaChannel { pending_count: channel.pending_count.saturating_add(1), ..channel }
    } else {
        channel
    }
}

/// Bit `index` of the pending mask.
pub open spec fn mask_has(mask: u8, index: int) -> bool {
    (mask >> (index as u8)) & 1 == 1
}

pub open spec fn channel_bit(index: int) -> u8 {
    1u8 << (index as u8)
}

/// The four channels and the mask of those with queued activations.
#[derive(Debug, Clone, PartialEq, Eq)]
pub struct DmaController {
    pub channels: [DmaChannel; 4],
    pub pending_mask: u8,
}

proof fn lemma_mask_update(m: u8, n: int)
    requires
        0 <= n < 4,
    ensures
        forall|i: int|
            0 <= i < 4 ==> (#[trigger] mask_has(m | channel_bit(n), i) == (i == n || mask_has(m, i))),
        forall|i: int|
            0 <= i < 4 ==> (#[trigger] mask_has(m & !channel_bit(n), i) == (i != n && mask_has(m, i))),
        m < 16 ==> (m | channel_bit(n)) < 16,
        m < 16 ==> (m & !channel_bit(n)) < 16,
{
    let b = n as u8;
    crate::bits::lemma_u8_single_bit(m, b, 0);
    crate::bits::lemma_u8_single_bit(m, b, 1);
    crate::bits::lemma_u8_single_bit(m, b, 2);
    crate::bits::lemma_u8_single_bit(m, b, 3);
}

impl DmaController {
    /// The pending mask mirrors the queues, and only an armed channel has
    /// a queue.
    pub open spec fn wf(self) -> bool {
        &&& self.pending_mask < 16
        &&& forall|i: int|
            0 <= i < 4 ==> (#[trigger] mask_has(self.pending_mask, i) == (self.channels@[i].pending_count
                != 0))
        &&& forall|i: int|
            0 <= i < 4 ==> (#[trigger] self.channels@[i].pending_count != 0
                ==> self.channels@[i].control.spec_enabled())
    }

    pub open spec fn has_pending(self) -> bool {
        exists|i: int| 0 <= i < 4 && #[trigger] self.channels@[i].pending_count != 0
    }

    /// The pending channel of highest priority: the lowest number.
    pub open spec fn lowest_pending(self) -> int {
        if self.channels@[0].pending_count != 0 {
            0
        } else if self.channels@[1].pending_count != 0 {
            1
        } else if self.channels@[2].pending_count != 0 {
            2
        } else {
            3
        }
    }

    pub fn new() -> (r: Self)
        ensures
            r.wf(),
            r.pending_mask == 0,
            forall|i: int| 0 <= i < 4 ==> #[trigger] r.channels@[i] == idle_channel(),
    {
        let r = DmaController {
            channels: [DmaChannel::new(), DmaChannel::new(), DmaChannel::new(), DmaChannel::new()],
            pending_mask: 0,
        };
        proof {
            crate::bits::lemma_u8_low_nibble(0);
        }
        r
    }

    pub fn channel(&self, index: DmaChannelIndex) -> (r: &DmaChannel)
        ensures
            *r == self.channels@[dma_number(index)],
    {
        &self.channels[index.as_usize()]
    }

    pub fn read_source(&self, index: DmaChannelIndex) -> (r: u32)
        ensures
            r == self.channels@[dma_number(index)].source_register,
    {
        self.channel(index).source_register()
    }

    pub fn read_destination(&self, index: DmaChannelIndex) -> (r: u32)
        ensures
            r == self.channels@[dma_number(index)].destination_register,
    {
        self.channel(index).destination_register()
    }

    pub fn read_count(&self, index: DmaChannelIndex) -> (r: u16)
        ensures
            r == self.channels@[dma_number(index)].count_register,
    {
        self.channel(index).count_register()
    }

    pub fn read_control(&self, index: DmaChannelIndex) -> (r: u16)
        ensures
            r == self.channels@[dma_number(index)].control.raw,
    {
        self.channel(index).control().raw()
    }

    pub fn write_source(&mut self, index: DmaChannelIndex, value: u32)
        requires
            old(self).wf(),
        ensures
            final(self).wf(),
            final(self).pending_mask == old(self).pending_mask,
            final(self).channels@ == old(self).channels@.update(
                dma_number(index),
                DmaChannel {
                    source_register: value & index.spec_source_address_mask(),
                    ..old(self).channels@[dma_number(index)]
                },
            ),
    {
        let n = index.as_usize();
        let mut channel = self.channels[n];
        channel.source_register = value & index.source_address_mask();
        self.channels[n] = channel;
    }

    pub fn write_destination(&mut self, index: DmaChannelIndex, value: u32)
        requires
            old(self).wf(),
        ensures
            final(self).wf(),
            final(self).pending_mask == old(self).pending_mask,
            final(self).channels@ == old(self).channels@.update(
                dma_number(index),
                DmaChannel {
                    destination_register: value & index.spec_destination_address_mask(),
                    ..old(self).channels@[dma_number(index)]
                },
            ),
    {
        let n = index.as_usize();
        let mut channel = self.channels[n];
        channel.destination_register = value & index.destination_address_mask();
        self.channels[n] = channel;
    }

    pub fn write_count(&mut self, index: DmaChannelIndex, value: u16)
        requires
            old(self).wf(),
        ensures
            final(self).wf(),
            final(self).pending_mask == old(self).pending_mask,
            final(self).channels@ == old(self).channels@.update(
                dma_number(index),
                DmaChannel {
                    count_register: value & index.spec_count_mask(),
                    ..old(self).channels@[dma_number(index)]
                },
            ),
    {
        let n = index.as_usize();
        let mut channel = self.channels[n];
        channel.count_register = value & index.count_mask();
        self.channels[n] = channel;
    }

    pub fn write_control(&mut self, index: DmaChannelIndex, value: u16)
        requires
            old(self).wf(),
        ensures
            final(self).wf(),
            final(self).channels@ == old(self).channels@.update(
                dma_number(index),
                channel_after_control_write(index, old(self).channels@[dma_number(index)], value),
            ),
    {
        let n = index.as_usize();
        let mut channel = self.channels[n];
        let old_enabled = channel.control.enabled();
        let new_control = DmaControl::from_raw(value);
        let new_enabled = new_control.enabled();
        channel.control = new_control;
        let bit: u8 = 1u8 << (n as u8);
        proof {
            lemma_mask_update(self.pending_mask, n as int);
        }
        if !old_enabled && new_enabled {
            Self::latch_channel(index, &mut channel);
            if matches!(new_control.start_timing(), DmaStartTiming::Immediate) {
                channel.pending_count = channel.pending_count.saturating_add(1);
                self.pending_mask = self.pending_mask | bit;
            }
        }
        if old_enabled && !new_enabled {
            channel.pending_count = 0;
            self.pending_mask = self.pending_mask & !bit;
        }
        self.channels[n] = channel;
    }

    fn latch_channel(index: DmaChannelIndex, channel: &mut DmaChannel)
        ensures
            *final(channel) == latched(index, *old(channel)),
    {
        channel.internal_source = channel.source_register & index.source_address_mask();
        channel.internal_destination = channel.destination_register & index.destination_address_mask();
        let encoded_count: u16 = channel.count_register & index.count_mask();
        channel.internal_count = if encoded_count == 0 {
            index.maximum_count()
        } else {
            encoded_count as u32
        };
    }

    /// Takes one activation of the highest-priority pending channel and
    /// describes the transfer it asks for.
    pub fn next_pending_request(&mut self) -> (r: Option<DmaTransferRequest>)
        requires
            old(self).wf(),
        ensures
            final(self).wf(),
            !old(self).has_pending() ==> r is None && *final(self) == *old(self),
            old(self).has_pending() ==> {
                let n = old(self).lowest_pending();
                let channel = old(self).channels@[n];
                &&& r matches Some(request)
                &&& dma_number(request.channel) == n
                &&& request == channel_request(request.channel, channel)
                &&& final(self).channels@ == old(self).channels@.update(
                    n,
                    DmaChannel { pending_count: (channel.pending_count - 1) as u32, ..channel },
                )
            },
    {
        proof {
            crate::bits::lemma_u8_low_nibble(self.pending_mask);
        }
        if self.pending_mask == 0 {
            proof {
                assert(mask_has(self.pending_mask, 0) == false);
                assert(mask_has(self.pending_mask, 1) == false);
                assert(mask_has(self.pending_mask, 2) == false);
                assert(mask_has(self.pending_mask, 3) == false);
            }
            return None;
        }
        let tz: u32 = self.pending_mask.trailing_zeros();
        proof {
            vstd::std_specs::bits::axiom_u8_trailing_zeros(self.pending_mask);
            assert(mask_has(self.pending_mask, 0) || mask_has(self.pending_mask, 1) || mask_has(
                self.pending_mask,
                2,
            ) || mask_has(self.pending_mask, 3));
            if tz >= 4 {
                assert((self.pending_mask >> 0u8) & 1u8 == 0u8);
                assert((self.pending_mask >> 1u8) & 1u8 == 0u8);
                assert((self.pending_mask >> 2u8) & 1u8 == 0u8);
                assert((self.pending_mask >> 3u8) & 1u8 == 0u8);
            }
            assert(tz < 4);
            assert(mask_has(self.pending_mask, tz as int));
            assert forall|j: int| 0 <= j < tz implies !#[trigger] mask_has(self.pending_mask, j) by {
                assert((self.pending_mask >> (j as u8)) & 1u8 == 0u8);
            }
            assert(mask_has(self.pending_mask, 0) == (self.channels@[0].pending_count != 0));
            assert(mask_has(self.pending_mask, 1) == (self.channels@[1].pending_count != 0));
            assert(mask_has(self.pending_mask, 2) == (self.channels@[2].pending_count != 0));
            assert(mask_has(self.pending_mask, 3) == (self.channels@[3].pending_count != 0));
            if tz > 0 {
                assert(!mask_has(self.pending_mask, 0));
            }
            if tz > 1 {
                assert(!mask_has(self.pending_mask, 1));
            }
            if tz > 2 {
                assert(!mask_has(self.pending_mask, 2));
            }
            assert(tz == self.lowest_pending());
        }
        let n: usize = tz as usize;
        let index = match DmaChannelIndex::from_usize(n) {
            Some(c) => c,
            None => DmaChannelIndex::Dma0,
        };
        let mut channel = self.channels[n];
        let ghost before = channel;
        channel.pending_count = channel.pending_count - 1;
        proof {
            lemma_mask_update(self.pending_mask, n as int);
        }
        if channel.pending_count == 0 {
            self.pending_mask = self.pending_mask & !(1u8 << (n as u8));
        }
        self.channels[n] = channel;
        let sound_fifo_dma = (matches!(index, DmaChannelIndex::Dma1) || matches!(
            index,
            DmaChannelIndex::Dma2
        )) && matches!(channel.control.start_timing(), DmaStartTiming::Special) && (
        channel.internal_destination == FIFO_A_ADDRESS || channel.internal_destination
            == FIFO_B_ADDRESS);
        let source_control = match channel.control.source_control() {
            DmaAddressControl::IncrementReload => DmaAddressControl::Increment,
            control => control,
        };
        let request = DmaTransferRequest {
            channel: index,
            source: channel.internal_source,
            destination: channel.internal_destination,
            count: if sound_fifo_dma {
                4
            } else {
                channel.internal_count
            },
            width: if sound_fifo_dma {
                DmaTransferWidth::Word
            } else {
                channel.control.transfer_width()
            },
            source_control,
            destination_control: if sound_fifo_dma {
                DmaAddressControl::Fixed
            } else {
                channel.control.destination_control()
            },
            irq_enabled: channel.control.irq_enabled(),
            start_timing: channel.control.start_timing(),
            repeat: channel.control.repeat(),
        };
        proof {
            assert(request == channel_request(index, before));
        }
        Some(request)
    }

    pub fn complete_transfer(&mut self, completion: DmaTransferCompletion)
        requires
            old(self).wf(),
        ensures
            final(self).wf(),
            final(self).channels@ == old(self).channels@.update(
                dma_number(completion.channel),
                channel_after_completion(
                    completion.channel,
                    old(self).channels@[dma_number(completion.channel)],
                    completion,
                ),
            ),
    {
        let index = completion.channel;
        let n = index.as_usize();
        let mut channel = self.channels[n];
        let repeated_event_dma = channel.control.repeat() && !matches!(
            channel.control.start_timing(),
            DmaStartTiming::Immediate
        );
        channel.internal_source = completion.final_source;
        proof {
            lemma_mask_update(self.pending_mask, n as int);
        }
        if repeated_event_dma {
            channel.internal_destination = match channel.control.destination_control() {
                DmaAddressControl::IncrementReload => channel.destination_register
                    & index.destination_address_mask(),
                _ => completion.final_destination,
            };
            let encoded_count: u16 = channel.count_register & index.count_mask();
            channel.internal_count = if encoded_count == 0 {
                index.maximum_count()
            } else {
                encoded_count as u32
            };
        } else {
            channel.internal_destination = completion.final_destination;
            channel.internal_count = 0;
            channel.control.set_enabled(false);
            channel.pending_count = 0;
            self.pending_mask = self.pending_mask & !(1u8 << (n as u8));
        }
        self.channels[n] = channel;
    }

    pub fn trigger(&mut self, timing: DmaStartTiming, occurrences: u32)
        requires
            old(self).wf(),
        ensures
            final(self).wf(),
            forall|i: int|
                0 <= i < 4 ==> #[trigger] final(self).channels@[i] == channel_after_event(
                    old(self).channels@[i],
                    timing,
                    occurrences,
                ),
    {
        if occurrences == 0 || matches!(timing, DmaStartTiming::Immediate) {
            return;
        }
        let mut n: usize = 0;
        while n < 4
            invariant
                n <= 4,
                occurrences != 0,
                !(timing is Immediate),
                self.wf(),
                forall|i: int|
                    0 <= i < n ==> #[trigger] self.channels@[i] == channel_after_event(
                        old(self).channels@[i],
                        timing,
                        occurrences,
                    ),
                forall|i: int| n <= i < 4 ==> #[trigger] self.channels@[i] == old(self).channels@[i],
            decreases 4 - n,
        {
            let mut channel = self.channels[n];
            if channel.control.enabled() && channel.control.start_timing() == timing {
                proof {
                    lemma_mask_update(self.pending_mask, n as int);
                }
                channel.pending_count = channel.pending_count.saturating_add(occurrences);
                self.pending_mask = self.pending_mask | (1u8 << (n as u8));
                self.channels[n] = channel;
            }
            n = n + 1;
        }
    }

    pub fn trigger_sound_fifo(&mut self, destination: u32)
        requires
            old(self).wf(),
        ensures
            final(self).wf(),
            forall|i: int|
                0 <= i < 4 ==> #[trigger] final(self).channels@[i] == channel_after_fifo_request(
                    i,
                    old(self).channels@[i],
                    destination,
                ),
    {
        if !(destination == FIFO_A_ADDRESS || destination == FIFO_B_ADDRESS) {
            return;
        }
        let mut n: usize = 1;
        while n < 3
            invariant
                1 <= n <= 3,
                destination == FIFO_A_ADDRESS || destination == FIFO_B_ADDRESS,
                self.wf(),
                forall|i: int|
                    0 <= i < n ==> #[trigger] self.channels@[i] == channel_after_fifo_request(
                        i,
                        old(self).channels@[i],
                        destination,
                    ),
                forall|i: int| n <= i < 4 ==> #[trigger] self.channels@[i] == old(self).channels@[i],
            decreases 3 - n,
        {
            let mut channel = self.channels[n];
            if channel.control.enabled() && matches!(
                channel.control.start_timing(),
                DmaStartTiming::Special
            ) && channel.internal_destination == destination {
                proof {
                    lemma_mask_update(self.pending_mask, n as int);
                }
                channel.pending_count = channel.pending_count.saturating_add(1);
                self.pending_mask = self.pending_mask | (1u8 << (n as u8));
                self.channels[n] = channel;
            }
            n = n + 1;
        }
    }

    pub fn reset(&mut self)
        ensures
            final(self).wf(),
            final(self).pending_mask == 0,
            forall|i: int| 0 <= i < 4 ==> #[trigger] final(self).channels@[i] == idle_channel(),
    {
        let mut n: usize = 0;
        while n < 4
            invariant
                n <= 4,
                forall|i: int| 0 <= i < n ==> #[trigger] self.channels@[i] == idle_channel(),
            decreases 4 - n,
        {
            let mut channel = self.channels[n];
            channel.reset();
            self.channels[n] = channel;
            n = n + 1;
        }
        self.pending_mask = 0;
        proof {
            crate::bits::lemma_u8_low_nibble(0);
        }
    }
}

/// The queue mask and the queues agree, and no disarmed channel has a
/// queue, after any sequence of register writes, events, requests and
/// completions: each operation keeps the controller well formed.
pub proof fn law_pending_mask_tracks_queues(controller: DmaController)
    requires
        controller.wf(),
    ensures
        controller.has_pending() <==> controller.pending_mask != 0,
        controller.has_pending() ==> controller.channels@[controller.lowest_pending()].control.spec_enabled(),
{
    let m = controller.pending_mask;
    crate::bits::lemma_u8_low_nibble(m);
    assert(mask_has(m, 0) == (controller.channels@[0].pending_count != 0));
    assert(mask_has(m, 1) == (controller.channels@[1].pending_count != 0));
    assert(mask_has(m, 2) == (controller.channels@[2].pending_count != 0));
    assert(mask_has(m, 3) == (controller.channels@[3].pending_count != 0));
    if m != 0 {
        assert(mask_has(m, 0) || mask_has(m, 1) || mask_has(m, 2) || mask_has(m, 3));
    }
    if controller.has_pending() {
        let i = choose|i: int| 0 <= i < 4 && #[trigger] controller.channels@[i].pending_count != 0;
        assert(mask_has(controller.pending_mask, i));
    }
}

} // verus!
