use vstd::prelude::*;

use super::audio::{
    audio_ticked, fifo16_written, fifo8_written, sound_control_high_written,
    sound_control_x_written, Audio, AudioTickResult, DirectSoundFifo,
};
use super::dma::{
    channel_after_control_write, channel_after_event, channel_after_fifo_request, dma_number,
    DmaChannel, DmaChannelIndex, DmaController, DmaStartTiming, FIFO_A_ADDRESS, FIFO_B_ADDRESS,
};
use super::interrupt::{InterruptController, InterruptSource};
use super::keypad::{key_mask, keypad_evaluated, Key, KeyControl, Keypad};
use super::memory::{read_u16_le, spec_read_u16_le, byte_or_zero, write_u16_le, spec_write_bytes, le_bytes_u16};
use super::power::{PowerControl, PowerStateRequest};
use super::ppu::{dispstat_value, no_events, scan, DispStat, Ppu, PpuTickResult};
use super::timer::{timer_number, timers_ticked, enable_bit, Timer, TimerController, TimerIndex, TimerTickResult};
use super::video::{
    sign_extended_28, AffineBackground, AffineBackgroundControl, DisplayControl, Video,
};
use super::waitstate::WaitControl;

verus! {

/// The registers of one DMA channel.
#[derive(Debug, Clone, Copy, PartialEq, Eq, Structural)]
pub enum DmaRegister {
    SourceLow,
    SourceHigh,
    DestinationLow,
    DestinationHigh,
    Count,
    Control,
}

/// The registers of one timer.
#[derive(Debug, Clone, Copy, PartialEq, Eq, Structural)]
pub enum TimerRegister {
    Counter,
    Control,
}

/// What an I/O halfword offset addresses. Registers without a model are
/// backed by plain storage.
#[derive(Debug, Clone, Copy, PartialEq, Eq, Structural)]
pub enum IoRegister {
    Dma(DmaChannelIndex, DmaRegister),
    Timer(TimerIndex, TimerRegister),
    DisplayControl,
    DisplayStatus,
    VerticalCount,
    AffineControl { bg3: bool },
    AffineMatrix { bg3: bool, parameter: u8 },
    AffineReference { bg3: bool, y: bool, high: bool },
    SoundControlHigh,
    SoundControlX,
    SoundBias,
    Fifo(DirectSoundFifo),
    KeyInput,
    KeyControl,
    InterruptEnable,
    InterruptFlags,
    WaitControl,
    MasterEnable,
    PowerControl,
    Storage,
}

pub open spec fn dma_index(n: int) -> DmaChannelIndex {
    if n == 0 {
        DmaChannelIndex::Dma0
    } else if n == 1 {
        DmaChannelIndex::Dma1
    } else if n == 2 {
        DmaChannelIndex::Dma2
    } else {
        DmaChannelIndex::Dma3
    }
}

pub open spec fn timer_index(n: int) -> TimerIndex {
    if n == 0 {
        TimerIndex::Timer0
    } else if n == 1 {
        TimerIndex::Timer1
    } else if n == 2 {
        TimerIndex::Timer2
    } else {
        TimerIndex::Timer3
    }
}

/// The DMA register at a halfword offset in 0xB0..=0xDE, 12 bytes a
/// channel; `None` elsewhere and at odd offsets.
pub open spec fn dma_register_at(offset: u32) -> Option<(DmaChannelIndex, DmaRegister)> {
    if 0xB0 <= offset <= 0xDE {
        let relative = offset - 0xB0;
        let register = relative % 12;
        let channel = dma_index(relative / 12);
        if register == 0 {
            Some((channel, DmaRegister::SourceLow))
        } else if register == 2 {
            Some((channel, DmaRegister::SourceHigh))
        } else if register == 4 {
            Some((channel, DmaRegister::DestinationLow))
        } else if register == 6 {
            Some((channel, DmaRegister::DestinationHigh))
        } else if register == 8 {
            Some((channel, DmaRegister::Count))
        } else if register == 10 {
            Some((channel, DmaRegister::Control))
        } else {
            None
        }
    } else {
        None
    }
}

/// The timer register at an offset in 0x100..=0x10E, 4 bytes a timer:
/// the counter in the low half, the control in the high half.
pub open spec fn timer_register_at(offset: u32) -> Option<(TimerIndex, TimerRegister)> {
    if 0x100 <= offset <= 0x10E {
        let relative = offset - 0x100;
        Some(
            (
                timer_index(relative / 4),
                if relative % 4 < 2 {
                    TimerRegister::Counter
                } else {
                    TimerRegister::Control
                },
            ),
        )
    } else {
        None
    }
}

/// The register at an even offset: DMA at 0xB0-0xDF (12 bytes a
/// channel), timers at 0x100-0x10F (4 bytes a timer), and the single
/// registers of the display, sound, keypad, interrupt, wait-state and
/// power blocks.
pub open spec fn io_register(offset: u32) -> IoRegister {
    if 0xB0 <= offset <= 0xDE {
        match dma_register_at(offset) {
            Some((channel, register)) => IoRegister::Dma(channel, register),
            None => IoRegister::Storage,
        }
    } else if 0x100 <= offset <= 0x10E {
        match timer_register_at(offset) {
            Some((timer, register)) => IoRegister::Timer(timer, register),
            None => IoRegister::Storage,
        }
    } else if offset == 0x000 {
        IoRegister::DisplayControl
    } else if offset == 0x004 {
        IoRegister::DisplayStatus
    } else if offset == 0x006 {
        IoRegister::VerticalCount
    } else if offset == 0x00C || offset == 0x00E {
        IoRegister::AffineControl { bg3: offset == 0x00E }
    } else if 0x20 <= offset <= 0x27 || 0x30 <= offset <= 0x37 {
        let bg3 = offset >= 0x30;
        let base: u32 = if bg3 {
            0x30
        } else {
            0x20
        };
        IoRegister::AffineMatrix { bg3, parameter: ((offset - base) / 2) as u8 }
    } else if 0x28 <= offset <= 0x2F || 0x38 <= offset <= 0x3F {
        let bg3 = offset >= 0x38;
        let base: u32 = if bg3 {
            0x38
        } else {
            0x28
        };
        IoRegister::AffineReference { bg3, y: offset - base >= 4, high: (offset - base) % 4 >= 2 }
    } else if offset == 0x082 {
        IoRegister::SoundControlHigh
    } else if offset == 0x084 {
        IoRegister::SoundControlX
    } else if offset == 0x088 {
        IoRegister::SoundBias
    } else if 0xA0 <= offset <= 0xA3 {
        IoRegister::Fifo(DirectSoundFifo::A)
    } else if 0xA4 <= offset <= 0xA7 {
        IoRegister::Fifo(DirectSoundFifo::B)
    } else if offset == 0x130 {
        IoRegister::KeyInput
    } else if offset == 0x132 {
        IoRegister::KeyControl
    } else if offset == 0x200 {
        IoRegister::InterruptEnable
    } else if offset == 0x202 {
        IoRegister::InterruptFlags
    } else if offset == 0x204 {
        IoRegister::WaitControl
    } else if offset == 0x208 {
        IoRegister::MasterEnable
    } else if offset == 0x300 {
        IoRegister::PowerControl
    } else {
        IoRegister::Storage
    }
}

fn decode_dma_register(offset: u32) -> (r: Option<(DmaChannelIndex, DmaRegister)>)
    ensures
        r == dma_register_at(offset),
{
    if offset < IoRegisters::DMA0SAD_OFFSET || offset > IoRegisters::DMA3CNT_H_OFFSET {
        return None;
    }
    let relative = offset - IoRegisters::DMA0SAD_OFFSET;
    let channel_number = (relative / 12) as usize;
    let channel = match DmaChannelIndex::from_usize(channel_number) {
        Some(channel) => channel,
        None => return None,
    };
    let register = match relative % 12 {
        0 => DmaRegister::SourceLow,
        2 => DmaRegister::SourceHigh,
        4 => DmaRegister::DestinationLow,
        6 => DmaRegister::DestinationHigh,
        8 => DmaRegister::Count,
        10 => DmaRegister::Control,
        _ => return None,
    };
    Some((channel, register))
}

fn decode_timer_register(offset: u32) -> (r: Option<(TimerIndex, TimerRegister)>)
    ensures
        r == timer_register_at(offset),
{
    if offset < IoRegisters::TM0CNT_L_OFFSET || offset > IoRegisters::TM3CNT_H_OFFSET {
        return None;
    }
    let relative = offset - IoRegisters::TM0CNT_L_OFFSET;
    let timer = match TimerIndex::from_usize((relative / 4) as usize) {
        Some(timer) => timer,
        None => return None,
    };
    let register = if relative % 4 < 2 {
        TimerRegister::Counter
    } else {
        TimerRegister::Control
    };
    Some((timer, register))
}

pub fn decode_register(offset: u32) -> (r: IoRegister)
    ensures
        r == io_register(offset),
{
    if 0xB0 <= offset && offset <= 0xDE {
        match decode_dma_register(offset) {
            Some((channel, register)) => IoRegister::Dma(channel, register),
            None => IoRegister::Storage,
        }
    } else if 0x100 <= offset && offset <= 0x10E {
        match decode_timer_register(offset) {
            Some((timer, register)) => IoRegister::Timer(timer, register),
            None => IoRegister::Storage,
        }
    } else if offset == 0x000 {
        IoRegister::DisplayControl
    } else if offset == 0x004 {
        IoRegister::DisplayStatus
    } else if offset == 0x006 {
        IoRegister::VerticalCount
    } else if offset == 0x00C || offset == 0x00E {
        IoRegister::AffineControl { bg3: offset == 0x00E }
    } else if (0x20 <= offset && offset <= 0x27) || (0x30 <= offset && offset <= 0x37) {
        let bg3 = offset >= 0x30;
        let base: u32 = if bg3 {
            0x30
        } else {
            0x20
        };
        IoRegister::AffineMatrix { bg3, parameter: ((offset - base) / 2) as u8 }
    } else if (0x28 <= offset && offset <= 0x2F) || (0x38 <= offset && offset <= 0x3F) {
        let bg3 = offset >= 0x38;
        let base: u32 = if bg3 {
            0x38
        } else {
            0x28
        };
        IoRegister::AffineReference { bg3, y: offset - base >= 4, high: (offset - base) % 4 >= 2 }
    } else if offset == 0x082 {
        IoRegister::SoundControlHigh
    } else if offset == 0x084 {
        IoRegister::SoundControlX
    } else if offset == 0x088 {
        IoRegister::SoundBias
    } else if 0xA0 <= offset && offset <= 0xA3 {
        IoRegister::Fifo(DirectSoundFifo::A)
    } else if 0xA4 <= offset && offset <= 0xA7 {
        IoRegister::Fifo(DirectSoundFifo::B)
    } else if offset == 0x130 {
        IoRegister::KeyInput
    } else if offset == 0x132 {
        IoRegister::KeyControl
    } else if offset == 0x200 {
        IoRegister::InterruptEnable
    } else if offset == 0x202 {
        IoRegister::InterruptFlags
    } else if offset == 0x204 {
        IoRegister::WaitControl
    } else if offset == 0x208 {
        IoRegister::MasterEnable
    } else if offset == 0x300 {
        IoRegister::PowerControl
    } else {
        IoRegister::Storage
    }
}

/// `current` with its low or high byte replaced.
pub open spec fn byte_replaced(current: u16, high_byte: bool, value: u8) -> u16 {
    if high_byte {
        (current & 0x00FF) | ((value as u16) << 8u16)
    } else {
        (current & 0xFF00) | value as u16
    }
}

pub fn replace_byte(current: u16, high_byte: bool, value: u8) -> (r: u16)
    ensures
        r == byte_replaced(current, high_byte, value),
{
    if high_byte {
        (current & 0x00FF) | ((value as u16) << 8u16)
    } else {
        (current & 0xFF00) | value as u16
    }
}

pub open spec fn affine_of(video: Video, bg3: bool) -> AffineBackground {
    if bg3 {
        video.bg3
    } else {
        video.bg2
    }
}

pub open spec fn with_affine(video: Video, bg3: bool, background: AffineBackground) -> Video {
    if bg3 {
        Video { bg3: background, ..video }
    } else {
        Video { bg2: background, ..video }
    }
}

/// A DMA channel after a halfword write to one of its registers; address
/// halves merge with the other half.
pub open spec fn dma_channel_written(
    index: DmaChannelIndex,
    channel: DmaChannel,
    register: DmaRegister,
    value: u16,
) -> DmaChannel {
    match register {
        DmaRegister::SourceLow => DmaChannel {
            source_register: ((channel.source_register & 0xFFFF_0000) | value as u32)
                & index.spec_source_address_mask(),
            ..channel
        },
        DmaRegister::SourceHigh => DmaChannel {
            source_register: ((channel.source_register & 0x0000_FFFF) | ((value as u32) << 16u32))
                & index.spec_source_address_mask(),
            ..channel
        },
        DmaRegister::DestinationLow => DmaChannel {
            destination_register: ((channel.destination_register & 0xFFFF_0000) | value as u32)
                & index.spec_destination_address_mask(),
            ..channel
        },
        DmaRegister::DestinationHigh => DmaChannel {
            destination_register: ((channel.destination_register & 0x0000_FFFF) | ((value as u32)
                << 16u32)) & index.spec_destination_address_mask(),
            ..channel
        },
        DmaRegister::Count => DmaChannel { count_register: value & index.spec_count_mask(), ..channel },
        DmaRegister::Control => channel_after_control_write(index, channel, value),
    }
}

/// An affine reference point after a halfword write to one half; the
/// internal point reloads.
pub open spec fn reference_written(background: AffineBackground, y: bool, high: bool, value: u16) -> AffineBackground {
    let current = if y {
        background.reference_y_raw
    } else {
        background.reference_x_raw
    };
    let raw = if high {
        (current & 0x0000_FFFF) | (((value as u32) & 0x0FFF) << 16u32)
    } else {
        (current & 0x0FFF_0000) | value as u32
    };
    if y {
        AffineBackground { reference_y_raw: raw, current_y: sign_extended_28(raw), ..background }
    } else {
        AffineBackground { reference_x_raw: raw, current_x: sign_extended_28(raw), ..background }
    }
}

pub open spec fn matrix_written(background: AffineBackground, parameter: u8, value: u16) -> AffineBackground {
    if parameter == 0 {
        AffineBackground { pa: value as i16, ..background }
    } else if parameter == 1 {
        AffineBackground { pb: value as i16, ..background }
    } else if parameter == 2 {
        AffineBackground { pc: value as i16, ..background }
    } else {
        AffineBackground { pd: value as i16, ..background }
    }
}

/// What the CPU completes for each I/O block after a tick.
#[derive(Debug, Clone, PartialEq, Eq)]
pub struct IoTickResult {
    pub ppu: PpuTickResult,
    pub timers: TimerTickResult,
    pub audio: AudioTickResult,
}

/// The I/O register block: the modelled peripherals and plain storage for
/// the registers without a model.
#[derive(Debug, Clone)]
pub struct IoRegisters {
    pub raw: Vec<u8>,
    pub interrupts: InterruptController,
    pub timers: TimerController,
    pub dma: DmaController,
    pub keypad: Keypad,
    pub power: PowerControl,
    pub ppu: Ppu,
    pub wait_control: WaitControl,
    pub video: Video,
    pub audio: Audio,
}

impl IoRegisters {
    pub const BASE: u32 = 0x0400_0000;
    pub const SIZE: usize = 0x400;
    pub const DISPCNT_OFFSET: u32 = 0x0000;
    pub const DISPSTAT_OFFSET: u32 = 0x0004;
    pub const VCOUNT_OFFSET: u32 = 0x0006;
    pub const BG0CNT_OFFSET: u32 = 0x0008;
    pub const BG1CNT_OFFSET: u32 = 0x000A;
    pub const BG2CNT_OFFSET: u32 = 0x000C;
    pub const BG3CNT_OFFSET: u32 = 0x000E;
    pub const BG0HOFS_OFFSET: u32 = 0x0010;
    pub const BG0VOFS_OFFSET: u32 = 0x0012;
    pub const BG1HOFS_OFFSET: u32 = 0x0014;
    pub const BG1VOFS_OFFSET: u32 = 0x0016;
    pub const BG2HOFS_OFFSET: u32 = 0x0018;
    pub const BG2VOFS_OFFSET: u32 = 0x001A;
    pub const BG3HOFS_OFFSET: u32 = 0x001C;
    pub const BG3VOFS_OFFSET: u32 = 0x001E;
    pub const BG2PA_OFFSET: u32 = 0x0020;
    pub const BG2PB_OFFSET: u32 = 0x0022;
    pub const BG2PC_OFFSET: u32 = 0x0024;
    pub const BG2PD_OFFSET: u32 = 0x0026;
    pub const BG2X_L_OFFSET: u32 = 0x0028;
    pub const BG2X_H_OFFSET: u32 = 0x002A;
    pub const BG2Y_L_OFFSET: u32 = 0x002C;
    pub const BG2Y_H_OFFSET: u32 = 0x002E;
    pub const BG3PA_OFFSET: u32 = 0x0030;
    pub const BG3PB_OFFSET: u32 = 0x0032;
    pub const BG3PC_OFFSET: u32 = 0x0034;
    pub const BG3PD_OFFSET: u32 = 0x0036;
    pub const BG3X_L_OFFSET: u32 = 0x0038;
    pub const BG3X_H_OFFSET: u32 = 0x003A;
    pub const BG3Y_L_OFFSET: u32 = 0x003C;
    pub const BG3Y_H_OFFSET: u32 = 0x003E;
    pub const WIN0H_OFFSET: u32 = 0x0040;
    pub const WIN1H_OFFSET: u32 = 0x0042;
    pub const WIN0V_OFFSET: u32 = 0x0044;
    pub const WIN1V_OFFSET: u32 = 0x0046;
    pub const WININ_OFFSET: u32 = 0x0048;
    pub const WINOUT_OFFSET: u32 = 0x004A;
    pub const BLDCNT_OFFSET: u32 = 0x0050;
    pub const BLDALPHA_OFFSET: u32 = 0x0052;
    pub const BLDY_OFFSET: u32 = 0x0054;
    pub const SOUNDCNT_H_OFFSET: u32 = 0x0082;
    pub const SOUNDCNT_X_OFFSET: u32 = 0x0084;
    pub const SOUNDBIAS_OFFSET: u32 = 0x0088;
    pub const FIFO_A_OFFSET: u32 = 0x00A0;
    pub const FIFO_B_OFFSET: u32 = 0x00A4;
    pub const DMA0SAD_OFFSET: u32 = 0x00B0;
    pub const DMA0DAD_OFFSET: u32 = 0x00B4;
    pub const DMA0CNT_L_OFFSET: u32 = 0x00B8;
    pub const DMA0CNT_H_OFFSET: u32 = 0x00BA;
    pub const DMA1SAD_OFFSET: u32 = 0x00BC;
    pub const DMA1DAD_OFFSET: u32 = 0x00C0;
    pub const DMA1CNT_L_OFFSET: u32 = 0x00C4;
    pub const DMA1CNT_H_OFFSET: u32 = 0x00C6;
    pub const DMA2SAD_OFFSET: u32 = 0x00C8;
    pub const DMA2DAD_OFFSET: u32 = 0x00CC;
    pub const DMA2CNT_L_OFFSET: u32 = 0x00D0;
    pub const DMA2CNT_H_OFFSET: u32 = 0x00D2;
    pub const DMA3SAD_OFFSET: u32 = 0x00D4;
    pub const DMA3DAD_OFFSET: u32 = 0x00D8;
    pub const DMA3CNT_L_OFFSET: u32 = 0x00DC;
    pub const DMA3CNT_H_OFFSET: u32 = 0x00DE;
    pub const TM0CNT_L_OFFSET: u32 = 0x0100;
    pub const TM0CNT_H_OFFSET: u32 = 0x0102;
    pub const TM1CNT_L_OFFSET: u32 = 0x0104;
    pub const TM1CNT_H_OFFSET: u32 = 0x0106;
    pub const TM2CNT_L_OFFSET: u32 = 0x0108;
    pub const TM2CNT_H_OFFSET: u32 = 0x010A;
    pub const TM3CNT_L_OFFSET: u32 = 0x010C;
    pub const TM3CNT_H_OFFSET: u32 = 0x010E;
    pub const KEYINPUT_OFFSET: u32 = 0x0130;
    pub const KEYCNT_OFFSET: u32 = 0x0132;
    pub const IE_OFFSET: u32 = 0x0200;
    pub const IF_OFFSET: u32 = 0x0202;
    pub const WAITCNT_OFFSET: u32 = 0x0204;
    pub const IME_OFFSET: u32 = 0x0208;
    pub const POSTFLG_OFFSET: u32 = 0x0300;
    pub const HALTCNT_OFFSET: u32 = 0x0301;

    pub open spec fn wf(&self) -> bool {
        &&& self.raw@.len() == 0x400
        &&& self.timers.wf()
        &&& self.dma.wf()
        &&& self.ppu.wf()
        &&& self.video.wf()
        &&& self.audio.wf()
    }

    /// The halfword a read at even `offset` returns. Write-only registers
    /// (DMA counts, reference points, FIFOs) read as zero.
    pub open spec fn spec_read16(&self, offset: u32) -> u16 {
        match io_register(offset) {
            IoRegister::Dma(c, register) => {
                let channel = self.dma.channels@[dma_number(c)];
                match register {
                    DmaRegister::SourceLow => channel.source_register as u16,
                    DmaRegister::SourceHigh => (channel.source_register >> 16u32) as u16,
                    DmaRegister::DestinationLow => channel.destination_register as u16,
                    DmaRegister::DestinationHigh => (channel.destination_register >> 16u32) as u16,
                    DmaRegister::Count => 0,
                    DmaRegister::Control => channel.control.raw,
                }
            },
            IoRegister::Timer(t, register) => {
                let timer = self.timers.timers@[timer_number(t)];
                match register {
                    TimerRegister::Counter => timer.counter,
                    TimerRegister::Control => timer.control.raw,
                }
            },
            IoRegister::DisplayControl => self.video.display_control.raw,
            IoRegister::DisplayStatus => dispstat_value(
                self.ppu.dispstat,
                self.ppu.in_vblank,
                self.ppu.in_hblank,
                self.ppu.vcount_match,
            ),
            IoRegister::VerticalCount => self.ppu.vcount,
            IoRegister::AffineControl { bg3 } => affine_of(self.video, bg3).control.raw,
            IoRegister::AffineMatrix { bg3, parameter } => {
                let background = affine_of(self.video, bg3);
                if parameter == 0 {
                    background.pa as u16
                } else if parameter == 1 {
                    background.pb as u16
                } else if parameter == 2 {
                    background.pc as u16
                } else {
                    background.pd as u16
                }
            },
            IoRegister::AffineReference { .. } => 0,
            IoRegister::SoundControlHigh => self.audio.sound_control_high,
            IoRegister::SoundControlX => self.audio.sound_control_x & 0x80,
            IoRegister::SoundBias => self.audio.sound_bias,
            IoRegister::Fifo(_) => 0,
            IoRegister::KeyInput => !self.keypad.pressed & 0x03FF,
            IoRegister::KeyControl => self.keypad.control.raw,
            IoRegister::InterruptEnable => self.interrupts.interrupt_enable,
            IoRegister::InterruptFlags => self.interrupts.interrupt_flags,
            IoRegister::WaitControl => self.wait_control.raw,
            IoRegister::MasterEnable => if self.interrupts.master_enable {
                1
            } else {
                0
            },
            IoRegister::PowerControl | IoRegister::Storage => spec_read_u16_le(self.raw@, offset as int),
        }
    }

    /// The halfword a byte write merges into: as read, except that timer
    /// counters merge against the reload latch, DMA counts against the
    /// count register and reference points against their registers.
    pub open spec fn spec_write_view16(&self, offset: u32) -> u16 {
        match io_register(offset) {
            IoRegister::Dma(c, DmaRegister::Count) => self.dma.channels@[dma_number(c)].count_register,
            IoRegister::Timer(t, TimerRegister::Counter) => self.timers.timers@[timer_number(t)].reload,
            IoRegister::AffineReference { bg3, y, high } => {
                let background = affine_of(self.video, bg3);
                let raw = if y {
                    background.reference_y_raw
                } else {
                    background.reference_x_raw
                };
                if high {
                    (raw >> 16u32) as u16
                } else {
                    raw as u16
                }
            },
            _ => self.spec_read16(offset),
        }
    }

    /// The byte a read at `offset` returns.
    pub open spec fn spec_read8(&self, offset: u32) -> u8 {
        let aligned = offset & !1u32;
        if io_register(aligned) is Storage {
            byte_or_zero(self.raw@, offset as int)
        } else {
            let value = self.spec_read16(aligned);
            if offset & 1 == 0 {
                value as u8
            } else {
                (value >> 8u16) as u8
            }
        }
    }
}

/// `after` is `before` after a halfword write of `value` at `offset`
/// (rounded down to even): each register takes the write as its device
/// defines it, and nothing else changes.
pub open spec fn written16(before: IoRegisters, after: IoRegisters, offset: u32, value: u16) -> bool {
    let aligned = offset & !1u32;
    match io_register(aligned) {
        IoRegister::Dma(c, register) => {
            &&& after == IoRegisters { dma: after.dma, ..before }
            &&& after.dma.wf()
            &&& after.dma.channels@ == before.dma.channels@.update(
                dma_number(c),
                dma_channel_written(c, before.dma.channels@[dma_number(c)], register, value),
            )
        },
        IoRegister::Timer(t, register) => {
            let n = timer_number(t);
            &&& after == IoRegisters { timers: after.timers, ..before }
            &&& after.timers.wf()
            &&& match register {
                TimerRegister::Counter => {
                    &&& after.timers.timers@ == before.timers.timers@.update(
                        n,
                        Timer { reload: value, ..before.timers.timers@[n] },
                    )
                    &&& after.timers.enabled_mask == before.timers.enabled_mask
                },
                TimerRegister::Control => {
                    &&& after.timers.timers@ == before.timers.timers@.update(
                        n,
                        before.timers.timers@[n].spec_write_control(value),
                    )
                    &&& after.timers.enabled_mask == if (value & 0x00C7) & 0x80 != 0 {
                        before.timers.enabled_mask | enable_bit(n)
                    } else {
                        before.timers.enabled_mask & !enable_bit(n)
                    }
                },
            }
        },
        IoRegister::DisplayControl => after == IoRegisters {
            video: Video { display_control: DisplayControl { raw: value & 0xFFF7 }, ..before.video },
            ..before
        },
        IoRegister::DisplayStatus => after == IoRegisters {
            ppu: Ppu {
                dispstat: DispStat {
                    vblank_irq_enabled: value & 8 != 0,
                    hblank_irq_enabled: value & 0x10 != 0,
                    vcounter_irq_enabled: value & 0x20 != 0,
                    vcount_setting: (value >> 8u16) as u8,
                },
                vcount_match: before.ppu.vcount as u8 == (value >> 8u16) as u8,
                ..before.ppu
            },
            ..before
        },
        IoRegister::AffineControl { bg3 } => after == IoRegisters {
            video: with_affine(
                before.video,
                bg3,
                AffineBackground {
                    control: AffineBackgroundControl { raw: value },
                    ..affine_of(before.video, bg3)
                },
            ),
            ..before
        },
        IoRegister::AffineMatrix { bg3, parameter } => after == IoRegisters {
            video: with_affine(
                before.video,
                bg3,
                matrix_written(affine_of(before.video, bg3), parameter, value),
            ),
            ..before
        },
        IoRegister::AffineReference { bg3, y, high } => after == IoRegisters {
            video: with_affine(
                before.video,
                bg3,
                reference_written(affine_of(before.video, bg3), y, high, value),
            ),
            ..before
        },
        IoRegister::SoundControlHigh => {
            &&& after == IoRegisters { audio: after.audio, ..before }
            &&& after.audio.wf()
            &&& sound_control_high_written(before.audio, after.audio, value)
        },
        IoRegister::SoundControlX => {
            &&& after == IoRegisters { audio: after.audio, ..before }
            &&& after.audio.wf()
            &&& sound_control_x_written(before.audio, after.audio, value)
        },
        IoRegister::SoundBias => after == IoRegisters {
            audio: Audio { sound_bias: value & 0xC3FE, ..before.audio },
            ..before
        },
        IoRegister::Fifo(fifo) => {
            &&& after == IoRegisters { audio: after.audio, ..before }
            &&& after.audio.wf()
            &&& fifo16_written(before.audio, after.audio, fifo, value)
        },
        IoRegister::KeyControl => {
            let (keypad, update) = keypad_evaluated(
                before.keypad.pressed,
                KeyControl { raw: value & 0xC3FF },
                before.keypad.previous_condition_active,
            );
            after == IoRegisters {
                keypad,
                interrupts: if update.interrupt_requests != 0 {
                    before.interrupts.spec_request_mask(update.interrupt_requests)
                } else {
                    before.interrupts
                },
                ..before
            }
        },
        IoRegister::InterruptEnable => after == IoRegisters {
            interrupts: before.interrupts.spec_set_interrupt_enable(value),
            ..before
        },
        IoRegister::InterruptFlags => after == IoRegisters {
            interrupts: before.interrupts.spec_acknowledge(value),
            ..before
        },
        IoRegister::WaitControl => after == IoRegisters {
            wait_control: WaitControl { raw: value & 0x5FFF },
            ..before
        },
        IoRegister::MasterEnable => after == IoRegisters {
            interrupts: InterruptController { master_enable: value & 1 != 0, ..before.interrupts },
            ..before
        },
        IoRegister::PowerControl => {
            &&& after == IoRegisters {
                power: PowerControl {
                    post_boot_flag: (value as u8) & 1,
                    pending_request: Some(
                        if ((value >> 8u16) as u8) & 0x80 != 0 {
                            PowerStateRequest::Stop
                        } else {
                            PowerStateRequest::Halt
                        },
                    ),
                },
                raw: after.raw,
                ..before
            }
            &&& after.raw@ == spec_write_bytes(before.raw@, aligned as int, le_bytes_u16(value))
        },
        IoRegister::VerticalCount | IoRegister::KeyInput => after == before,
        IoRegister::Storage => {
            &&& after == IoRegisters { raw: after.raw, ..before }
            &&& after.raw@ == spec_write_bytes(before.raw@, aligned as int, le_bytes_u16(value))
        },
    }
}

/// `after` is `before` after a byte write: byte-wide registers (IF bytes
/// clear flags, IME's low byte, POSTFLG, HALTCNT, FIFO bytes, storage)
/// take the byte; any other register merges it into its halfword and
/// takes a halfword write.
pub open spec fn written8(before: IoRegisters, after: IoRegisters, offset: u32, value: u8) -> bool {
    let aligned = offset & !1u32;
    let high = offset & 1 != 0;
    match io_register(aligned) {
        IoRegister::Storage => {
            &&& after == IoRegisters { raw: after.raw, ..before }
            &&& after.raw@ == spec_write_bytes(before.raw@, offset as int, seq![value])
        },
        IoRegister::InterruptFlags => after == IoRegisters {
            interrupts: before.interrupts.spec_acknowledge(
                if high {
                    (value as u16) << 8u16
                } else {
                    value as u16
                },
            ),
            ..before
        },
        IoRegister::MasterEnable => if high {
            after == before
        } else {
            after == IoRegisters {
                interrupts: InterruptController {
                    master_enable: (value as u16) & 1 != 0,
                    ..before.interrupts
                },
                ..before
            }
        },
        IoRegister::PowerControl => {
            &&& after.raw@ == spec_write_bytes(before.raw@, offset as int, seq![value])
            &&& if high {
                after == IoRegisters {
                    power: PowerControl {
                        pending_request: Some(
                            if value & 0x80 != 0 {
                                PowerStateRequest::Stop
                            } else {
                                PowerStateRequest::Halt
                            },
                        ),
                        ..before.power
                    },
                    raw: after.raw,
                    ..before
                }
            } else {
                after == IoRegisters {
                    power: PowerControl { post_boot_flag: value & 1, ..before.power },
                    raw: after.raw,
                    ..before
                }
            }
        },
        IoRegister::Fifo(fifo) => {
            &&& after == IoRegisters { audio: after.audio, ..before }
            &&& after.audio.wf()
            &&& fifo8_written(before.audio, after.audio, fifo, value)
        },
        _ => written16(
            before,
            after,
            aligned,
            byte_replaced(before.spec_write_view16(aligned), high, value),
        ),
    }
}

/// The DMA channels after a tick: HBlank and VBlank events, then a refill
/// request from each sound FIFO that asked.
pub open spec fn dma_channel_after_tick(
    index: int,
    channel: DmaChannel,
    hblanks: u32,
    vblanks: u32,
    fifo_requests: Seq<bool>,
) -> DmaChannel {
    let c1 = channel_after_event(channel, DmaStartTiming::HBlank, hblanks);
    let c2 = channel_after_event(c1, DmaStartTiming::VBlank, vblanks);
    let c3 = if fifo_requests[0] {
        channel_after_fifo_request(index, c2, FIFO_A_ADDRESS)
    } else {
        c2
    };
    if fifo_requests[1] {
        channel_after_fifo_request(index, c3, FIFO_B_ADDRESS)
    } else {
        c3
    }
}

/// The I/O block at power-on: storage zero, interrupts off, every timer
/// and DMA channel idle, no key pressed, the scan at the top-left of line
/// 0, default wait states, a blank display without a frame, and silent
/// sound with the default bias and no host output.
pub open spec fn io_power_on(io: IoRegisters) -> bool {
    &&& io.wf()
    &&& forall|i: int| 0 <= i < 0x400 ==> #[trigger] io.raw@[i] == 0
    &&& io.interrupts == (InterruptController { interrupt_enable: 0, interrupt_flags: 0, master_enable: false })
    &&& io.timers.enabled_mask == 0
    &&& forall|i: int|
        0 <= i < 4 ==> #[trigger] io.timers.timers@[i] == (Timer {
            reload: 0,
            counter: 0,
            control: crate::bus::timer::TimerControl { raw: 0 },
            prescaler_remainder: 0,
        })
    &&& io.dma.pending_mask == 0
    &&& forall|i: int| 0 <= i < 4 ==> #[trigger] io.dma.channels@[i] == crate::bus::dma::idle_channel()
    &&& io.keypad == (Keypad { pressed: 0, control: KeyControl { raw: 0 }, previous_condition_active: false })
    &&& io.power == (PowerControl { post_boot_flag: 0, pending_request: None })
    &&& io.ppu.line_cycle == 0
    &&& io.ppu.vcount == 0
    &&& io.ppu.dispstat == (DispStat {
        vblank_irq_enabled: false,
        hblank_irq_enabled: false,
        vcounter_irq_enabled: false,
        vcount_setting: 0,
    })
    &&& io.wait_control.raw == 0
    &&& io.video.display_control.raw == 0
    &&& io.video.bg2 == crate::bus::video::idle_affine_background()
    &&& io.video.bg3 == crate::bus::video::idle_affine_background()
    &&& forall|i: int| 0 <= i < 38400 ==> #[trigger] io.video.framebuffer@[i] == 0xFF00_0000u32
    &&& !io.video.frame_ready
    &&& io.video.frame_number == 0
    &&& io.audio.sound_control_high == 0
    &&& io.audio.sound_control_x == 0
    &&& io.audio.sound_bias == 0x0200
    &&& io.audio.channels@[0].fifo@.len() == 0
    &&& io.audio.channels@[1].fifo@.len() == 0
    &&& io.audio.channels@[0].current_sample == 0
    &&& io.audio.channels@[1].current_sample == 0
    &&& !io.audio.output_enabled
    &&& io.audio.output_phase == 0
    &&& io.audio.output_samples@.len() == 0
}

/// The I/O block after `cycles` cycles and what its devices reported.
pub open spec fn io_ticked(before: IoRegisters, after: IoRegisters, cycles: u32, r: IoTickResult) -> bool {
    &&& (after.ppu, r.ppu.events()) == scan(before.ppu, cycles as nat, no_events())
    &&& timers_ticked(before.timers, after.timers, cycles, r.timers)
    &&& audio_ticked(before.audio, after.audio, cycles, r.timers.overflows@, r.audio)
    &&& forall|i: int|
        0 <= i < 4 ==> #[trigger] after.dma.channels@[i] == dma_channel_after_tick(
            i,
            before.dma.channels@[i],
            r.ppu.hblank_starts,
            r.ppu.vblank_starts,
            r.audio.fifo_dma_requests@,
        )
    &&& after.interrupts == {
        let i1 = if r.ppu.interrupt_requests != 0 {
            before.interrupts.spec_request_mask(r.ppu.interrupt_requests)
        } else {
            before.interrupts
        };
        if r.timers.interrupt_requests != 0 {
            i1.spec_request_mask(r.timers.interrupt_requests)
        } else {
            i1
        }
    }
    &&& after.raw == before.raw
    &&& after.keypad == before.keypad
    &&& after.power == before.power
    &&& after.wait_control == before.wait_control
    &&& after.video == before.video
}

impl IoRegisters {
    pub fn new() -> (r: Self)
        ensures
            r.wf(),
            io_power_on(r),
    {
        IoRegisters {
            raw: vec![0u8; 0x400],
            interrupts: InterruptController::new(),
            timers: TimerController::new(),
            dma: DmaController::new(),
            keypad: Keypad::new(),
            power: PowerControl::new(),
            ppu: Ppu::new(),
            wait_control: WaitControl::new(),
            video: Video::new(),
            audio: Audio::new(),
        }
    }

    pub fn contains_address(address: u32) -> (r: bool)
        ensures
            r == (0x0400_0000 <= address < 0x0400_0400),
    {
        address >= Self::BASE && address < 0x0400_0400
    }

    pub fn address_to_offset(address: u32) -> (r: u32)
        requires
            address >= 0x0400_0000,
        ensures
            r == address - 0x0400_0000,
    {
        address - Self::BASE
    }

    pub fn interrupts(&self) -> (r: &InterruptController)
        ensures
            *r == self.interrupts,
    {
        &self.interrupts
    }

    pub fn interrupts_mut(&mut self) -> (r: &mut InterruptController)
        ensures
            *r == old(self).interrupts,
            *final(self) == (IoRegisters { interrupts: *final(r), ..*old(self) }),
    {
        &mut self.interrupts
    }

    pub fn timers(&self) -> (r: &TimerController)
        ensures
            *r == self.timers,
    {
        &self.timers
    }

    pub fn timers_mut(&mut self) -> (r: &mut TimerController)
        ensures
            *r == old(self).timers,
            *final(self) == (IoRegisters { timers: *final(r), ..*old(self) }),
    {
        &mut self.timers
    }

    pub fn dma(&self) -> (r: &DmaController)
        ensures
            *r == self.dma,
    {
        &self.dma
    }

    pub fn dma_mut(&mut self) -> (r: &mut DmaController)
        ensures
            *r == old(self).dma,
            *final(self) == (IoRegisters { dma: *final(r), ..*old(self) }),
    {
        &mut self.dma
    }

    pub fn video(&self) -> (r: &Video)
        ensures
            *r == self.video,
    {
        &self.video
    }

    pub fn video_mut(&mut self) -> (r: &mut Video)
        ensures
            *r == old(self).video,
            *final(self) == (IoRegisters { video: *final(r), ..*old(self) }),
    {
        &mut self.video
    }

    pub fn audio_mut(&mut self) -> (r: &mut Audio)
        ensures
            *r == old(self).audio,
            *final(self) == (IoRegisters { audio: *final(r), ..*old(self) }),
    {
        &mut self.audio
    }

    pub fn wait_control(&self) -> (r: &WaitControl)
        ensures
            *r == self.wait_control,
    {
        &self.wait_control
    }

    /// Runs the display scan, the timers and the sound FIFOs for `cycles`
    /// cycles: their interrupt requests reach IF, HBlank and VBlank starts
    /// and FIFO refill requests arm the waiting DMA channels.
    pub fn tick(&mut self, cycles: u32) -> (r: IoTickResult)
        requires
            old(self).wf(),
        ensures
            final(self).wf(),
            io_ticked(*old(self), *final(self), cycles, r),
    {
        let ppu = self.ppu.tick(cycles);
        if ppu.interrupt_requests != 0 {
            self.interrupts.request_mask(ppu.interrupt_requests);
        }
        let ghost dma0 = self.dma.channels@;
        self.dma.trigger(DmaStartTiming::HBlank, ppu.hblank_starts);
        self.dma.trigger(DmaStartTiming::VBlank, ppu.vblank_starts);
        let timers = self.timers.tick(cycles);
        if timers.interrupt_requests != 0 {
            self.interrupts.request_mask(timers.interrupt_requests);
        }
        let audio = self.audio.tick(cycles, timers.overflows);
        if audio.fifo_dma_requests[0] {
            self.dma.trigger_sound_fifo(FIFO_A_ADDRESS);
        }
        if audio.fifo_dma_requests[1] {
            self.dma.trigger_sound_fifo(FIFO_B_ADDRESS);
        }
        let r = IoTickResult { ppu, timers, audio };
        proof {
            assert forall|i: int| 0 <= i < 4 implies #[trigger] self.dma.channels@[i]
                == dma_channel_after_tick(
                i,
                dma0[i],
                r.ppu.hblank_starts,
                r.ppu.vblank_starts,
                r.audio.fifo_dma_requests@,
            ) by {}
        }
        r
    }

    pub fn irq_line(&self) -> (r: bool)
        ensures
            r == self.interrupts.spec_irq_line(),
    {
        self.interrupts.irq_line()
    }

    pub fn request_interrupt(&mut self, source: InterruptSource)
        ensures
            *final(self) == (IoRegisters {
                interrupts: old(self).interrupts.spec_request_mask(super::interrupt::source_mask(source)),
                ..*old(self)
            }),
    {
        self.interrupts.request(source);
    }

    /// Presses or releases a key; a keypad interrupt it raises reaches IF.
    pub fn set_key(&mut self, key: Key, pressed: bool)
        ensures
            ({
                let (keypad, update) = keypad_evaluated(
                    (if pressed {
                        old(self).keypad.pressed | key_mask(key)
                    } else {
                        old(self).keypad.pressed & !key_mask(key)
                    }) & 0x03FF,
                    old(self).keypad.control,
                    old(self).keypad.previous_condition_active,
                );
                *final(self) == IoRegisters {
                    keypad,
                    interrupts: if update.interrupt_requests != 0 {
                        old(self).interrupts.spec_request_mask(update.interrupt_requests)
                    } else {
                        old(self).interrupts
                    },
                    ..*old(self)
                }
            }),
    {
        let update = self.keypad.set_key(key, pressed);
        if update.interrupt_requests != 0 {
            self.interrupts.request_mask(update.interrupt_requests);
        }
    }

    /// Replaces the pressed keys; a keypad interrupt it raises reaches IF.
    pub fn set_pressed_keys(&mut self, pressed_mask: u16)
        ensures
            ({
                let (keypad, update) = keypad_evaluated(
                    pressed_mask & 0x03FF,
                    old(self).keypad.control,
                    old(self).keypad.previous_condition_active,
                );
                *final(self) == IoRegisters {
                    keypad,
                    interrupts: if update.interrupt_requests != 0 {
                        old(self).interrupts.spec_request_mask(update.interrupt_requests)
                    } else {
                        old(self).interrupts
                    },
                    ..*old(self)
                }
            }),
    {
        let update = self.keypad.set_pressed_mask(pressed_mask);
        if update.interrupt_requests != 0 {
            self.interrupts.request_mask(update.interrupt_requests);
        }
    }

    /// Hands out a HALT or STOP request written to HALTCNT, once.
    pub fn take_power_request(&mut self) -> (r: Option<PowerStateRequest>)
        ensures
            r == old(self).power.pending_request,
            *final(self) == (IoRegisters {
                power: PowerControl { pending_request: None, ..old(self).power },
                ..*old(self)
            }),
    {
        self.power.take_request()
    }

    /// Clears the register storage and returns every device to its
    /// power-on state.
    pub fn reset(&mut self)
        requires
            old(self).wf(),
        ensures
            final(self).wf(),
            forall|i: int| 0 <= i < 0x400 ==> #[trigger] final(self).raw@[i] == 0,
            final(self).interrupts == (InterruptController {
                interrupt_enable: 0,
                interrupt_flags: 0,
                master_enable: false,
            }),
            io_power_on(*final(self)),
    {
        let mut i: usize = 0;
        while i < 0x400
            invariant
                i <= 0x400,
                self.raw@.len() == 0x400,
                forall|k: int| 0 <= k < i ==> #[trigger] self.raw@[k] == 0,
                self.video.wf(),
            decreases 0x400 - i,
        {
            self.raw.set(i, 0);
            i = i + 1;
        }
        self.interrupts.reset();
        self.timers.reset();
        self.dma.reset();
        self.keypad.reset();
        self.power.reset();
        self.ppu.reset();
        self.wait_control.reset();
        self.video.reset();
        self.audio = Audio::new();
    }

    pub fn read16(&self, offset: u32) -> (r: u16)
        requires
            self.wf(),
        ensures
            r == self.spec_read16(offset & !1u32),
    {
        let offset = offset & !1u32;
        match decode_register(offset) {
            IoRegister::Dma(c, register) => match register {
                DmaRegister::SourceLow => self.dma.read_source(c) as u16,
                DmaRegister::SourceHigh => (self.dma.read_source(c) >> 16u32) as u16,
                DmaRegister::DestinationLow => self.dma.read_destination(c) as u16,
                DmaRegister::DestinationHigh => (self.dma.read_destination(c) >> 16u32) as u16,
                DmaRegister::Count => 0,
                DmaRegister::Control => self.dma.read_control(c),
            },
            IoRegister::Timer(t, register) => match register {
                TimerRegister::Counter => self.timers.read_counter(t),
                TimerRegister::Control => self.timers.read_control(t),
            },
            IoRegister::DisplayControl => self.video.read_display_control(),
            IoRegister::DisplayStatus => self.ppu.read_dispstat(),
            IoRegister::VerticalCount => self.ppu.vcount(),
            IoRegister::AffineControl { bg3 } => {
                let index: usize = if bg3 {
                    3
                } else {
                    2
                };
                self.video.affine_background(index).read_control()
            },
            IoRegister::AffineMatrix { bg3, parameter } => {
                let index: usize = if bg3 {
                    3
                } else {
                    2
                };
                let background = self.video.affine_background(index);
                if parameter == 0 {
                    background.read_pa()
                } else if parameter == 1 {
                    background.read_pb()
                } else if parameter == 2 {
                    background.read_pc()
                } else {
                    background.read_pd()
                }
            },
            IoRegister::AffineReference { .. } => 0,
            IoRegister::SoundControlHigh => self.audio.read_sound_control_high(),
            IoRegister::SoundControlX => self.audio.read_sound_control_x(),
            IoRegister::SoundBias => self.audio.read_sound_bias(),
            IoRegister::Fifo(_) => 0,
            IoRegister::KeyInput => self.keypad.key_input(),
            IoRegister::KeyControl => self.keypad.read_control(),
            IoRegister::InterruptEnable => self.interrupts.interrupt_enable(),
            IoRegister::InterruptFlags => self.interrupts.interrupt_flags(),
            IoRegister::WaitControl => self.wait_control.raw(),
            IoRegister::MasterEnable => if self.interrupts.master_enable() {
                1
            } else {
                0
            },
            IoRegister::PowerControl | IoRegister::Storage => {
                if offset >= 0x400 {
                    proof {
                        assert(byte_or_zero(self.raw@, offset as int) == 0);
                        assert(byte_or_zero(self.raw@, offset as int + 1) == 0);
                    }
                    0
                } else {
                    read_u16_le(self.raw.as_slice(), offset as usize)
                }
            },
        }
    }

    /// The merge base of a byte write (see `spec_write_view16`).
    fn write_view16(&self, offset: u32) -> (r: u16)
        requires
            self.wf(),
            offset & !1u32 == offset,
        ensures
            r == self.spec_write_view16(offset),
    {
        match decode_register(offset) {
            IoRegister::Dma(c, DmaRegister::Count) => self.dma.read_count(c),
            IoRegister::Timer(t, TimerRegister::Counter) => self.timers.timer(t).reload(),
            IoRegister::AffineReference { bg3, y, high } => {
                let index: usize = if bg3 {
                    3
                } else {
                    2
                };
                let background = self.video.affine_background(index);
                let raw = if y {
                    background.reference_y_raw()
                } else {
                    background.reference_x_raw()
                };
                if high {
                    (raw >> 16u32) as u16
                } else {
                    raw as u16
                }
            },
            _ => self.read16(offset),
        }
    }

    #[verifier::rlimit(80)]
    #[verifier::spinoff_prover]
    pub fn write16(&mut self, offset: u32, value: u16)
        requires
            old(self).wf(),
        ensures
            final(self).wf(),
            written16(*old(self), *final(self), offset, value),
    {
        let offset = offset & !1u32;
        match decode_register(offset) {
            IoRegister::Dma(c, register) => match register {
                DmaRegister::SourceLow => {
                    let current = self.dma.read_source(c);
                    self.dma.write_source(c, (current & 0xFFFF_0000) | value as u32);
                },
                DmaRegister::SourceHigh => {
                    let current = self.dma.read_source(c);
                    self.dma.write_source(c, (current & 0x0000_FFFF) | ((value as u32) << 16u32));
                },
                DmaRegister::DestinationLow => {
                    let current = self.dma.read_destination(c);
                    self.dma.write_destination(c, (current & 0xFFFF_0000) | value as u32);
                },
                DmaRegister::DestinationHigh => {
                    let current = self.dma.read_destination(c);
                    self.dma.write_destination(
                        c,
                        (current & 0x0000_FFFF) | ((value as u32) << 16u32),
                    );
                },
                DmaRegister::Count => self.dma.write_count(c, value),
                DmaRegister::Control => self.dma.write_control(c, value),
            },
            IoRegister::Timer(t, register) => {
                match register {
                    TimerRegister::Counter => self.timers.write_reload(t, value),
                    TimerRegister::Control => self.timers.write_control(t, value),
                }
                proof {
                    assert forall|i: int| 0 <= i < 4 implies #[trigger] self.timers.timers@[i].wf() by {
                        assert(old(self).timers.timers@[i].wf());
                    }
                }
            },
            IoRegister::DisplayControl => self.video.write_display_control(value),
            IoRegister::DisplayStatus => self.ppu.write_dispstat(value),
            IoRegister::VerticalCount => {},
            IoRegister::AffineControl { bg3 } => {
                let index: usize = if bg3 {
                    3
                } else {
                    2
                };
                self.video.affine_background_mut(index).write_control(value);
            },
            IoRegister::AffineMatrix { bg3, parameter } => {
                let index: usize = if bg3 {
                    3
                } else {
                    2
                };
                let background = self.video.affine_background_mut(index);
                if parameter == 0 {
                    background.write_pa(value);
                } else if parameter == 1 {
                    background.write_pb(value);
                } else if parameter == 2 {
                    background.write_pc(value);
                } else {
                    background.write_pd(value);
                }
            },
            IoRegister::AffineReference { bg3, y, high } => {
                let index: usize = if bg3 {
                    3
                } else {
                    2
                };
                let background = self.video.affine_background_mut(index);
                if y {
                    if high {
                        background.write_reference_y_high(value);
                    } else {
                        background.write_reference_y_low(value);
                    }
                } else {
                    if high {
                        background.write_reference_x_high(value);
                    } else {
                        background.write_reference_x_low(value);
                    }
                }
            },
            IoRegister::SoundControlHigh => self.audio.write_sound_control_high(value),
            IoRegister::SoundControlX => self.audio.write_sound_control_x(value),
            IoRegister::SoundBias => self.audio.write_sound_bias(value),
            IoRegister::Fifo(fifo) => self.audio.write_fifo16(fifo, value),
            IoRegister::KeyInput => {},
            IoRegister::KeyControl => {
                let update = self.keypad.write_control(value);
                if update.interrupt_requests != 0 {
                    self.interrupts.request_mask(update.interrupt_requests);
                }
            },
            IoRegister::InterruptEnable => self.interrupts.set_interrupt_enable(value),
            IoRegister::InterruptFlags => self.interrupts.acknowledge(value),
            IoRegister::WaitControl => self.wait_control.write(value),
            IoRegister::MasterEnable => self.interrupts.set_master_enable(value),
            IoRegister::PowerControl => {
                self.power.write_post_boot_flag(value as u8);
                self.power.write_halt_control((value >> 8u16) as u8);
                write_u16_le(self.raw.as_mut_slice(), offset as usize, value);
            },
            IoRegister::Storage => {
                if offset < 0x400 {
                    write_u16_le(self.raw.as_mut_slice(), offset as usize, value);
                    proof {
                        assert(self.raw@.len() == 0x400);
                    }
                } else {
                    proof {
                        assert(spec_write_bytes(self.raw@, offset as int, le_bytes_u16(value))
                            =~= self.raw@);
                    }
                }
            },
        }
    }

    pub fn read8(&self, offset: u32) -> (r: u8)
        requires
            self.wf(),
        ensures
            r == self.spec_read8(offset),
    {
        let aligned = offset & !1u32;
        if matches!(decode_register(aligned), IoRegister::Storage) {
            if offset < 0x400 {
                return self.raw[offset as usize];
            }
            return 0;
        }
        let value = self.read16(aligned);
        proof {
            crate::bits::lemma_u32_fields();
        }
        if offset & 1 == 0 {
            value as u8
        } else {
            (value >> 8u16) as u8
        }
    }

    pub fn write8(&mut self, offset: u32, value: u8)
        requires
            old(self).wf(),
        ensures
            final(self).wf(),
            written8(*old(self), *final(self), offset, value),
    {
        let aligned = offset & !1u32;
        let high_byte = offset & 1 != 0;
        proof {
            crate::bits::lemma_u32_fields();
        }
        match decode_register(aligned) {
            IoRegister::Storage => {
                if offset < 0x400 {
                    self.raw.set(offset as usize, value);
                    proof {
                        assert(self.raw@ =~= spec_write_bytes(old(self).raw@, offset as int, seq![value]));
                    }
                } else {
                    proof {
                        assert(self.raw@ =~= spec_write_bytes(old(self).raw@, offset as int, seq![value]));
                    }
                }
            },
            IoRegister::InterruptFlags => {
                let mask: u16 = if high_byte {
                    (value as u16) << 8u16
                } else {
                    value as u16
                };
                self.interrupts.acknowledge(mask);
            },
            IoRegister::MasterEnable => {
                if !high_byte {
                    self.interrupts.set_master_enable(value as u16);
                }
            },
            IoRegister::PowerControl => {
                if high_byte {
                    self.power.write_halt_control(value);
                } else {
                    self.power.write_post_boot_flag(value);
                }
                assert(offset <= 0x301) by (bit_vector)
                    requires
                        offset & !1u32 == 0x300,
                ;
                self.raw.set(offset as usize, value);
                proof {
                    assert(self.raw@ =~= spec_write_bytes(old(self).raw@, offset as int, seq![value]));
                }
            },
            IoRegister::Fifo(fifo) => self.audio.write_fifo8(fifo, value),
            _ => {
                let current = self.write_view16(aligned);
                let updated = replace_byte(current, high_byte, value);
                self.write16(aligned, updated);
            },
        }
    }

    pub fn read32(&self, offset: u32) -> (r: u32)
        requires
            self.wf(),
        ensures
            r == (self.spec_read16((offset & !3u32) & !1u32) as u32) | ((self.spec_read16(
                (offset & !3u32).wrapping_add(2) & !1u32,
            ) as u32) << 16u32),
    {
        let offset = offset & !3u32;
        let low = self.read16(offset) as u32;
        let high = self.read16(offset.wrapping_add(2)) as u32;
        low | (high << 16u32)
    }

    /// A word write is two halfword writes, low first, so that each
    /// register keeps its own semantics (a word at IE also acknowledges
    /// IF).
    pub fn write32(&mut self, offset: u32, value: u32)
        requires
            old(self).wf(),
        ensures
            final(self).wf(),
            exists|middle: IoRegisters|
                #[trigger] written16(*old(self), middle, offset & !3u32, value as u16) && middle.wf()
                    && written16(middle, *final(self), (offset & !3u32).wrapping_add(2), (value
                    >> 16u32) as u16),
    {
        let offset = offset & !3u32;
        self.write16(offset, value as u16);
        let ghost middle = *self;
        self.write16(offset.wrapping_add(2), (value >> 16u32) as u16);
    }
}

} // verus!
