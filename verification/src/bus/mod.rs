pub mod interrupt;
pub mod memory;
pub mod power;

pub use self::interrupt::{InterruptController, InterruptSource};
pub use self::power::{PowerControl, PowerStateRequest};
pub mod keypad;
pub use self::keypad::{Key, KeyControl, Keypad, KeypadInterruptCondition, KeypadUpdateResult};
pub mod waitstate;
pub use self::waitstate::{AccessKind, AccessWidth, MemoryRegion, TimedAccess, WaitControl};
pub mod timer;
pub use self::timer::{Timer, TimerControl, TimerController, TimerIndex, TimerTickResult, TIMER_COUNT};
pub mod dma;
pub use self::dma::{
    DmaAddressControl, DmaChannel, DmaChannelIndex, DmaControl, DmaController, DmaStartTiming,
    DmaTransferCompletion, DmaTransferRequest, DmaTransferWidth, DMA_CHANNEL_COUNT, FIFO_A_ADDRESS,
    FIFO_B_ADDRESS,
};
pub mod ppu;
pub use self::ppu::{DispStat, Ppu, PpuTickResult};
pub mod video;
pub use self::video::{
    bgr555_to_rgba8888, AffineBackground, AffineBackgroundControl, DisplayControl, Video,
    VideoMode, FRAMEBUFFER_PIXEL_COUNT, SCREEN_HEIGHT, SCREEN_WIDTH,
};
pub mod audio;
pub use self::audio::{Audio, AudioTickResult, DirectSoundFifo, AUDIO_OUTPUT_RATE, GBA_CLOCK_HZ};
pub mod cartridge_save;
pub use self::cartridge_save::{
    CartridgeSave, CartridgeSaveLoadError, CartridgeSaveStorage, CartridgeSaveType, Flash1M,
    FLASH_DEVICE_ID, FLASH_MAKER_ID,
};
pub mod cartridge_gpio;
pub use self::cartridge_gpio::{GamePakGpio, Rtc, RtcClock, RtcCommand, RtcDateTime};
pub mod io;
pub use self::io::{IoRegisters, IoTickResult};

use vstd::prelude::*;

use self::cartridge_gpio::gpio_written;
use self::cartridge_save::save_written8;
use self::dma::{channel_after_completion, channel_request, dma_interrupt, dma_number};
use self::interrupt::source_mask;
use self::io::{io_power_on, io_ticked, written16 as io_written16, written8 as io_written8};
use self::memory::{
    byte_or_zero, le_bytes_u16, le_bytes_u32, read_u16_le, read_u32_le, spec_read_u16_le, spec_read_u32_le,
    spec_write_bytes, write_u16_le, write_u32_le,
};
use self::ppu::ScanEvents;
use self::video::{reloaded, render_lines, VideoModel};

verus! {

pub const GAME_PAK_ROM_MAX_SIZE: usize = 0x0200_0000;
pub const BIOS_SIZE: usize = 0x4000;
pub const EWRAM_SIZE: usize = 0x0004_0000;
pub const IWRAM_SIZE: usize = 0x8000;
pub const PALETTE_SIZE: usize = 0x400;
pub const VRAM_SIZE: usize = 0x0001_8000;
pub const OAM_SIZE: usize = 0x400;
pub const SAVE_WINDOW_SIZE: usize = 0x0001_0000;

pub const EWRAM_BASE: u32 = 0x0200_0000;
pub const IWRAM_BASE: u32 = 0x0300_0000;
pub const PALETTE_BASE: u32 = 0x0500_0000;
pub const VRAM_BASE: u32 = 0x0600_0000;
pub const OAM_BASE: u32 = 0x0700_0000;
pub const ROM_BASE: u32 = 0x0800_0000;
pub const ROM_END: u32 = 0x0DFF_FFFF;
pub const SAVE_BASE: u32 = 0x0E00_0000;

/// Why a BIOS or ROM image was refused.
#[derive(Debug, Clone, PartialEq, Eq, Structural)]
pub enum BusLoadError {
    InvalidBiosSize { expected: usize, actual: usize },
    RomTooLarge { maximum: usize, actual: usize },
}

/// What one DMA activation moved and how long it took.
#[derive(Debug, Clone, Copy, PartialEq, Eq, Structural)]
pub struct DmaRunResult {
    pub channel: DmaChannelIndex,
    pub transferred_units: u32,
    pub cycles: u32,
}

/// The GBA memory map: BIOS, work RAM, I/O, palette, VRAM, OAM, the
/// cartridge ROM with its GPIO port, and the save chip.
#[derive(Debug, Clone)]
pub struct Bus {
    pub bios: Vec<u8>,
    pub ewram: Vec<u8>,
    pub iwram: Vec<u8>,
    pub io: IoRegisters,
    pub palette: Vec<u8>,
    pub vram: Vec<u8>,
    pub oam: Vec<u8>,
    pub rom: Vec<u8>,
    pub cartridge_save: CartridgeSave,
    pub gpio: GamePakGpio,
}

/// The VRAM index of an address in 0x06000000-0x06FFFFFF: the 128 KiB
/// window repeats, and its last 32 KiB mirror the 32 KiB below them.
pub open spec fn vram_index(address: u32) -> int {
    let offset = (address - 0x0600_0000) as int % 0x2_0000;
    if offset >= 0x1_8000 {
        offset - 0x8000
    } else {
        offset
    }
}

/// The offset of a ROM address in the image; the three wait-state windows
/// mirror the same 32 MiB.
pub open spec fn rom_offset(address: u32) -> u32 {
    (address - 0x0800_0000) as u32 % 0x0200_0000
}

pub open spec fn in_range(address: u32, low: u32, high: u32) -> bool {
    low <= address <= high
}

pub open spec fn is_io(address: u32) -> bool {
    0x0400_0000 <= address < 0x0400_0400
}

/// The display after a tick's scan events: a new frame reloads the affine
/// reference points, each completed visible line is drawn in order, and
/// the start of VBlank marks the frame ready and counts it.
pub open spec fn frame_update(video: VideoModel, events: ScanEvents, vram: Seq<u8>, palette: Seq<u8>) -> VideoModel {
    let begun = if events.new_frames != 0 {
        VideoModel { bg2: reloaded(video.bg2), bg3: reloaded(video.bg3), ..video }
    } else {
        video
    };
    let drawn = render_lines(begun, events.completed_visible_lines, vram, palette);
    if events.vblank_starts != 0 {
        VideoModel { frame_ready: true, frame_number: drawn.frame_number.wrapping_add(1), ..drawn }
    } else {
        drawn
    }
}

impl Bus {
    pub const REG_TM0CNT_L: u32 = 0x0400_0100;
    pub const REG_TM0CNT_H: u32 = 0x0400_0102;
    pub const REG_TM1CNT_L: u32 = 0x0400_0104;
    pub const REG_TM1CNT_H: u32 = 0x0400_0106;
    pub const REG_TM2CNT_L: u32 = 0x0400_0108;
    pub const REG_TM2CNT_H: u32 = 0x0400_010A;
    pub const REG_TM3CNT_L: u32 = 0x0400_010C;
    pub const REG_TM3CNT_H: u32 = 0x0400_010E;
    pub const REG_DMA0SAD: u32 = 0x0400_00B0;
    pub const REG_DMA0DAD: u32 = 0x0400_00B4;
    pub const REG_DMA0CNT_L: u32 = 0x0400_00B8;
    pub const REG_DMA0CNT_H: u32 = 0x0400_00BA;
    pub const REG_DMA1SAD: u32 = 0x0400_00BC;
    pub const REG_DMA1DAD: u32 = 0x0400_00C0;
    pub const REG_DMA1CNT_L: u32 = 0x0400_00C4;
    pub const REG_DMA1CNT_H: u32 = 0x0400_00C6;
    pub const REG_DMA2SAD: u32 = 0x0400_00C8;
    pub const REG_DMA2DAD: u32 = 0x0400_00CC;
    pub const REG_DMA2CNT_L: u32 = 0x0400_00D0;
    pub const REG_DMA2CNT_H: u32 = 0x0400_00D2;
    pub const REG_DMA3SAD: u32 = 0x0400_00D4;
    pub const REG_DMA3DAD: u32 = 0x0400_00D8;
    pub const REG_DMA3CNT_L: u32 = 0x0400_00DC;
    pub const REG_DMA3CNT_H: u32 = 0x0400_00DE;
    pub const REG_IE: u32 = 0x0400_0200;
    pub const REG_IF: u32 = 0x0400_0202;
    pub const REG_IME: u32 = 0x0400_0208;
    pub const REG_DISPSTAT: u32 = 0x0400_0004;
    pub const REG_VCOUNT: u32 = 0x0400_0006;
    pub const REG_KEYINPUT: u32 = 0x0400_0130;
    pub const REG_KEYCNT: u32 = 0x0400_0132;
    pub const REG_POSTFLG: u32 = 0x0400_0300;
    pub const REG_HALTCNT: u32 = 0x0400_0301;
    pub const REG_WAITCNT: u32 = 0x0400_0204;
    pub const REG_DISPCNT: u32 = 0x0400_0000;
    pub const REG_BG0CNT: u32 = 0x0400_0008;
    pub const REG_BG1CNT: u32 = 0x0400_000A;
    pub const REG_BG2CNT: u32 = 0x0400_000C;
    pub const REG_BG3CNT: u32 = 0x0400_000E;
    pub const REG_BG0HOFS: u32 = 0x0400_0010;
    pub const REG_BG0VOFS: u32 = 0x0400_0012;
    pub const REG_BG1HOFS: u32 = 0x0400_0014;
    pub const REG_BG1VOFS: u32 = 0x0400_0016;
    pub const REG_BG2HOFS: u32 = 0x0400_0018;
    pub const REG_BG2VOFS: u32 = 0x0400_001A;
    pub const REG_BG3HOFS: u32 = 0x0400_001C;
    pub const REG_BG3VOFS: u32 = 0x0400_001E;
    pub const REG_WIN0H: u32 = 0x0400_0040;
    pub const REG_WIN1H: u32 = 0x0400_0042;
    pub const REG_WIN0V: u32 = 0x0400_0044;
    pub const REG_WIN1V: u32 = 0x0400_0046;
    pub const REG_WININ: u32 = 0x0400_0048;
    pub const REG_WINOUT: u32 = 0x0400_004A;
    pub const REG_BLDCNT: u32 = 0x0400_0050;
    pub const REG_BLDALPHA: u32 = 0x0400_0052;
    pub const REG_BLDY: u32 = 0x0400_0054;
    pub const REG_BG2PA: u32 = 0x0400_0020;
    pub const REG_BG2PB: u32 = 0x0400_0022;
    pub const REG_BG2PC: u32 = 0x0400_0024;
    pub const REG_BG2PD: u32 = 0x0400_0026;
    pub const REG_BG2X: u32 = 0x0400_0028;
    pub const REG_BG2Y: u32 = 0x0400_002C;
    pub const REG_BG3PA: u32 = 0x0400_0030;
    pub const REG_BG3PB: u32 = 0x0400_0032;
    pub const REG_BG3PC: u32 = 0x0400_0034;
    pub const REG_BG3PD: u32 = 0x0400_0036;
    pub const REG_BG3X: u32 = 0x0400_0038;
    pub const REG_BG3Y: u32 = 0x0400_003C;

    pub open spec fn wf(&self) -> bool {
        &&& self.bios@.len() == 0x4000
        &&& self.ewram@.len() == 0x4_0000
        &&& self.iwram@.len() == 0x8000
        &&& self.palette@.len() == 0x400
        &&& self.vram@.len() == 0x1_8000
        &&& self.oam@.len() == 0x400
        &&& self.rom@.len() <= 0x0200_0000
        &&& self.io.wf()
        &&& self.cartridge_save.wf()
        &&& self.gpio.wf()
    }

    /// The byte a read at `address` returns; unmapped addresses read 0.
    pub open spec fn spec_read8(&self, address: u32) -> u8 {
        if address <= 0x3FFF {
            self.bios@[address as int]
        } else if in_range(address, 0x0200_0000, 0x02FF_FFFF) {
            self.ewram@[(address - 0x0200_0000) % 0x4_0000]
        } else if in_range(address, 0x0300_0000, 0x03FF_FFFF) {
            self.iwram@[(address - 0x0300_0000) % 0x8000]
        } else if is_io(address) {
            self.io.spec_read8((address - 0x0400_0000) as u32)
        } else if in_range(address, 0x0500_0000, 0x05FF_FFFF) {
            self.palette@[(address - 0x0500_0000) % 0x400]
        } else if in_range(address, 0x0600_0000, 0x06FF_FFFF) {
            self.vram@[vram_index(address)]
        } else if in_range(address, 0x0700_0000, 0x07FF_FFFF) {
            self.oam@[(address - 0x0700_0000) % 0x400]
        } else if in_range(address, 0x0800_0000, 0x0DFF_FFFF) {
            byte_or_zero(self.rom@, rom_offset(address) as int)
        } else if in_range(address, 0x0E00_0000, 0x0EFF_FFFF) {
            self.cartridge_save.spec_read8(((address - 0x0E00_0000) % 0x1_0000) as usize)
        } else {
            0
        }
    }

    /// The halfword a read at `address` (rounded down to even) returns.
    pub open spec fn spec_read16(&self, address: u32) -> u16 {
        let aligned = address & !1u32;
        if is_io(aligned) {
            self.io.spec_read16(((aligned - 0x0400_0000) as u32) & !1u32)
        } else if aligned <= 0x3FFF {
            spec_read_u16_le(self.bios@, aligned as int)
        } else if in_range(aligned, 0x0200_0000, 0x02FF_FFFF) {
            spec_read_u16_le(self.ewram@, (aligned - 0x0200_0000) % 0x4_0000)
        } else if in_range(aligned, 0x0300_0000, 0x03FF_FFFF) {
            spec_read_u16_le(self.iwram@, (aligned - 0x0300_0000) % 0x8000)
        } else if in_range(aligned, 0x0500_0000, 0x05FF_FFFF) {
            spec_read_u16_le(self.palette@, (aligned - 0x0500_0000) % 0x400)
        } else if in_range(aligned, 0x0600_0000, 0x06FF_FFFF) {
            spec_read_u16_le(self.vram@, vram_index(aligned))
        } else if in_range(aligned, 0x0700_0000, 0x07FF_FFFF) {
            spec_read_u16_le(self.oam@, (aligned - 0x0700_0000) % 0x400)
        } else if in_range(aligned, 0x0800_0000, 0x0DFF_FFFF) {
            match self.gpio.spec_read16(rom_offset(aligned)) {
                Some(value) => value,
                None => spec_read_u16_le(self.rom@, rom_offset(aligned) as int),
            }
        } else {
            (self.spec_read8(aligned) as u16) | ((self.spec_read8(aligned.wrapping_add(1)) as u16)
                << 8u16)
        }
    }

    /// The word a read at `address` (rounded down to a multiple of 4)
    /// returns.
    pub open spec fn spec_read32(&self, address: u32) -> u32 {
        let aligned = address & !3u32;
        if is_io(aligned) {
            let offset = (aligned - 0x0400_0000) as u32;
            (self.io.spec_read16((offset & !3u32) & !1u32) as u32) | ((self.io.spec_read16(
                (offset & !3u32).wrapping_add(2) & !1u32,
            ) as u32) << 16u32)
        } else if aligned <= 0x3FFF {
            spec_read_u32_le(self.bios@, aligned as int)
        } else if in_range(aligned, 0x0200_0000, 0x02FF_FFFF) {
            spec_read_u32_le(self.ewram@, (aligned - 0x0200_0000) % 0x4_0000)
        } else if in_range(aligned, 0x0300_0000, 0x03FF_FFFF) {
            spec_read_u32_le(self.iwram@, (aligned - 0x0300_0000) % 0x8000)
        } else if in_range(aligned, 0x0500_0000, 0x05FF_FFFF) {
            spec_read_u32_le(self.palette@, (aligned - 0x0500_0000) % 0x400)
        } else if in_range(aligned, 0x0600_0000, 0x06FF_FFFF) {
            spec_read_u32_le(self.vram@, vram_index(aligned))
        } else if in_range(aligned, 0x0700_0000, 0x07FF_FFFF) {
            spec_read_u32_le(self.oam@, (aligned - 0x0700_0000) % 0x400)
        } else if in_range(aligned, 0x0800_0000, 0x0DFF_FFFF) {
            spec_read_u32_le(self.rom@, rom_offset(aligned) as int)
        } else {
            (self.spec_read8(aligned) as u32) | ((self.spec_read8(aligned.wrapping_add(1)) as u32)
                << 8u32) | ((self.spec_read8(aligned.wrapping_add(2)) as u32) << 16u32) | ((
            self.spec_read8(aligned.wrapping_add(3)) as u32) << 24u32)
        }
    }
}

/// The bus with `rom` installed: the save chip its signature names
/// (Flash 1M or else SRAM), clean, and the RTC if it names one; I/O and
/// BIOS are kept.
pub open spec fn rom_loaded(before: Bus, after: Bus, rom: Seq<u8>) -> bool {
    &&& after.rom@ == rom
    &&& after.cartridge_save.spec_save_type() == if cartridge_save::contains(
        rom,
        cartridge_save::flash_signature(),
    ) {
        CartridgeSaveType::Flash1M
    } else {
        CartridgeSaveType::Sram
    }
    &&& !after.cartridge_save.dirty
    &&& forall|i: int|
        0 <= i < after.cartridge_save.cells().len() ==> #[trigger] after.cartridge_save.cells()[i] == 0xFF
    &&& after.cartridge_save.storage matches cartridge_save::CartridgeSaveStorage::Flash1M(f) ==> f.bank
        == 0 && !f.id_mode && f.command_state == cartridge_save::FlashCommandState::Ready
    &&& after.gpio.spec_has_device() == cartridge_save::contains(rom, cartridge_gpio::rtc_signature())
    &&& after.gpio.pin_state == 0
    &&& after.gpio.direction == 0
    &&& !after.gpio.read_enabled
    &&& after.gpio.rtc matches Some(rtc) ==> rtc.clock == cartridge_gpio::RtcClock::HostLocal
        && rtc.state().control == 0x40 && rtc.state().transfer_step == 0 && rtc.state().command is None
    &&& after == (Bus {
        rom: after.rom,
        cartridge_save: after.cartridge_save,
        gpio: after.gpio,
        ..before
    })
}

/// `after` is `before` after a reset: BIOS, ROM and save contents are
/// kept, and work RAM, palette, VRAM, OAM and the I/O storage are zero.
pub open spec fn bus_reset(before: Bus, after: Bus) -> bool {
    &&& after.bios == before.bios
    &&& after.rom == before.rom
    &&& after.cartridge_save.spec_save_type() == before.cartridge_save.spec_save_type()
    &&& after.cartridge_save.cells() == before.cartridge_save.cells()
    &&& after.cartridge_save.dirty == before.cartridge_save.dirty
    &&& after.cartridge_save.storage matches cartridge_save::CartridgeSaveStorage::Flash1M(f) ==> f.bank
        == 0 && !f.id_mode && f.command_state == cartridge_save::FlashCommandState::Ready
    &&& after.gpio.pin_state == 0
    &&& after.gpio.direction == 0
    &&& !after.gpio.read_enabled
    &&& after.gpio.rtc is Some == before.gpio.rtc is Some
    &&& before.gpio.rtc matches Some(b) ==> (after.gpio.rtc matches Some(a) && a.clock == b.clock
        && a.state() == cartridge_gpio::protocol_reset(b.state()))
    &&& forall|i: int| 0 <= i < 0x4_0000 ==> #[trigger] after.ewram@[i] == 0
    &&& forall|i: int| 0 <= i < 0x8000 ==> #[trigger] after.iwram@[i] == 0
    &&& forall|i: int| 0 <= i < 0x400 ==> #[trigger] after.palette@[i] == 0
    &&& forall|i: int| 0 <= i < 0x1_8000 ==> #[trigger] after.vram@[i] == 0
    &&& forall|i: int| 0 <= i < 0x400 ==> #[trigger] after.oam@[i] == 0
    &&& io_power_on(after.io)
}

/// Work RAM, palette, VRAM and OAM zero and the I/O block at power-on.
pub open spec fn memories_power_on(bus: Bus) -> bool {
    &&& forall|i: int| 0 <= i < 0x4_0000 ==> #[trigger] bus.ewram@[i] == 0
    &&& forall|i: int| 0 <= i < 0x8000 ==> #[trigger] bus.iwram@[i] == 0
    &&& forall|i: int| 0 <= i < 0x400 ==> #[trigger] bus.palette@[i] == 0
    &&& forall|i: int| 0 <= i < 0x1_8000 ==> #[trigger] bus.vram@[i] == 0
    &&& forall|i: int| 0 <= i < 0x400 ==> #[trigger] bus.oam@[i] == 0
    &&& io_power_on(bus.io)
}

/// The bus at power-on: no BIOS contents and no ROM, all memories zero,
/// the I/O block at power-on, an erased clean SRAM and a GPIO port with
/// no device.
pub open spec fn bus_power_on(bus: Bus) -> bool {
    &&& bus.wf()
    &&& bus.rom@.len() == 0
    &&& forall|i: int| 0 <= i < 0x4000 ==> #[trigger] bus.bios@[i] == 0
    &&& memories_power_on(bus)
    &&& bus.cartridge_save.spec_save_type() == CartridgeSaveType::Sram
    &&& forall|i: int| 0 <= i < bus.cartridge_save.cells().len() ==> #[trigger] bus.cartridge_save.cells()[i] == 0xFF
    &&& !bus.cartridge_save.dirty
    &&& !bus.gpio.spec_has_device()
    &&& bus.gpio.pin_state == 0
    &&& bus.gpio.direction == 0
    &&& !bus.gpio.read_enabled
}

/// The bus once the pressed buttons are `pressed`: the keypad re-evaluates
/// its interrupt condition and a new match requests the keypad interrupt.
pub open spec fn keys_set(before: Bus, pressed: u16) -> Bus {
    let (keypad, update) = keypad::keypad_evaluated(
        pressed,
        before.io.keypad.control,
        before.io.keypad.previous_condition_active,
    );
    Bus {
        io: IoRegisters {
            keypad,
            interrupts: if update.interrupt_requests != 0 {
                before.io.interrupts.spec_request_mask(update.interrupt_requests)
            } else {
                before.io.interrupts
            },
            ..before.io
        },
        ..before
    }
}

/// `after` is `before` after a byte write. BIOS, OAM and ROM ignore byte
/// writes; palette and VRAM bytes are stored in both bytes of their
/// halfword.
pub open spec fn bus_written8(before: Bus, after: Bus, address: u32, value: u8) -> bool {
    if address <= 0x3FFF {
        after == before
    } else if in_range(address, 0x0200_0000, 0x02FF_FFFF) {
        after == Bus {
            ewram: after.ewram,
            ..before
        } && after.ewram@ == before.ewram@.update((address - 0x0200_0000) % 0x4_0000, value)
    } else if in_range(address, 0x0300_0000, 0x03FF_FFFF) {
        after == Bus {
            iwram: after.iwram,
            ..before
        } && after.iwram@ == before.iwram@.update((address - 0x0300_0000) % 0x8000, value)
    } else if is_io(address) {
        after == Bus { io: after.io, ..before } && after.io.wf() && io_written8(
            before.io,
            after.io,
            (address - 0x0400_0000) as u32,
            value,
        )
    } else if in_range(address, 0x0500_0000, 0x05FF_FFFF) {
        let index = (address - 0x0500_0000) % 0x400;
        let even = index - index % 2;
        after == Bus {
            palette: after.palette,
            ..before
        } && after.palette@ == before.palette@.update(even, value).update(even + 1, value)
    } else if in_range(address, 0x0600_0000, 0x06FF_FFFF) {
        let index = vram_index(address);
        let even = index - index % 2;
        after == Bus { vram: after.vram, ..before } && after.vram@ == before.vram@.update(
            even,
            value,
        ).update(even + 1, value)
    } else if in_range(address, 0x0E00_0000, 0x0EFF_FFFF) {
        after == Bus {
            cartridge_save: after.cartridge_save,
            ..before
        } && after.cartridge_save.wf() && save_written8(
            before.cartridge_save,
            after.cartridge_save,
            ((address - 0x0E00_0000) % 0x1_0000) as usize,
            value,
        )
    } else {
        after == before
    }
}

/// `after` is `before` after a halfword write at `address` rounded down
/// to even. ROM writes reach the GPIO port; addresses without a halfword
/// path take two byte writes.
pub open spec fn bus_written16(before: Bus, after: Bus, address: u32, value: u16) -> bool {
    let aligned = address & !1u32;
    if is_io(aligned) {
        after == Bus { io: after.io, ..before } && after.io.wf() && io_written16(
            before.io,
            after.io,
            (aligned - 0x0400_0000) as u32,
            value,
        )
    } else if in_range(aligned, 0x0200_0000, 0x02FF_FFFF) {
        after == Bus { ewram: after.ewram, ..before } && after.ewram@ == spec_write_bytes(
            before.ewram@,
            (aligned - 0x0200_0000) % 0x4_0000,
            le_bytes_u16(value),
        )
    } else if in_range(aligned, 0x0300_0000, 0x03FF_FFFF) {
        after == Bus { iwram: after.iwram, ..before } && after.iwram@ == spec_write_bytes(
            before.iwram@,
            (aligned - 0x0300_0000) % 0x8000,
            le_bytes_u16(value),
        )
    } else if in_range(aligned, 0x0500_0000, 0x05FF_FFFF) {
        after == Bus { palette: after.palette, ..before } && after.palette@ == spec_write_bytes(
            before.palette@,
            (aligned - 0x0500_0000) % 0x400,
            le_bytes_u16(value),
        )
    } else if in_range(aligned, 0x0600_0000, 0x06FF_FFFF) {
        after == Bus { vram: after.vram, ..before } && after.vram@ == spec_write_bytes(
            before.vram@,
            vram_index(aligned),
            le_bytes_u16(value),
        )
    } else if in_range(aligned, 0x0700_0000, 0x07FF_FFFF) {
        after == Bus { oam: after.oam, ..before } && after.oam@ == spec_write_bytes(
            before.oam@,
            (aligned - 0x0700_0000) % 0x400,
            le_bytes_u16(value),
        )
    } else if in_range(aligned, 0x0800_0000, 0x0DFF_FFFF) {
        after == Bus { gpio: after.gpio, ..before } && after.gpio.wf() && exists|taken: bool|
            #[trigger] gpio_written(before.gpio, after.gpio, rom_offset(aligned), value, taken)
    } else {
        exists|middle: Bus|
            #[trigger] bus_written8(before, middle, aligned, (value % 0x100) as u8) && bus_written8(
                middle,
                after,
                aligned.wrapping_add(1),
                (value / 0x100) as u8,
            )
    }
}

/// `after` is `before` after a word write at `address` rounded down to a
/// multiple of 4.
pub open spec fn bus_written32(before: Bus, after: Bus, address: u32, value: u32) -> bool {
    let aligned = address & !3u32;
    if is_io(aligned) {
        let offset = (aligned - 0x0400_0000) as u32;
        after == Bus { io: after.io, ..before } && after.io.wf() && exists|middle: IoRegisters|
            #[trigger] io_written16(before.io, middle, offset & !3u32, value as u16) && middle.wf()
                && io_written16(
                middle,
                after.io,
                (offset & !3u32).wrapping_add(2),
                (value >> 16u32) as u16,
            )
    } else if in_range(aligned, 0x0200_0000, 0x02FF_FFFF) {
        after == Bus { ewram: after.ewram, ..before } && after.ewram@ == spec_write_bytes(
            before.ewram@,
            (aligned - 0x0200_0000) % 0x4_0000,
            le_bytes_u32(value),
        )
    } else if in_range(aligned, 0x0300_0000, 0x03FF_FFFF) {
        after == Bus { iwram: after.iwram, ..before } && after.iwram@ == spec_write_bytes(
            before.iwram@,
            (aligned - 0x0300_0000) % 0x8000,
            le_bytes_u32(value),
        )
    } else if in_range(aligned, 0x0500_0000, 0x05FF_FFFF) {
        after == Bus { palette: after.palette, ..before } && after.palette@ == spec_write_bytes(
            before.palette@,
            (aligned - 0x0500_0000) % 0x400,
            le_bytes_u32(value),
        )
    } else if in_range(aligned, 0x0600_0000, 0x06FF_FFFF) {
        after == Bus { vram: after.vram, ..before } && after.vram@ == spec_write_bytes(
            before.vram@,
            vram_index(aligned),
            le_bytes_u32(value),
        )
    } else if in_range(aligned, 0x0700_0000, 0x07FF_FFFF) {
        after == Bus { oam: after.oam, ..before } && after.oam@ == spec_write_bytes(
            before.oam@,
            (aligned - 0x0700_0000) % 0x400,
            le_bytes_u32(value),
        )
    } else {
        exists|m1: Bus|
            #[trigger] bus_written8(before, m1, aligned, (value % 0x100) as u8) && exists|m2: Bus|
                #[trigger] bus_written8(m1, m2, aligned.wrapping_add(1), ((value / 0x100) % 0x100) as u8)
                    && exists|m3: Bus|
                    #[trigger] bus_written8(
                        m2,
                        m3,
                        aligned.wrapping_add(2),
                        ((value / 0x1_0000) % 0x100) as u8,
                    ) && bus_written8(m3, after, aligned.wrapping_add(3), (value / 0x100_0000) as u8)
    }
}

} // verus!

verus! {

fn mirror_offset(address: u32, base: u32, size: u32) -> (r: usize)
    requires
        address >= base,
        size > 0,
    ensures
        r == (address - base) % (size as int),
        r < size,
{
    ((address - base) % size) as usize
}

fn vram_offset(address: u32) -> (r: usize)
    requires
        address >= 0x0600_0000,
    ensures
        r == vram_index(address),
        r < 0x1_8000,
{
    let offset = ((address - VRAM_BASE) % 0x2_0000) as usize;
    if offset >= VRAM_SIZE {
        offset - 0x8000
    } else {
        offset
    }
}

fn rom_physical_offset(address: u32) -> (r: u32)
    requires
        address >= 0x0800_0000,
    ensures
        r == rom_offset(address),
        r < 0x0200_0000,
{
    (address - ROM_BASE) % 0x0200_0000
}

fn fill_zero(memory: &mut Vec<u8>)
    ensures
        final(memory)@.len() == old(memory)@.len(),
        forall|i: int| 0 <= i < final(memory)@.len() ==> #[trigger] final(memory)@[i] == 0,
{
    let mut i: usize = 0;
    while i < memory.len()
        invariant
            i <= memory@.len(),
            memory@.len() == old(memory)@.len(),
            forall|k: int| 0 <= k < i ==> #[trigger] memory@[k] == 0,
        decreases memory@.len() - i,
    {
        memory.set(i, 0);
        i = i + 1;
    }
}

fn copy_bytes(source: &[u8]) -> (r: Vec<u8>)
    ensures
        r@ == source@,
{
    let mut copy: Vec<u8> = Vec::new();
    let mut i: usize = 0;
    while i < source.len()
        invariant
            i <= source@.len(),
            copy@ == source@.subrange(0, i as int),
        decreases source@.len() - i,
    {
        copy.push(source[i]);
        i = i + 1;
        proof {
            assert(copy@ =~= source@.subrange(0, i as int));
        }
    }
    proof {
        assert(copy@ =~= source@);
    }
    copy
}

impl Bus {
    pub fn new() -> (r: Self)
        ensures
            r.wf(),
            bus_power_on(r),
    {
        let empty: [u8; 0] = [];
        proof {
            assert forall|start: int| !#[trigger] cartridge_save::occurs_at(empty@, cartridge_save::flash_signature(), start) by {}
            assert forall|start: int| !#[trigger] cartridge_save::occurs_at(empty@, cartridge_gpio::rtc_signature(), start) by {}
        }
        Bus {
            bios: vec![0u8; BIOS_SIZE],
            ewram: vec![0u8; EWRAM_SIZE],
            iwram: vec![0u8; IWRAM_SIZE],
            io: IoRegisters::new(),
            palette: vec![0u8; PALETTE_SIZE],
            vram: vec![0u8; VRAM_SIZE],
            oam: vec![0u8; OAM_SIZE],
            rom: Vec::new(),
            cartridge_save: CartridgeSave::from_rom(&empty),
            gpio: GamePakGpio::from_rom(&empty),
        }
    }

    /// Clears work RAM, video memory and the I/O block; BIOS, ROM and the
    /// save contents survive, and the save and GPIO protocols restart.
    pub fn reset(&mut self)
        requires
            old(self).wf(),
        ensures
            final(self).wf(),
            bus_reset(*old(self), *final(self)),
    {
        fill_zero(&mut self.ewram);
        fill_zero(&mut self.iwram);
        self.io.reset();
        fill_zero(&mut self.palette);
        fill_zero(&mut self.vram);
        fill_zero(&mut self.oam);
        self.cartridge_save.reset_protocol();
        self.gpio.reset_protocol();
    }

    /// Installs a BIOS image of exactly 16 KiB; any other size is refused.
    pub fn load_bios(&mut self, bios: &[u8]) -> (r: Result<(), BusLoadError>)
        requires
            old(self).wf(),
        ensures
            final(self).wf(),
            bios@.len() == 0x4000 ==> r is Ok && *final(self) == (Bus { bios: final(self).bios, ..*old(self) })
                && final(self).bios@ == bios@,
            bios@.len() != 0x4000 ==> r == Err::<(), BusLoadError>(
                BusLoadError::InvalidBiosSize { expected: 0x4000, actual: bios@.len() as usize },
            ) && *final(self) == *old(self),
    {
        if bios.len() != BIOS_SIZE {
            return Err(BusLoadError::InvalidBiosSize { expected: BIOS_SIZE, actual: bios.len() });
        }
        self.bios = copy_bytes(bios);
        Ok(())
    }

    /// Installs a ROM image of at most 32 MiB and the save chip and GPIO
    /// device it names; a larger image is refused.
    pub fn load_rom(&mut self, rom: &[u8]) -> (r: Result<(), BusLoadError>)
        requires
            old(self).wf(),
        ensures
            final(self).wf(),
            rom@.len() <= 0x0200_0000 ==> r is Ok && rom_loaded(*old(self), *final(self), rom@),
            rom@.len() > 0x0200_0000 ==> r == Err::<(), BusLoadError>(
                BusLoadError::RomTooLarge { maximum: 0x0200_0000, actual: rom@.len() as usize },
            ) && *final(self) == *old(self),
    {
        if rom.len() > GAME_PAK_ROM_MAX_SIZE {
            return Err(BusLoadError::RomTooLarge { maximum: GAME_PAK_ROM_MAX_SIZE, actual: rom.len() });
        }
        self.rom = copy_bytes(rom);
        self.cartridge_save = CartridgeSave::from_rom(rom);
        self.gpio = GamePakGpio::from_rom(rom);
        Ok(())
    }

    pub fn cartridge_save_type(&self) -> (r: CartridgeSaveType)
        ensures
            r == self.cartridge_save.spec_save_type(),
    {
        self.cartridge_save.save_type()
    }

    pub fn cartridge_save_data(&self) -> (r: &[u8])
        ensures
            r@ == self.cartridge_save.cells(),
    {
        self.cartridge_save.data()
    }

    pub fn load_cartridge_save(&mut self, data: &[u8]) -> (r: Result<(), CartridgeSaveLoadError>)
        requires
            old(self).wf(),
        ensures
            final(self).wf(),
            *final(self) == (Bus { cartridge_save: final(self).cartridge_save, ..*old(self) }),
            final(self).cartridge_save.spec_save_type() == old(self).cartridge_save.spec_save_type(),
            cartridge_save::accepted_save_length(old(self).cartridge_save.spec_save_type(), data@.len()) ==> {
                &&& r is Ok
                &&& final(self).cartridge_save.cells() == data@.take(
                    cartridge_save::save_size(old(self).cartridge_save.spec_save_type()) as int,
                )
                &&& !final(self).cartridge_save.dirty
            },
            !cartridge_save::accepted_save_length(old(self).cartridge_save.spec_save_type(), data@.len()) ==> {
                &&& r matches Err(e)
                &&& e.expected == cartridge_save::save_size(old(self).cartridge_save.spec_save_type())
                &&& e.actual == data@.len()
                &&& final(self).cartridge_save.cells() == old(self).cartridge_save.cells()
                &&& final(self).cartridge_save.dirty == old(self).cartridge_save.dirty
            },
    {
        self.cartridge_save.load_data(data)
    }

    pub fn cartridge_save_dirty(&self) -> (r: bool)
        ensures
            r == self.cartridge_save.dirty,
    {
        self.cartridge_save.is_dirty()
    }

    pub fn mark_cartridge_save_clean(&mut self)
        ensures
            *final(self) == (Bus {
                cartridge_save: CartridgeSave { dirty: false, ..old(self).cartridge_save },
                ..*old(self)
            }),
    {
        self.cartridge_save.mark_clean();
    }

    pub fn io(&self) -> (r: &IoRegisters)
        ensures
            *r == self.io,
    {
        &self.io
    }

    pub fn io_mut(&mut self) -> (r: &mut IoRegisters)
        ensures
            *r == old(self).io,
            *final(self) == (Bus { io: *final(r), ..*old(self) }),
    {
        &mut self.io
    }

    pub fn interrupt_controller(&self) -> (r: &InterruptController)
        ensures
            *r == self.io.interrupts,
    {
        self.io.interrupts()
    }

    pub fn interrupt_controller_mut(&mut self) -> (r: &mut InterruptController)
        ensures
            *r == old(self).io.interrupts,
            *final(self) == (Bus {
                io: IoRegisters { interrupts: *final(r), ..old(self).io },
                ..*old(self)
            }),
    {
        self.io.interrupts_mut()
    }

    pub fn request_interrupt(&mut self, source: InterruptSource)
        ensures
            *final(self) == (Bus {
                io: IoRegisters {
                    interrupts: old(self).io.interrupts.spec_request_mask(source_mask(source)),
                    ..old(self).io
                },
                ..*old(self)
            }),
    {
        self.io.request_interrupt(source);
    }

    pub fn irq_line(&self) -> (r: bool)
        ensures
            r == self.io.interrupts.spec_irq_line(),
    {
        self.io.irq_line()
    }

    pub fn set_key(&mut self, key: Key, pressed: bool)
        ensures
            *final(self) == keys_set(
                *old(self),
                (if pressed {
                    old(self).io.keypad.pressed | keypad::key_mask(key)
                } else {
                    old(self).io.keypad.pressed & !keypad::key_mask(key)
                }) & 0x03FF,
            ),
    {
        self.io.set_key(key, pressed);
    }

    pub fn set_pressed_keys(&mut self, pressed_mask: u16)
        ensures
            *final(self) == keys_set(*old(self), pressed_mask & 0x03FF),
    {
        self.io.set_pressed_keys(pressed_mask);
    }

    pub fn take_power_request(&mut self) -> (r: Option<PowerStateRequest>)
        ensures
            r == old(self).io.power.pending_request,
            *final(self) == (Bus {
                io: IoRegisters {
                    power: PowerControl { pending_request: None, ..old(self).io.power },
                    ..old(self).io
                },
                ..*old(self)
            }),
    {
        self.io.take_power_request()
    }

    /// HALT wakes on any enabled pending interrupt, whatever IME says.
    pub fn halt_wake_requested(&self) -> (r: bool)
        ensures
            r == (self.io.interrupts.spec_enabled_pending() != 0),
    {
        self.interrupt_controller().enabled_pending() != 0
    }

    pub fn wait_control(&self) -> (r: &WaitControl)
        ensures
            *r == self.io.wait_control,
    {
        self.io.wait_control()
    }

    pub fn access_cycles(&self, address: u32, width: AccessWidth, kind: AccessKind) -> (r: u32)
        ensures
            r == self.io.wait_control.spec_access_cycles(address, width, kind),
            1 <= r <= 32,
    {
        self.io.wait_control().access_cycles(address, width, kind)
    }

    pub fn framebuffer(&self) -> (r: &[u32])
        ensures
            r@ == self.io.video.framebuffer@,
    {
        self.io.video().framebuffer()
    }

    pub fn frame_ready(&self) -> (r: bool)
        ensures
            r == self.io.video.frame_ready,
    {
        self.io.video().frame_ready()
    }

    pub fn take_frame_ready(&mut self) -> (r: bool)
        ensures
            r == old(self).io.video.frame_ready,
            *final(self) == (Bus {
                io: IoRegisters {
                    video: Video { frame_ready: false, ..old(self).io.video },
                    ..old(self).io
                },
                ..*old(self)
            }),
    {
        self.io.video_mut().take_frame_ready()
    }

    pub fn frame_number(&self) -> (r: u64)
        ensures
            r == self.io.video.frame_number,
    {
        self.io.video().frame_number()
    }
}

} // verus!

verus! {

impl Bus {
    pub fn read8(&self, address: u32) -> (r: u8)
        requires
            self.wf(),
        ensures
            r == self.spec_read8(address),
    {
        if address <= 0x3FFF {
            self.bios[address as usize]
        } else if 0x0200_0000 <= address && address <= 0x02FF_FFFF {
            self.ewram[mirror_offset(address, EWRAM_BASE, 0x4_0000)]
        } else if 0x0300_0000 <= address && address <= 0x03FF_FFFF {
            self.iwram[mirror_offset(address, IWRAM_BASE, 0x8000)]
        } else if IoRegisters::contains_address(address) {
            self.io.read8(IoRegisters::address_to_offset(address))
        } else if 0x0500_0000 <= address && address <= 0x05FF_FFFF {
            self.palette[mirror_offset(address, PALETTE_BASE, 0x400)]
        } else if 0x0600_0000 <= address && address <= 0x06FF_FFFF {
            self.vram[vram_offset(address)]
        } else if 0x0700_0000 <= address && address <= 0x07FF_FFFF {
            self.oam[mirror_offset(address, OAM_BASE, 0x400)]
        } else if ROM_BASE <= address && address <= ROM_END {
            self.read_rom8(address)
        } else if 0x0E00_0000 <= address && address <= 0x0EFF_FFFF {
            self.cartridge_save.read8(mirror_offset(address, SAVE_BASE, 0x1_0000))
        } else {
            0
        }
    }

    fn read_rom8(&self, address: u32) -> (r: u8)
        requires
            address >= 0x0800_0000,
        ensures
            r == byte_or_zero(self.rom@, rom_offset(address) as int),
    {
        if self.rom.len() == 0 {
            return 0;
        }
        let offset = rom_physical_offset(address) as usize;
        if offset < self.rom.len() {
            self.rom[offset]
        } else {
            0
        }
    }

    pub fn read8_timed(&self, address: u32, kind: AccessKind) -> (r: TimedAccess<u8>)
        requires
            self.wf(),
        ensures
            r.value == self.spec_read8(address),
            r.cycles == self.io.wait_control.spec_access_cycles(address, AccessWidth::Byte, kind),
            1 <= r.cycles <= 32,
    {
        let cycles = self.access_cycles(address, AccessWidth::Byte, kind);
        TimedAccess::new(self.read8(address), cycles)
    }

    pub fn write8(&mut self, address: u32, value: u8)
        requires
            old(self).wf(),
        ensures
            final(self).wf(),
            bus_written8(*old(self), *final(self), address, value),
    {
        if address <= 0x3FFF {
        } else if 0x0200_0000 <= address && address <= 0x02FF_FFFF {
            let offset = mirror_offset(address, EWRAM_BASE, 0x4_0000);
            self.ewram.set(offset, value);
        } else if 0x0300_0000 <= address && address <= 0x03FF_FFFF {
            let offset = mirror_offset(address, IWRAM_BASE, 0x8000);
            self.iwram.set(offset, value);
        } else if IoRegisters::contains_address(address) {
            self.io.write8(IoRegisters::address_to_offset(address), value);
        } else if 0x0500_0000 <= address && address <= 0x05FF_FFFF {
            let index = mirror_offset(address, PALETTE_BASE, 0x400);
            let offset = index - index % 2;
            self.palette.set(offset, value);
            self.palette.set(offset + 1, value);
        } else if 0x0600_0000 <= address && address <= 0x06FF_FFFF {
            let index = vram_offset(address);
            let offset = index - index % 2;
            self.vram.set(offset, value);
            self.vram.set(offset + 1, value);
        } else if 0x0700_0000 <= address && address <= 0x07FF_FFFF {
        } else if ROM_BASE <= address && address <= ROM_END {
        } else if 0x0E00_0000 <= address && address <= 0x0EFF_FFFF {
            self.cartridge_save.write8(mirror_offset(address, SAVE_BASE, 0x1_0000), value);
        }
    }

    pub fn write8_timed(&mut self, address: u32, value: u8, kind: AccessKind) -> (r: u32)
        requires
            old(self).wf(),
        ensures
            final(self).wf(),
            r == old(self).io.wait_control.spec_access_cycles(address, AccessWidth::Byte, kind),
            1 <= r <= 32,
            bus_written8(*old(self), *final(self), address, value),
    {
        let cycles = self.access_cycles(address, AccessWidth::Byte, kind);
        self.write8(address, value);
        cycles
    }

    pub fn read16(&self, address: u32) -> (r: u16)
        requires
            self.wf(),
        ensures
            r == self.spec_read16(address),
    {
        let aligned = address & !1u32;
        if IoRegisters::contains_address(aligned) {
            return self.io.read16(IoRegisters::address_to_offset(aligned));
        }
        if aligned <= 0x3FFF {
            read_u16_le(self.bios.as_slice(), aligned as usize)
        } else if 0x0200_0000 <= aligned && aligned <= 0x02FF_FFFF {
            read_u16_le(self.ewram.as_slice(), mirror_offset(aligned, EWRAM_BASE, 0x4_0000))
        } else if 0x0300_0000 <= aligned && aligned <= 0x03FF_FFFF {
            read_u16_le(self.iwram.as_slice(), mirror_offset(aligned, IWRAM_BASE, 0x8000))
        } else if 0x0500_0000 <= aligned && aligned <= 0x05FF_FFFF {
            read_u16_le(self.palette.as_slice(), mirror_offset(aligned, PALETTE_BASE, 0x400))
        } else if 0x0600_0000 <= aligned && aligned <= 0x06FF_FFFF {
            read_u16_le(self.vram.as_slice(), vram_offset(aligned))
        } else if 0x0700_0000 <= aligned && aligned <= 0x07FF_FFFF {
            read_u16_le(self.oam.as_slice(), mirror_offset(aligned, OAM_BASE, 0x400))
        } else if ROM_BASE <= aligned && aligned <= ROM_END {
            let offset = rom_physical_offset(aligned);
            match self.gpio.read16(offset) {
                Some(value) => value,
                None => read_u16_le(self.rom.as_slice(), offset as usize),
            }
        } else {
            let low = self.read8(aligned);
            let high = self.read8(aligned.wrapping_add(1));
            (low as u16) | ((high as u16) << 8u16)
        }
    }

    pub fn read16_timed(&self, address: u32, kind: AccessKind) -> (r: TimedAccess<u16>)
        requires
            self.wf(),
        ensures
            r.value == self.spec_read16(address),
            r.cycles == self.io.wait_control.spec_access_cycles(address, AccessWidth::Halfword, kind),
            1 <= r.cycles <= 32,
    {
        let cycles = self.access_cycles(address, AccessWidth::Halfword, kind);
        TimedAccess::new(self.read16(address), cycles)
    }

    #[verifier::spinoff_prover]
    pub fn write16(&mut self, address: u32, value: u16)
        requires
            old(self).wf(),
        ensures
            final(self).wf(),
            bus_written16(*old(self), *final(self), address, value),
    {
        let aligned = address & !1u32;
        if IoRegisters::contains_address(aligned) {
            self.io.write16(IoRegisters::address_to_offset(aligned), value);
            return;
        }
        if 0x0200_0000 <= aligned && aligned <= 0x02FF_FFFF {
            let offset = mirror_offset(aligned, EWRAM_BASE, 0x4_0000);
            write_u16_le(self.ewram.as_mut_slice(), offset, value);
        } else if 0x0300_0000 <= aligned && aligned <= 0x03FF_FFFF {
            let offset = mirror_offset(aligned, IWRAM_BASE, 0x8000);
            write_u16_le(self.iwram.as_mut_slice(), offset, value);
        } else if 0x0500_0000 <= aligned && aligned <= 0x05FF_FFFF {
            let offset = mirror_offset(aligned, PALETTE_BASE, 0x400);
            write_u16_le(self.palette.as_mut_slice(), offset, value);
        } else if 0x0600_0000 <= aligned && aligned <= 0x06FF_FFFF {
            let offset = vram_offset(aligned);
            write_u16_le(self.vram.as_mut_slice(), offset, value);
        } else if 0x0700_0000 <= aligned && aligned <= 0x07FF_FFFF {
            let offset = mirror_offset(aligned, OAM_BASE, 0x400);
            write_u16_le(self.oam.as_mut_slice(), offset, value);
        } else if ROM_BASE <= aligned && aligned <= ROM_END {
            let offset = rom_physical_offset(aligned);
            let _taken = self.gpio.write16(offset, value);
        } else {
            self.write8(aligned, (value % 0x100) as u8);
            self.write8(aligned.wrapping_add(1), (value / 0x100) as u8);
        }
    }

    pub fn write16_timed(&mut self, address: u32, value: u16, kind: AccessKind) -> (r: u32)
        requires
            old(self).wf(),
        ensures
            final(self).wf(),
            r == old(self).io.wait_control.spec_access_cycles(address, AccessWidth::Halfword, kind),
            1 <= r <= 32,
            bus_written16(*old(self), *final(self), address, value),
    {
        let cycles = self.access_cycles(address, AccessWidth::Halfword, kind);
        self.write16(address, value);
        cycles
    }

    pub fn read32(&self, address: u32) -> (r: u32)
        requires
            self.wf(),
        ensures
            r == self.spec_read32(address),
    {
        let aligned = address & !3u32;
        if IoRegisters::contains_address(aligned) {
            return self.io.read32(IoRegisters::address_to_offset(aligned));
        }
        if aligned <= 0x3FFF {
            read_u32_le(self.bios.as_slice(), aligned as usize)
        } else if 0x0200_0000 <= aligned && aligned <= 0x02FF_FFFF {
            read_u32_le(self.ewram.as_slice(), mirror_offset(aligned, EWRAM_BASE, 0x4_0000))
        } else if 0x0300_0000 <= aligned && aligned <= 0x03FF_FFFF {
            read_u32_le(self.iwram.as_slice(), mirror_offset(aligned, IWRAM_BASE, 0x8000))
        } else if 0x0500_0000 <= aligned && aligned <= 0x05FF_FFFF {
            read_u32_le(self.palette.as_slice(), mirror_offset(aligned, PALETTE_BASE, 0x400))
        } else if 0x0600_0000 <= aligned && aligned <= 0x06FF_FFFF {
            read_u32_le(self.vram.as_slice(), vram_offset(aligned))
        } else if 0x0700_0000 <= aligned && aligned <= 0x07FF_FFFF {
            read_u32_le(self.oam.as_slice(), mirror_offset(aligned, OAM_BASE, 0x400))
        } else if ROM_BASE <= aligned && aligned <= ROM_END {
            read_u32_le(self.rom.as_slice(), rom_physical_offset(aligned) as usize)
        } else {
            let b0 = self.read8(aligned);
            let b1 = self.read8(aligned.wrapping_add(1));
            let b2 = self.read8(aligned.wrapping_add(2));
            let b3 = self.read8(aligned.wrapping_add(3));
            (b0 as u32) | ((b1 as u32) << 8u32) | ((b2 as u32) << 16u32) | ((b3 as u32) << 24u32)
        }
    }

    pub fn read32_timed(&self, address: u32, kind: AccessKind) -> (r: TimedAccess<u32>)
        requires
            self.wf(),
        ensures
            r.value == self.spec_read32(address),
            r.cycles == self.io.wait_control.spec_access_cycles(address, AccessWidth::Word, kind),
            1 <= r.cycles <= 32,
    {
        let cycles = self.access_cycles(address, AccessWidth::Word, kind);
        TimedAccess::new(self.read32(address), cycles)
    }

    #[verifier::spinoff_prover]
    pub fn write32(&mut self, address: u32, value: u32)
        requires
            old(self).wf(),
        ensures
            final(self).wf(),
            bus_written32(*old(self), *final(self), address, value),
    {
        let aligned = address & !3u32;
        if IoRegisters::contains_address(aligned) {
            let offset = IoRegisters::address_to_offset(aligned);
            assert(offset == (aligned - 0x0400_0000) as u32);
            self.io.write32(offset, value);
            return;
        }
        if 0x0200_0000 <= aligned && aligned <= 0x02FF_FFFF {
            let offset = mirror_offset(aligned, EWRAM_BASE, 0x4_0000);
            write_u32_le(self.ewram.as_mut_slice(), offset, value);
        } else if 0x0300_0000 <= aligned && aligned <= 0x03FF_FFFF {
            let offset = mirror_offset(aligned, IWRAM_BASE, 0x8000);
            write_u32_le(self.iwram.as_mut_slice(), offset, value);
        } else if 0x0500_0000 <= aligned && aligned <= 0x05FF_FFFF {
            let offset = mirror_offset(aligned, PALETTE_BASE, 0x400);
            write_u32_le(self.palette.as_mut_slice(), offset, value);
        } else if 0x0600_0000 <= aligned && aligned <= 0x06FF_FFFF {
            let offset = vram_offset(aligned);
            write_u32_le(self.vram.as_mut_slice(), offset, value);
        } else if 0x0700_0000 <= aligned && aligned <= 0x07FF_FFFF {
            let offset = mirror_offset(aligned, OAM_BASE, 0x400);
            write_u32_le(self.oam.as_mut_slice(), offset, value);
        } else {
            let ghost m0 = *self;
            self.write8(aligned, (value % 0x100) as u8);
            let ghost m1 = *self;
            self.write8(aligned.wrapping_add(1), ((value / 0x100) % 0x100) as u8);
            let ghost m2 = *self;
            self.write8(aligned.wrapping_add(2), ((value / 0x1_0000) % 0x100) as u8);
            let ghost m3 = *self;
            self.write8(aligned.wrapping_add(3), (value / 0x100_0000) as u8);
            proof {
                assert(bus_written8(m3, *self, aligned.wrapping_add(3), (value / 0x100_0000) as u8));
                assert(bus_written8(m2, m3, aligned.wrapping_add(2), ((value / 0x1_0000) % 0x100) as u8));
                assert(exists|x3: Bus|
                    #[trigger] bus_written8(m2, x3, aligned.wrapping_add(2), ((value / 0x1_0000) % 0x100) as u8)
                        && bus_written8(x3, *self, aligned.wrapping_add(3), (value / 0x100_0000) as u8));
                assert(bus_written8(m1, m2, aligned.wrapping_add(1), ((value / 0x100) % 0x100) as u8));
                assert(bus_written8(m0, m1, aligned, (value % 0x100) as u8));
            }
        }
    }

    pub fn write32_timed(&mut self, address: u32, value: u32, kind: AccessKind) -> (r: u32)
        requires
            old(self).wf(),
        ensures
            final(self).wf(),
            r == old(self).io.wait_control.spec_access_cycles(address, AccessWidth::Word, kind),
            1 <= r <= 32,
            bus_written32(*old(self), *final(self), address, value),
    {
        let cycles = self.access_cycles(address, AccessWidth::Word, kind);
        self.write32(address, value);
        cycles
    }
}

} // verus!

verus! {

/// The address after one unit moves it.
pub open spec fn dma_step(address: u32, bytes: u32, control: DmaAddressControl) -> u32 {
    match control {
        DmaAddressControl::Increment | DmaAddressControl::IncrementReload => address.wrapping_add(
            bytes,
        ),
        DmaAddressControl::Decrement => address.wrapping_sub(bytes),
        DmaAddressControl::Fixed => address,
    }
}

/// The address of unit `k` of a transfer starting at `start`.
pub open spec fn dma_address(start: u32, width: DmaTransferWidth, control: DmaAddressControl, k: nat) -> u32
    decreases k,
{
    if k == 0 {
        start
    } else {
        dma_step(dma_address(start, width, control, (k - 1) as nat), width.spec_bytes(), control)
    }
}

/// A transfer address aligned to the unit size.
pub open spec fn dma_aligned(address: u32, width: DmaTransferWidth) -> u32 {
    if width is Word {
        address & !3u32
    } else {
        address & !1u32
    }
}

pub open spec fn unit_source(request: DmaTransferRequest, k: nat) -> u32 {
    dma_address(dma_aligned(request.source, request.width), request.width, request.source_control, k)
}

pub open spec fn unit_destination(request: DmaTransferRequest, k: nat) -> u32 {
    dma_address(
        dma_aligned(request.destination, request.width),
        request.width,
        request.destination_control,
        k,
    )
}

/// Unit `k` of `request` read its source from `before` and wrote it to
/// its destination, giving `after`.
pub open spec fn unit_moved(before: Bus, after: Bus, request: DmaTransferRequest, k: nat) -> bool {
    let source = unit_source(request, k);
    let destination = unit_destination(request, k);
    after.wf() && if request.width is Word {
        bus_written32(before, after, destination, before.spec_read32(source))
    } else {
        bus_written16(before, after, destination, before.spec_read16(source))
    }
}

/// The cycles unit `k` costs in `bus`: its read and its write, the first
/// unit non-sequential and the rest sequential.
pub open spec fn unit_cycles(bus: Bus, request: DmaTransferRequest, k: nat) -> (u32, u32) {
    let kind = if k == 0 {
        AccessKind::NonSequential
    } else {
        AccessKind::Sequential
    };
    let width = if request.width is Word {
        AccessWidth::Word
    } else {
        AccessWidth::Halfword
    };
    (
        bus.io.wait_control.spec_access_cycles(unit_source(request, k), width, kind),
        bus.io.wait_control.spec_access_cycles(unit_destination(request, k), width, kind),
    )
}

/// Unit `k` took `middle` to `end`, bringing the cost from `spent` to
/// `cycles`.
pub open spec fn unit_step(middle: Bus, end: Bus, request: DmaTransferRequest, k: nat, spent: u32, cycles: u32) -> bool {
    unit_moved(middle, end, request, k) && cycles == spent.saturating_add(
        unit_cycles(middle, request, k).0,
    ).saturating_add(unit_cycles(middle, request, k).1)
}

/// `end` is `start` after the first `n` units of `request`, costing
/// `cycles` (saturating).
pub open spec fn dma_units(start: Bus, end: Bus, request: DmaTransferRequest, n: nat, cycles: u32) -> bool
    decreases n,
{
    if n == 0 {
        end == start && cycles == 0
    } else {
        exists|middle: Bus, spent: u32|
            #[trigger] unit_step(middle, end, request, (n - 1) as nat, spent, cycles) && dma_units(
                start,
                middle,
                request,
                (n - 1) as nat,
                spent,
            )
    }
}

/// One activation of the highest-priority pending channel: the request
/// is taken, its units are moved in order, the channel completes (a
/// repeating event channel re-arms) and, with IRQ enabled, its interrupt
/// is requested.
pub open spec fn dma_ran(before: Bus, after: Bus, result: DmaRunResult) -> bool {
    exists|request: DmaTransferRequest, taken: Bus, moved: Bus, cycles: u32|
        #[trigger] dma_units(taken, moved, request, request.count as nat, cycles) && {
            let n = before.io.dma.lowest_pending();
            let channel = before.io.dma.channels@[n];
            let completion = DmaTransferCompletion {
                channel: request.channel,
                final_source: unit_source(request, request.count as nat),
                final_destination: unit_destination(request, request.count as nat),
                transferred_units: request.count,
            };
            &&& dma_number(request.channel) == n
            &&& request == channel_request(request.channel, channel)
            &&& taken == Bus { io: IoRegisters { dma: taken.io.dma, ..before.io }, ..before }
            &&& taken.wf()
            &&& taken.io.dma.channels@ == before.io.dma.channels@.update(
                n,
                DmaChannel { pending_count: (channel.pending_count - 1) as u32, ..channel },
            )
            &&& after == Bus {
                io: IoRegisters {
                    dma: after.io.dma,
                    interrupts: if request.irq_enabled {
                        moved.io.interrupts.spec_request_mask(source_mask(dma_interrupt(request.channel)))
                    } else {
                        moved.io.interrupts
                    },
                    ..moved.io
                },
                ..moved
            }
            &&& after.io.dma.channels@ == moved.io.dma.channels@.update(
                n,
                channel_after_completion(request.channel, moved.io.dma.channels@[n], completion),
            )
            &&& result == DmaRunResult {
                channel: request.channel,
                transferred_units: request.count,
                cycles: if cycles < 1 {
                    1
                } else {
                    cycles
                },
            }
        }
}

proof fn lemma_dma_units_extend(
    start: Bus,
    middle: Bus,
    end: Bus,
    request: DmaTransferRequest,
    k: nat,
    spent: u32,
    cycles: u32,
)
    requires
        dma_units(start, middle, request, k, spent),
        unit_moved(middle, end, request, k),
        cycles == spent.saturating_add(unit_cycles(middle, request, k).0).saturating_add(
            unit_cycles(middle, request, k).1,
        ),
    ensures
        dma_units(start, end, request, k + 1, cycles),
{
    let n: nat = k + 1;
    assert((n - 1) as nat == k);
    assert(unit_step(middle, end, request, (n - 1) as nat, spent, cycles));
    assert(dma_units(start, end, request, n, cycles));
}

fn align_dma_address(address: u32, width: DmaTransferWidth) -> (r: u32)
    ensures
        r == dma_aligned(address, width),
{
    match width {
        DmaTransferWidth::Halfword => address & !1u32,
        DmaTransferWidth::Word => address & !3u32,
    }
}

fn advance_dma_address(address: u32, width: u32, control: DmaAddressControl) -> (r: u32)
    ensures
        r == dma_step(address, width, control),
{
    match control {
        DmaAddressControl::Increment | DmaAddressControl::IncrementReload => address.wrapping_add(
            width,
        ),
        DmaAddressControl::Decrement => address.wrapping_sub(width),
        DmaAddressControl::Fixed => address,
    }
}

/// The bus after `cycles` cycles of its devices: the I/O registers run
/// for that long, memory is kept, and the video model takes in what the
/// scan completed.
pub open spec fn bus_ticked(before: Bus, after: Bus, cycles: u32) -> bool {
    exists|io: IoRegisters, result: IoTickResult|
        #[trigger] io_ticked(before.io, io, cycles, result) && io.wf() && after == (Bus {
            io: IoRegisters { video: after.io.video, ..io },
            ..before
        }) && after.io.video.model() == frame_update(
            io.video.model(),
            result.ppu.events(),
            before.vram@,
            before.palette@,
        )
}

impl Bus {
    /// Runs the I/O devices for `cycles` cycles, then draws what the scan
    /// completed: a new frame reloads the affine reference points, each
    /// completed visible line is drawn, and VBlank marks the frame ready.
    pub fn tick(&mut self, cycles: u32)
        requires
            old(self).wf(),
        ensures
            final(self).wf(),
            bus_ticked(*old(self), *final(self), cycles),
    {
        let result = self.io.tick(cycles);
        let ghost io_after = self.io;
        if result.ppu.new_frames != 0 {
            self.io.video.begin_frame();
        }
        let ghost begun = self.io.video.model();
        proof {
            assert(begun == (if result.ppu.events().new_frames != 0 {
                VideoModel { bg2: reloaded(io_after.video.bg2), bg3: reloaded(io_after.video.bg3), ..io_after.video.model() }
            } else {
                io_after.video.model()
            }));
        }
        let lines = &result.ppu.completed_visible_lines;
        let mut i: usize = 0;
        while i < lines.len()
            invariant
                i <= lines@.len(),
                self.io.video.wf(),
                io_after.wf(),
                *self == (Bus { io: self.io, ..*old(self) }),
                self.io == (IoRegisters { video: self.io.video, ..io_after }),
                self.vram == old(self).vram,
                self.palette == old(self).palette,
                self.io.video.model() == render_lines(
                    begun,
                    lines@.subrange(0, i as int),
                    self.vram@,
                    self.palette@,
                ),
            decreases lines@.len() - i,
        {
            let line = lines[i];
            self.io.video.render_scanline(line, self.vram.as_slice(), self.palette.as_slice());
            i = i + 1;
            proof {
                assert(lines@.subrange(0, i as int).drop_last() =~= lines@.subrange(
                    0,
                    i - 1,
                ));
            }
        }
        proof {
            assert(lines@.subrange(0, i as int) =~= lines@);
        }
        let ghost drawn = self.io.video.model();
        if result.ppu.vblank_starts != 0 {
            self.io.video.mark_frame_ready();
        }
        proof {
            assert(drawn == render_lines(begun, result.ppu.events().completed_visible_lines, old(self).vram@, old(self).palette@));
            assert(self.io.video.model() == frame_update(
                io_after.video.model(),
                result.ppu.events(),
                old(self).vram@,
                old(self).palette@,
            ));
            assert(io_ticked(old(self).io, io_after, cycles, result));
        }
    }

    /// Runs one activation of the highest-priority pending DMA channel,
    /// if any.
    #[verifier::spinoff_prover]
    pub fn run_pending_dma(&mut self) -> (r: Option<DmaRunResult>)
        requires
            old(self).wf(),
        ensures
            final(self).wf(),
            !old(self).io.dma.has_pending() ==> r is None && *final(self) == *old(self),
            old(self).io.dma.has_pending() ==> (r matches Some(result) && dma_ran(*old(self), *final(self), result)),
            r matches Some(result) ==> result.cycles >= 1,
    {
        let request = match self.io.dma.next_pending_request() {
            Some(request) => request,
            None => {
                return None;
            },
        };
        let ghost taken = *self;
        let width_bytes = request.width.bytes();
        let mut source = align_dma_address(request.source, request.width);
        let mut destination = align_dma_address(request.destination, request.width);
        let mut cycles: u32 = 0;
        let mut index: u32 = 0;
        proof {
            assert(dma_units(taken, *self, request, 0, 0));
        }
        while index < request.count
            invariant
                self.wf(),
                index <= request.count,
                width_bytes == request.width.spec_bytes(),
                source == unit_source(request, index as nat),
                destination == unit_destination(request, index as nat),
                dma_units(taken, *self, request, index as nat, cycles),
            decreases request.count - index,
        {
            let ghost before = *self;
            let ghost spent = cycles;
            let kind = if index == 0 {
                AccessKind::NonSequential
            } else {
                AccessKind::Sequential
            };
            match request.width {
                DmaTransferWidth::Halfword => {
                    let read = self.read16_timed(source, kind);
                    let write_cycles = self.write16_timed(destination, read.value, kind);
                    cycles = cycles.saturating_add(read.cycles).saturating_add(write_cycles);
                },
                DmaTransferWidth::Word => {
                    let read = self.read32_timed(source, kind);
                    let write_cycles = self.write32_timed(destination, read.value, kind);
                    cycles = cycles.saturating_add(read.cycles).saturating_add(write_cycles);
                },
            }
            source = advance_dma_address(source, width_bytes, request.source_control);
            destination = advance_dma_address(destination, width_bytes, request.destination_control);
            proof {
                assert(unit_moved(before, *self, request, index as nat));
                lemma_dma_units_extend(taken, before, *self, request, index as nat, spent, cycles);
            }
            index = index + 1;
        }
        let ghost moved = *self;
        self.io.dma.complete_transfer(
            DmaTransferCompletion {
                channel: request.channel,
                final_source: source,
                final_destination: destination,
                transferred_units: request.count,
            },
        );
        if request.irq_enabled {
            self.io.request_interrupt(request.channel.interrupt_source());
        }
        let result = DmaRunResult {
            channel: request.channel,
            transferred_units: request.count,
            cycles: if cycles < 1 {
                1
            } else {
                cycles
            },
        };
        proof {
            assert(dma_units(taken, moved, request, request.count as nat, cycles));
        }
        Some(result)
    }
}

} // verus!

verus! {

/// BIOS and Game Pak ROM are read-only: no byte, halfword or word write
/// changes either image.
pub proof fn law_bios_and_rom_are_read_only(before: Bus, after: Bus, address: u32, value: u32)
    ensures
        bus_written8(before, after, address, value as u8) ==> after.bios == before.bios && after.rom
            == before.rom,
        bus_written16(before, after, address, value as u16) ==> after.bios == before.bios
            && after.rom == before.rom,
        bus_written32(before, after, address, value) ==> after.bios == before.bios && after.rom
            == before.rom,
{
}

/// A word written to work RAM reads back at every mirror of its address:
/// any address of the same block's 16 MiB window that agrees with the
/// written word's address modulo the block's size (256 KiB for EWRAM,
/// 32 KiB for IWRAM).
pub proof fn law_work_ram_write_reads_through_mirrors(
    before: Bus,
    after: Bus,
    address: u32,
    value: u32,
    mirror: u32,
)
    requires
        before.wf(),
        bus_written32(before, after, address, value),
        (0x0200_0000 <= address <= 0x02FF_FFFF && 0x0200_0000 <= mirror <= 0x02FF_FFFF && mirror
            % 0x4_0000 == (address & !3u32) % 0x4_0000) || (0x0300_0000 <= address <= 0x03FF_FFFF
            && 0x0300_0000 <= mirror <= 0x03FF_FFFF && mirror % 0x8000 == (address & !3u32) % 0x8000),
    ensures
        after.spec_read32(mirror) == value,
{
    law_work_ram_write_then_read(before, after, address, value);
    let aligned = address & !3u32;
    assert(aligned as int % 4 == 0 && aligned <= address && address - aligned < 4) by (bit_vector)
        requires
            aligned == address & !3u32,
    ;
    let (base, size): (int, int) = if address <= 0x02FF_FFFF {
        (0x0200_0000, 0x4_0000)
    } else {
        (0x0300_0000, 0x8000)
    };
    assert(aligned >= base) by {
        assert(address - aligned < 4);
    }
    let blocks: int = base / size;
    assert(base == size * blocks);
    assert((mirror - base) % size == (aligned - base) % size) by {
        vstd::arithmetic::div_mod::lemma_mod_multiples_vanish(blocks, mirror - base, size);
        vstd::arithmetic::div_mod::lemma_mod_multiples_vanish(blocks, aligned - base, size);
    }
    lemma_aligned_offset(aligned, base, size, 4);
    let o = (aligned - base) % size;
    let d = mirror - base;
    assert(mirror as int % 4 == 0) by {
        vstd::arithmetic::div_mod::lemma_fundamental_div_mod(d, size);
        assert(d == size * (d / size) + o);
        assert(size % 4 == 0);
        vstd::arithmetic::div_mod::lemma_mod_multiples_vanish(d / size * (size / 4), o + base, 4);
        assert(size * (d / size) == 4 * (d / size * (size / 4))) by (nonlinear_arith)
            requires
                size % 4 == 0,
                size > 0,
        ;
        assert((o + base) % 4 == 0) by {
            vstd::arithmetic::div_mod::lemma_add_mod_noop(o, base, 4);
        }
    }
    assert(mirror & !3u32 == mirror) by (bit_vector)
        requires
            mirror % 4 == 0,
    ;
}

/// Work RAM is mirrored: EWRAM every 256 KiB across its 16 MiB window and
/// IWRAM every 32 KiB across its window.
pub proof fn law_work_ram_mirrors(bus: Bus, address: u32)
    ensures
        0x0200_0000 <= address && address + 0x4_0000 <= 0x02FF_FFFF ==> bus.spec_read8(address)
            == bus.spec_read8((address + 0x4_0000) as u32),
        0x0300_0000 <= address && address + 0x8000 <= 0x03FF_FFFF ==> bus.spec_read8(address)
            == bus.spec_read8((address + 0x8000) as u32),
{
    let a = address as int;
    vstd::arithmetic::div_mod::lemma_mod_add_multiples_vanish(a - 0x0200_0000, 0x4_0000);
    vstd::arithmetic::div_mod::lemma_mod_add_multiples_vanish(a - 0x0300_0000, 0x8000);
}

} // verus!

verus! {

proof fn lemma_aligned_offset(aligned: u32, base: int, size: int, width: int)
    requires
        width == 2 || width == 4,
        aligned as int % width == 0,
        base % width == 0,
        size % width == 0,
        size > 0,
        aligned >= base,
    ensures
        0 <= (aligned - base) % size,
        (aligned - base) % size + width <= size,
        ((aligned - base) % size) % width == 0,
{
    let d = aligned - base;
    let o = d % size;
    vstd::arithmetic::div_mod::lemma_fundamental_div_mod(d, size);
    vstd::arithmetic::div_mod::lemma_mod_bound(d, size);
    vstd::arithmetic::div_mod::lemma_mod_mod(d, width, size / width);
    assert(size == width * (size / width)) by {
        vstd::arithmetic::div_mod::lemma_fundamental_div_mod(size, width);
    }
    vstd::arithmetic::div_mod::lemma_mod_breakdown(d, width, size / width);
    vstd::arithmetic::div_mod::lemma_fundamental_div_mod(d, width);
    assert(d % width == 0) by {
        vstd::arithmetic::div_mod::lemma_sub_mod_noop(aligned as int, base, width);
        vstd::arithmetic::div_mod::lemma_small_mod(0, width as nat);
    }
    assert(o % width == 0) by {
        vstd::arithmetic::div_mod::lemma_mod_mod(d, size / width, width);
        vstd::arithmetic::mul::lemma_mul_is_commutative(width, size / width);
        vstd::arithmetic::div_mod::lemma_mod_mod(d, width, size / width);
    }
    assert(o + width <= size) by (nonlinear_arith)
        requires
            o % width == 0,
            size % width == 0,
            0 <= o < size,
            width == 2 || width == 4,
    ;
}

/// A word written to palette RAM, VRAM or OAM reads back as written, at
/// any address of their mirrored windows.
pub proof fn law_video_memory_write_then_read(before: Bus, after: Bus, address: u32, value: u32)
    requires
        before.wf(),
        bus_written32(before, after, address, value),
        0x0500_0000 <= address <= 0x07FF_FFFF,
    ensures
        after.spec_read32(address) == value,
{
    let aligned = address & !3u32;
    assert(aligned as int % 4 == 0 && aligned <= address && address - aligned < 4) by (bit_vector)
        requires
            aligned == address & !3u32,
    ;
    if aligned <= 0x05FF_FFFF {
        lemma_aligned_offset(aligned, 0x0500_0000, 0x400, 4);
        memory::law_write_then_read(before.palette@, (aligned - 0x0500_0000) % 0x400, value, 0);
    } else if aligned <= 0x06FF_FFFF {
        lemma_aligned_offset(aligned, 0x0600_0000, 0x2_0000, 4);
        memory::law_write_then_read(before.vram@, vram_index(aligned), value, 0);
    } else {
        lemma_aligned_offset(aligned, 0x0700_0000, 0x400, 4);
        memory::law_write_then_read(before.oam@, (aligned - 0x0700_0000) % 0x400, value, 0);
    }
}

/// A word written to work RAM reads back as written, at any address of
/// the mirrored windows.
pub proof fn law_work_ram_write_then_read(before: Bus, after: Bus, address: u32, value: u32)
    requires
        before.wf(),
        bus_written32(before, after, address, value),
        0x0200_0000 <= address <= 0x03FF_FFFF,
    ensures
        after.spec_read32(address) == value,
{
    let aligned = address & !3u32;
    assert(aligned as int % 4 == 0 && aligned <= address && address - aligned < 4) by (bit_vector)
        requires
            aligned == address & !3u32,
    ;
    if aligned <= 0x02FF_FFFF {
        lemma_aligned_offset(aligned, 0x0200_0000, 0x4_0000, 4);
        memory::law_write_then_read(before.ewram@, (aligned - 0x0200_0000) % 0x4_0000, value, 0);
    } else {
        lemma_aligned_offset(aligned, 0x0300_0000, 0x8000, 4);
        memory::law_write_then_read(before.iwram@, (aligned - 0x0300_0000) % 0x8000, value, 0);
    }
}

} // verus!

verus! {

proof fn lemma_byte_write_keeps_io(before: Bus, after: Bus, address: u32, value: u8)
    requires
        bus_written8(before, after, address, value),
        !is_io(address),
    ensures
        after.io == before.io,
{
}

/// A word write outside the I/O block keeps every I/O register, and so the
/// wait-state configuration.
pub proof fn lemma_word_write_keeps_io(before: Bus, after: Bus, address: u32, value: u32)
    requires
        bus_written32(before, after, address, value),
        !is_io(address & !3u32),
    ensures
        after.io == before.io,
{
    let aligned = address & !3u32;
    assert(aligned % 4 == 0) by (bit_vector)
        requires
            aligned == address & !3u32,
    ;
    if !(aligned <= 0x3FFF) && !in_range(aligned, 0x0200_0000, 0x02FF_FFFF) && !in_range(
        aligned,
        0x0300_0000,
        0x03FF_FFFF,
    ) && !in_range(aligned, 0x0500_0000, 0x05FF_FFFF) && !in_range(aligned, 0x0600_0000, 0x06FF_FFFF)
        && !in_range(aligned, 0x0700_0000, 0x07FF_FFFF) {
        let m1 = choose|m1: Bus|
            #[trigger] bus_written8(before, m1, aligned, (value % 0x100) as u8) && exists|m2: Bus|
                #[trigger] bus_written8(m1, m2, aligned.wrapping_add(1), ((value / 0x100) % 0x100) as u8)
                    && exists|m3: Bus|
                    #[trigger] bus_written8(
                        m2,
                        m3,
                        aligned.wrapping_add(2),
                        ((value / 0x1_0000) % 0x100) as u8,
                    ) && bus_written8(m3, after, aligned.wrapping_add(3), (value / 0x100_0000) as u8);
        let m2 = choose|m2: Bus|
            #[trigger] bus_written8(m1, m2, aligned.wrapping_add(1), ((value / 0x100) % 0x100) as u8)
                && exists|m3: Bus|
                #[trigger] bus_written8(
                    m2,
                    m3,
                    aligned.wrapping_add(2),
                    ((value / 0x1_0000) % 0x100) as u8,
                ) && bus_written8(m3, after, aligned.wrapping_add(3), (value / 0x100_0000) as u8);
        let m3 = choose|m3: Bus|
            #[trigger] bus_written8(
                m2,
                m3,
                aligned.wrapping_add(2),
                ((value / 0x1_0000) % 0x100) as u8,
            ) && bus_written8(m3, after, aligned.wrapping_add(3), (value / 0x100_0000) as u8);
        lemma_byte_write_keeps_io(before, m1, aligned, (value % 0x100) as u8);
        lemma_byte_write_keeps_io(m1, m2, aligned.wrapping_add(1), ((value / 0x100) % 0x100) as u8);
        lemma_byte_write_keeps_io(m2, m3, aligned.wrapping_add(2), ((value / 0x1_0000) % 0x100) as u8);
        lemma_byte_write_keeps_io(m3, after, aligned.wrapping_add(3), (value / 0x100_0000) as u8);
    }
}

} // verus!
