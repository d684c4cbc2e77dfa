use vstd::prelude::*;

verus! {

#[derive(Debug, Clone, Copy, PartialEq, Eq, Structural)]
pub enum AccessKind {
    NonSequential,
    Sequential,
}

#[derive(Debug, Clone, Copy, PartialEq, Eq, Structural)]
pub enum AccessWidth {
    Byte,
    Halfword,
    Word,
}

impl AccessWidth {
    pub fn bytes(self) -> (r: u32)
        ensures
            r == match self {
                AccessWidth::Byte => 1u32,
                AccessWidth::Halfword => 2,
                AccessWidth::Word => 4,
            },
    {
        match self {
            AccessWidth::Byte => 1,
            AccessWidth::Halfword => 2,
            AccessWidth::Word => 4,
        }
    }
}

#[derive(Debug, Clone, Copy, PartialEq, Eq, Structural)]
pub enum MemoryRegion {
    Bios,
    Ewram,
    Iwram,
    Io,
    Palette,
    Vram,
    Oam,
    GamePakWaitState0,
    GamePakWaitState1,
    GamePakWaitState2,
    GamePakSram,
    Unmapped,
}

/// The region of the GBA memory map an address falls in.
pub open spec fn region_of(address: u32) -> MemoryRegion {
    if address <= 0x0000_3FFF {
        MemoryRegion::Bios
    } else if 0x0200_0000 <= address <= 0x02FF_FFFF {
        MemoryRegion::Ewram
    } else if 0x0300_0000 <= address <= 0x03FF_FFFF {
        MemoryRegion::Iwram
    } else if 0x0400_0000 <= address <= 0x04FF_FFFF {
        MemoryRegion::Io
    } else if 0x0500_0000 <= address <= 0x05FF_FFFF {
        MemoryRegion::Palette
    } else if 0x0600_0000 <= address <= 0x06FF_FFFF {
        MemoryRegion::Vram
    } else if 0x0700_0000 <= address <= 0x07FF_FFFF {
        MemoryRegion::Oam
    } else if 0x0800_0000 <= address <= 0x09FF_FFFF {
        MemoryRegion::GamePakWaitState0
    } else if 0x0A00_0000 <= address <= 0x0BFF_FFFF {
        MemoryRegion::GamePakWaitState1
    } else if 0x0C00_0000 <= address <= 0x0DFF_FFFF {
        MemoryRegion::GamePakWaitState2
    } else if 0x0E00_0000 <= address <= 0x0FFF_FFFF {
        MemoryRegion::GamePakSram
    } else {
        MemoryRegion::Unmapped
    }
}

impl MemoryRegion {
    pub fn decode(address: u32) -> (r: Self)
        ensures
            r == region_of(address),
    {
        if address <= 0x0000_3FFF {
            MemoryRegion::Bios
        } else if 0x0200_0000 <= address && address <= 0x02FF_FFFF {
            MemoryRegion::Ewram
        } else if 0x0300_0000 <= address && address <= 0x03FF_FFFF {
            MemoryRegion::Iwram
        } else if 0x0400_0000 <= address && address <= 0x04FF_FFFF {
            MemoryRegion::Io
        } else if 0x0500_0000 <= address && address <= 0x05FF_FFFF {
            MemoryRegion::Palette
        } else if 0x0600_0000 <= address && address <= 0x06FF_FFFF {
            MemoryRegion::Vram
        } else if 0x0700_0000 <= address && address <= 0x07FF_FFFF {
            MemoryRegion::Oam
        } else if 0x0800_0000 <= address && address <= 0x09FF_FFFF {
            MemoryRegion::GamePakWaitState0
        } else if 0x0A00_0000 <= address && address <= 0x0BFF_FFFF {
            MemoryRegion::GamePakWaitState1
        } else if 0x0C00_0000 <= address && address <= 0x0DFF_FFFF {
            MemoryRegion::GamePakWaitState2
        } else if 0x0E00_0000 <= address && address <= 0x0FFF_FFFF {
            MemoryRegion::GamePakSram
        } else {
            MemoryRegion::Unmapped
        }
    }

    pub fn is_game_pak_rom(self) -> (r: bool)
        ensures
            r == (self == MemoryRegion::GamePakWaitState0 || self == MemoryRegion::GamePakWaitState1
                || self == MemoryRegion::GamePakWaitState2),
    {
        matches!(
            self,
            MemoryRegion::GamePakWaitState0 | MemoryRegion::GamePakWaitState1
                | MemoryRegion::GamePakWaitState2
        )
    }
}

/// A value read from the bus together with the cycles the access took.
#[derive(Debug, Clone, Copy, PartialEq, Eq)]
pub struct TimedAccess<T> {
    pub value: T,
    pub cycles: u32,
}

impl<T> TimedAccess<T> {
    pub fn new(value: T, cycles: u32) -> (r: Self)
        ensures
            r.value == value,
            r.cycles == cycles,
    {
        TimedAccess { value, cycles }
    }

    /// Transforms the value and keeps the cycle count.
    pub fn map<U, F: FnOnce(T) -> U>(self, function: F) -> (r: TimedAccess<U>)
        requires
            function.requires((self.value,)),
        ensures
            function.ensures((self.value,), r.value),
            r.cycles == self.cycles,
    {
        let cycles = self.cycles;
        TimedAccess { value: function(self.value), cycles }
    }
}

/// The first-access wait of an encoded two-bit field: 4, 3, 2 or 8.
pub open spec fn first_access(encoded: u16) -> u32 {
    let f = encoded & 3;
    if f == 0 {
        4
    } else if f == 1 {
        3
    } else if f == 2 {
        2
    } else {
        8
    }
}

/// WAITCNT.
#[derive(Debug, Clone, Copy, PartialEq, Eq, Structural)]
pub struct WaitControl {
    pub raw: u16,
}

/// Cycles of a Game Pak ROM access over its 16-bit bus: one transfer for
/// bytes and halfwords, two for words (the second always sequential).
pub open spec fn rom_cycles(width: AccessWidth, kind: AccessKind, first: u32, second: u32) -> u32 {
    match width {
        AccessWidth::Word => match kind {
            AccessKind::NonSequential => (first + second) as u32,
            AccessKind::Sequential => (second + second) as u32,
        },
        _ => match kind {
            AccessKind::NonSequential => first,
            AccessKind::Sequential => second,
        },
    }
}

impl WaitControl {
    pub const WRITABLE_MASK: u16 = 0x5FFF;
    pub const RESET_VALUE: u16 = 0x0000;

    pub open spec fn spec_ws0_second(self) -> u32 {
        if self.raw & 0x10 != 0 {
            1
        } else {
            2
        }
    }

    pub open spec fn spec_ws1_second(self) -> u32 {
        if self.raw & 0x80 != 0 {
            1
        } else {
            4
        }
    }

    pub open spec fn spec_ws2_second(self) -> u32 {
        if self.raw & 0x400 != 0 {
            1
        } else {
            8
        }
    }

    /// The cycles one access takes by region, width and sequentiality.
    pub open spec fn spec_access_cycles(self, address: u32, width: AccessWidth, kind: AccessKind) -> u32 {
        match region_of(address) {
            MemoryRegion::Bios | MemoryRegion::Iwram | MemoryRegion::Unmapped => 1,
            MemoryRegion::Ewram => if width == AccessWidth::Word {
                6
            } else {
                3
            },
            MemoryRegion::Io | MemoryRegion::Palette | MemoryRegion::Vram | MemoryRegion::Oam => if width
                == AccessWidth::Word {
                2
            } else {
                1
            },
            MemoryRegion::GamePakWaitState0 => rom_cycles(
                width,
                kind,
                first_access(self.raw >> 2),
                self.spec_ws0_second(),
            ),
            MemoryRegion::GamePakWaitState1 => rom_cycles(
                width,
                kind,
                first_access(self.raw >> 5),
                self.spec_ws1_second(),
            ),
            MemoryRegion::GamePakWaitState2 => rom_cycles(
                width,
                kind,
                first_access(self.raw >> 8),
                self.spec_ws2_second(),
            ),
            MemoryRegion::GamePakSram => match width {
                AccessWidth::Byte => first_access(self.raw),
                AccessWidth::Halfword => (first_access(self.raw) * 2) as u32,
                AccessWidth::Word => (first_access(self.raw) * 4) as u32,
            },
        }
    }

    /// Power-on value: SRAM 4, WS0 4/2, WS1 4/4, WS2 4/8, no prefetch.
    pub fn new() -> (r: Self)
        ensures
            r.raw == 0,
    {
        WaitControl { raw: 0 }
    }

    pub fn raw(self) -> (r: u16)
        ensures
            r == self.raw,
    {
        self.raw
    }

    /// Writes WAITCNT; bits 13 and 15 read back as zero.
    pub fn write(&mut self, value: u16)
        ensures
            final(self).raw == value & 0x5FFF,
    {
        self.raw = value & 0x5FFF;
    }

    pub fn sram_cycles(self) -> (r: u32)
        ensures
            r == first_access(self.raw),
    {
        first_access_cycles(self.raw)
    }

    pub fn ws0_first_cycles(self) -> (r: u32)
        ensures
            r == first_access(self.raw >> 2),
    {
        first_access_cycles(self.raw >> 2)
    }

    pub fn ws0_second_cycles(self) -> (r: u32)
        ensures
            r == self.spec_ws0_second(),
    {
        if self.raw & 0x10 != 0 {
            1
        } else {
            2
        }
    }

    pub fn ws1_first_cycles(self) -> (r: u32)
        ensures
            r == first_access(self.raw >> 5),
    {
        first_access_cycles(self.raw >> 5)
    }

    pub fn ws1_second_cycles(self) -> (r: u32)
        ensures
            r == self.spec_ws1_second(),
    {
        if self.raw & 0x80 != 0 {
            1
        } else {
            4
        }
    }

    pub fn ws2_first_cycles(self) -> (r: u32)
        ensures
            r == first_access(self.raw >> 8),
    {
        first_access_cycles(self.raw >> 8)
    }

    pub fn ws2_second_cycles(self) -> (r: u32)
        ensures
            r == self.spec_ws2_second(),
    {
        if self.raw & 0x400 != 0 {
            1
        } else {
            8
        }
    }

    pub fn phi_control(self) -> (r: u16)
        ensures
            r == (self.raw >> 11) & 3,
    {
        (self.raw >> 11) & 0b11
    }

    pub fn prefetch_enabled(self) -> (r: bool)
        ensures
            r == (self.raw & 0x4000 != 0),
    {
        self.raw & 0x4000 != 0
    }

    /// The cycles one access takes.
    pub fn access_cycles(self, address: u32, width: AccessWidth, kind: AccessKind) -> (r: u32)
        ensures
            r == self.spec_access_cycles(address, width, kind),
            1 <= r <= 32,
    {
        match MemoryRegion::decode(address) {
            MemoryRegion::Bios | MemoryRegion::Iwram | MemoryRegion::Unmapped => 1,
            MemoryRegion::Ewram => match width {
                AccessWidth::Word => 6,
                _ => 3,
            },
            MemoryRegion::Io | MemoryRegion::Palette | MemoryRegion::Vram | MemoryRegion::Oam =>
            match width {
                AccessWidth::Word => 2,
                _ => 1,
            },
            MemoryRegion::GamePakWaitState0 => game_pak_rom_cycles(
                width,
                kind,
                self.ws0_first_cycles(),
                self.ws0_second_cycles(),
            ),
            MemoryRegion::GamePakWaitState1 => game_pak_rom_cycles(
                width,
                kind,
                self.ws1_first_cycles(),
                self.ws1_second_cycles(),
            ),
            MemoryRegion::GamePakWaitState2 => game_pak_rom_cycles(
                width,
                kind,
                self.ws2_first_cycles(),
                self.ws2_second_cycles(),
            ),
            MemoryRegion::GamePakSram => match width {
                AccessWidth::Byte => self.sram_cycles(),
                AccessWidth::Halfword => self.sram_cycles() * 2,
                AccessWidth::Word => self.sram_cycles() * 4,
            },
        }
    }

    pub fn reset(&mut self)
        ensures
            final(self).raw == 0,
    {
        *self = WaitControl::new();
    }
}

fn game_pak_rom_cycles(width: AccessWidth, kind: AccessKind, first: u32, second: u32) -> (r: u32)
    requires
        1 <= first <= 8,
        1 <= second <= 8,
    ensures
        r == rom_cycles(width, kind, first, second),
        1 <= r <= 16,
{
    match width {
        AccessWidth::Word => match kind {
            AccessKind::NonSequential => first + second,
            AccessKind::Sequential => second + second,
        },
        _ => match kind {
            AccessKind::NonSequential => first,
            AccessKind::Sequential => second,
        },
    }
}

fn first_access_cycles(encoded: u16) -> (r: u32)
    ensures
        r == first_access(encoded),
        2 <= r <= 8,
{
    let f: u16 = encoded & 0b11;
    if f == 0 {
        4
    } else if f == 1 {
        3
    } else if f == 2 {
        2
    } else {
        8
    }
}

} // verus!
