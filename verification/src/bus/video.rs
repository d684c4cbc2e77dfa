use vstd::prelude::*;

use super::memory::{read_u16_le, spec_read_u16_le, byte_or_zero};

verus! {

pub const SCREEN_WIDTH: usize = 240;
pub const SCREEN_HEIGHT: usize = 160;
pub const FRAMEBUFFER_PIXEL_COUNT: usize = 38400;

#[derive(Debug, Clone, Copy, PartialEq, Eq, Structural)]
pub enum VideoMode {
    Mode0,
    Mode1,
    Mode2,
    Mode3,
    Mode4,
    Mode5,
    Invalid6,
    Invalid7,
}

pub open spec fn video_mode_from_bits(bits: u16) -> VideoMode {
    let m = bits & 7;
    if m == 0 {
        VideoMode::Mode0
    } else if m == 1 {
        VideoMode::Mode1
    } else if m == 2 {
        VideoMode::Mode2
    } else if m == 3 {
        VideoMode::Mode3
    } else if m == 4 {
        VideoMode::Mode4
    } else if m == 5 {
        VideoMode::Mode5
    } else if m == 6 {
        VideoMode::Invalid6
    } else {
        VideoMode::Invalid7
    }
}

impl VideoMode {
    pub fn from_bits(bits: u16) -> (r: Self)
        ensures
            r == video_mode_from_bits(bits),
    {
        let m: u16 = bits & 7;
        if m == 0 {
            VideoMode::Mode0
        } else if m == 1 {
            VideoMode::Mode1
        } else if m == 2 {
            VideoMode::Mode2
        } else if m == 3 {
            VideoMode::Mode3
        } else if m == 4 {
            VideoMode::Mode4
        } else if m == 5 {
            VideoMode::Mode5
        } else if m == 6 {
            VideoMode::Invalid6
        } else {
            VideoMode::Invalid7
        }
    }
}

/// DISPCNT. Bit 3 (CGB mode) is not writable.
#[derive(Debug, Clone, Copy, PartialEq, Eq, Structural)]
pub struct DisplayControl {
    pub raw: u16,
}

impl DisplayControl {
    pub const MODE_MASK: u16 = 0b111;
    pub const CGB_MODE_MASK: u16 = 0x0008;
    pub const PAGE_SELECT_MASK: u16 = 0x0010;
    pub const HBLANK_INTERVAL_FREE_MASK: u16 = 0x0020;
    pub const OBJ_MAPPING_1D_MASK: u16 = 0x0040;
    pub const FORCED_BLANK_MASK: u16 = 0x0080;
    pub const BG0_ENABLE_MASK: u16 = 0x0100;
    pub const BG1_ENABLE_MASK: u16 = 0x0200;
    pub const BG2_ENABLE_MASK: u16 = 0x0400;
    pub const BG3_ENABLE_MASK: u16 = 0x0800;
    pub const OBJ_ENABLE_MASK: u16 = 0x1000;
    pub const WINDOW0_ENABLE_MASK: u16 = 0x2000;
    pub const WINDOW1_ENABLE_MASK: u16 = 0x4000;
    pub const OBJ_WINDOW_ENABLE_MASK: u16 = 0x8000;
    pub const WRITABLE_MASK: u16 = 0xFFF7;
    pub const RESET_VALUE: u16 = 0;

    pub open spec fn spec_mode(self) -> VideoMode {
        video_mode_from_bits(self.raw)
    }

    pub open spec fn spec_forced_blank(self) -> bool {
        self.raw & 0x0080 != 0
    }

    pub open spec fn spec_bg2_enabled(self) -> bool {
        self.raw & 0x0400 != 0
    }

    pub open spec fn spec_bg3_enabled(self) -> bool {
        self.raw & 0x0800 != 0
    }

    pub fn new() -> (r: Self)
        ensures
            r.raw == 0,
    {
        DisplayControl { raw: 0 }
    }

    pub fn raw(self) -> (r: u16)
        ensures
            r == self.raw,
    {
        self.raw
    }

    pub fn write(&mut self, value: u16)
        ensures
            final(self).raw == value & 0xFFF7,
    {
        self.raw = value & 0xFFF7;
    }

    pub fn mode(self) -> (r: VideoMode)
        ensures
            r == self.spec_mode(),
    {
        VideoMode::from_bits(self.raw)
    }

    pub fn page_selected(self) -> (r: bool)
        ensures
            r == (self.raw & 0x0010 != 0),
    {
        self.raw & 0x0010 != 0
    }

    pub fn forced_blank(self) -> (r: bool)
        ensures
            r == self.spec_forced_blank(),
    {
        self.raw & 0x0080 != 0
    }

    pub fn bg2_enabled(self) -> (r: bool)
        ensures
            r == self.spec_bg2_enabled(),
    {
        self.raw & 0x0400 != 0
    }

    pub fn bg3_enabled(self) -> (r: bool)
        ensures
            r == self.spec_bg3_enabled(),
    {
        self.raw & 0x0800 != 0
    }

    pub fn reset(&mut self)
        ensures
            final(self).raw == 0,
    {
        *self = DisplayControl::new();
    }
}

/// BG2CNT/BG3CNT: priority (bits 0-1), character base block (2-3), screen
/// base block (8-12), wraparound (13), size (14-15).
#[derive(Debug, Clone, Copy, PartialEq, Eq, Structural)]
pub struct AffineBackgroundControl {
    pub raw: u16,
}

/// The side of a square affine map of size code `size`: 128 << size.
pub open spec fn affine_dimension(size: u8) -> i32 {
    if size == 0 {
        128
    } else if size == 1 {
        256
    } else if size == 2 {
        512
    } else {
        1024
    }
}

impl AffineBackgroundControl {
    pub const WRITABLE_MASK: u16 = 0xFFFF;

    pub open spec fn spec_priority(self) -> u8 {
        (self.raw & 3) as u8
    }

    pub open spec fn spec_character_base_block(self) -> usize {
        ((self.raw >> 2u16) & 3) as usize
    }

    pub open spec fn spec_screen_base_block(self) -> usize {
        ((self.raw >> 8u16) & 0x1F) as usize
    }

    pub open spec fn spec_wraparound(self) -> bool {
        self.raw & 0x2000 != 0
    }

    pub open spec fn spec_size(self) -> u8 {
        ((self.raw >> 14u16) & 3) as u8
    }

    pub fn new() -> (r: Self)
        ensures
            r.raw == 0,
    {
        AffineBackgroundControl { raw: 0 }
    }

    pub fn raw(self) -> (r: u16)
        ensures
            r == self.raw,
    {
        self.raw
    }

    pub fn write(&mut self, value: u16)
        ensures
            final(self).raw == value,
    {
        self.raw = value;
    }

    pub fn priority(self) -> (r: u8)
        ensures
            r == self.spec_priority(),
            r < 4,
    {
        proof {
            crate::bits::lemma_u16_fields(self.raw);
        }
        (self.raw & 3) as u8
    }

    pub fn character_base_block(self) -> (r: usize)
        ensures
            r == self.spec_character_base_block(),
            r < 4,
    {
        proof {
            crate::bits::lemma_u16_fields(self.raw);
        }
        ((self.raw >> 2u16) & 3) as usize
    }

    pub fn screen_base_block(self) -> (r: usize)
        ensures
            r == self.spec_screen_base_block(),
            r < 32,
    {
        proof {
            crate::bits::lemma_u16_fields(self.raw);
        }
        ((self.raw >> 8u16) & 0x1F) as usize
    }

    pub fn wraparound(self) -> (r: bool)
        ensures
            r == self.spec_wraparound(),
    {
        self.raw & 0x2000 != 0
    }

    pub fn size(self) -> (r: u8)
        ensures
            r == self.spec_size(),
            r < 4,
    {
        proof {
            crate::bits::lemma_u16_fields(self.raw);
        }
        ((self.raw >> 14u16) & 3) as u8
    }

    /// 128, 256, 512 or 1024 pixels.
    pub fn dimension_pixels(self) -> (r: i32)
        ensures
            r == affine_dimension(self.spec_size()),
    {
        let size = self.size();
        if size == 0 {
            128
        } else if size == 1 {
            256
        } else if size == 2 {
            512
        } else {
            1024
        }
    }
}

/// The 28-bit two's-complement value in the low bits of `value`.
pub open spec fn sign_extended_28(value: u32) -> i32 {
    let m = value & 0x0FFF_FFFF;
    if m >= 0x0800_0000 {
        (m - 0x1000_0000) as i32
    } else {
        m as i32
    }
}

fn sign_extend_28(value: u32) -> (r: i32)
    ensures
        r == sign_extended_28(value),
{
    proof {
        crate::bits::lemma_u32_fields();
    }
    let m: u32 = value & 0x0FFF_FFFF;
    if m >= 0x0800_0000 {
        (m as i32) - 0x1000_0000
    } else {
        m as i32
    }
}

/// An affine background (BG2 or BG3): control, the 8.8 matrix, the 20.8
/// reference point registers and the internal reference point, which
/// moves by (PB, PD) each scanline.
#[derive(Debug, Clone, Copy, PartialEq, Eq, Structural)]
pub struct AffineBackground {
    pub control: AffineBackgroundControl,
    pub pa: i16,
    pub pb: i16,
    pub pc: i16,
    pub pd: i16,
    pub reference_x_raw: u32,
    pub reference_y_raw: u32,
    pub current_x: i32,
    pub current_y: i32,
}

pub open spec fn idle_affine_background() -> AffineBackground {
    AffineBackground {
        control: AffineBackgroundControl { raw: 0 },
        pa: 0,
        pb: 0,
        pc: 0,
        pd: 0,
        reference_x_raw: 0,
        reference_y_raw: 0,
        current_x: 0,
        current_y: 0,
    }
}

/// The background after one scanline: the reference point moves by
/// (PB, PD), wrapping.
pub open spec fn advanced(bg: AffineBackground) -> AffineBackground {
    AffineBackground {
        current_x: bg.current_x.wrapping_add(bg.pb as i32),
        current_y: bg.current_y.wrapping_add(bg.pd as i32),
        ..bg
    }
}

/// The background with both reference points reloaded from the registers.
pub open spec fn reloaded(bg: AffineBackground) -> AffineBackground {
    AffineBackground {
        current_x: sign_extended_28(bg.reference_x_raw),
        current_y: sign_extended_28(bg.reference_y_raw),
        ..bg
    }
}

impl AffineBackground {
    pub fn new() -> (r: Self)
        ensures
            r == idle_affine_background(),
    {
        AffineBackground {
            control: AffineBackgroundControl::new(),
            pa: 0,
            pb: 0,
            pc: 0,
            pd: 0,
            reference_x_raw: 0,
            reference_y_raw: 0,
            current_x: 0,
            current_y: 0,
        }
    }

    pub fn control(self) -> (r: AffineBackgroundControl)
        ensures
            r == self.control,
    {
        self.control
    }

    pub fn read_control(self) -> (r: u16)
        ensures
            r == self.control.raw,
    {
        self.control.raw()
    }

    pub fn write_control(&mut self, value: u16)
        ensures
            *final(self) == (AffineBackground {
                control: AffineBackgroundControl { raw: value },
                ..*old(self)
            }),
    {
        self.control.write(value);
    }

    pub fn read_pa(self) -> (r: u16)
        ensures
            r == self.pa as u16,
    {
        self.pa as u16
    }

    pub fn read_pb(self) -> (r: u16)
        ensures
            r == self.pb as u16,
    {
        self.pb as u16
    }

    pub fn read_pc(self) -> (r: u16)
        ensures
            r == self.pc as u16,
    {
        self.pc as u16
    }

    pub fn read_pd(self) -> (r: u16)
        ensures
            r == self.pd as u16,
    {
        self.pd as u16
    }

    pub fn write_pa(&mut self, value: u16)
        ensures
            *final(self) == (AffineBackground { pa: value as i16, ..*old(self) }),
    {
        self.pa = value as i16;
    }

    pub fn write_pb(&mut self, value: u16)
        ensures
            *final(self) == (AffineBackground { pb: value as i16, ..*old(self) }),
    {
        self.pb = value as i16;
    }

    pub fn write_pc(&mut self, value: u16)
        ensures
            *final(self) == (AffineBackground { pc: value as i16, ..*old(self) }),
    {
        self.pc = value as i16;
    }

    pub fn write_pd(&mut self, value: u16)
        ensures
            *final(self) == (AffineBackground { pd: value as i16, ..*old(self) }),
    {
        self.pd = value as i16;
    }

    pub fn reference_x_raw(self) -> (r: u32)
        ensures
            r == self.reference_x_raw,
    {
        self.reference_x_raw
    }

    pub fn reference_y_raw(self) -> (r: u32)
        ensures
            r == self.reference_y_raw,
    {
        self.reference_y_raw
    }

    /// Writing a reference point register also reloads the internal point.
    pub fn write_reference_x_low(&mut self, value: u16)
        ensures
            final(self).reference_x_raw == (old(self).reference_x_raw & 0x0FFF_0000) | value as u32,
            final(self).current_x == sign_extended_28(final(self).reference_x_raw),
            *final(self) == (AffineBackground {
                reference_x_raw: final(self).reference_x_raw,
                current_x: final(self).current_x,
                ..*old(self)
            }),
    {
        self.reference_x_raw = (self.reference_x_raw & 0x0FFF_0000) | value as u32;
        self.reload_x();
    }

    pub fn write_reference_x_high(&mut self, value: u16)
        ensures
            final(self).reference_x_raw == (old(self).reference_x_raw & 0x0000_FFFF) | (((value
                as u32) & 0x0FFF) << 16u32),
            final(self).current_x == sign_extended_28(final(self).reference_x_raw),
            *final(self) == (AffineBackground {
                reference_x_raw: final(self).reference_x_raw,
                current_x: final(self).current_x,
                ..*old(self)
            }),
    {
        self.reference_x_raw = (self.reference_x_raw & 0x0000_FFFF) | (((value as u32) & 0x0FFF)
            << 16u32);
        self.reload_x();
    }

    pub fn write_reference_y_low(&mut self, value: u16)
        ensures
            final(self).reference_y_raw == (old(self).reference_y_raw & 0x0FFF_0000) | value as u32,
            final(self).current_y == sign_extended_28(final(self).reference_y_raw),
            *final(self) == (AffineBackground {
                reference_y_raw: final(self).reference_y_raw,
                current_y: final(self).current_y,
                ..*old(self)
            }),
    {
        self.reference_y_raw = (self.reference_y_raw & 0x0FFF_0000) | value as u32;
        self.reload_y();
    }

    pub fn write_reference_y_high(&mut self, value: u16)
        ensures
            final(self).reference_y_raw == (old(self).reference_y_raw & 0x0000_FFFF) | (((value
                as u32) & 0x0FFF) << 16u32),
            final(self).current_y == sign_extended_28(final(self).reference_y_raw),
            *final(self) == (AffineBackground {
                reference_y_raw: final(self).reference_y_raw,
                current_y: final(self).current_y,
                ..*old(self)
            }),
    {
        self.reference_y_raw = (self.reference_y_raw & 0x0000_FFFF) | (((value as u32) & 0x0FFF)
            << 16u32);
        self.reload_y();
    }

    pub fn reload_reference_points(&mut self)
        ensures
            *final(self) == reloaded(*old(self)),
    {
        self.reload_x();
        self.reload_y();
    }

    fn reload_x(&mut self)
        ensures
            *final(self) == (AffineBackground {
                current_x: sign_extended_28(old(self).reference_x_raw),
                ..*old(self)
            }),
    {
        self.current_x = sign_extend_28(self.reference_x_raw);
    }

    fn reload_y(&mut self)
        ensures
            *final(self) == (AffineBackground {
                current_y: sign_extended_28(old(self).reference_y_raw),
                ..*old(self)
            }),
    {
        self.current_y = sign_extend_28(self.reference_y_raw);
    }

    fn advance_scanline(&mut self)
        ensures
            *final(self) == advanced(*old(self)),
    {
        self.current_x = self.current_x.wrapping_add(self.pb as i32);
        self.current_y = self.current_y.wrapping_add(self.pd as i32);
    }

    pub fn reset(&mut self)
        ensures
            *final(self) == idle_affine_background(),
    {
        *self = AffineBackground::new();
    }
}

/// BGR555 to opaque RGBA8888: each 5-bit channel c becomes 8c + c/4.
pub open spec fn expand_channel(c: int) -> int {
    c * 8 + c / 4
}

pub open spec fn rgba_from_bgr555(color: u16) -> u32 {
    (0xFF00_0000 + expand_channel(color as int % 32) * 0x1_0000 + expand_channel(
        (color as int / 32) % 32,
    ) * 0x100 + expand_channel((color as int / 1024) % 32)) as u32
}

/// BGR555 to RGBA, byte by byte: the alpha byte is 0xFF, the red byte
/// (bits 16..23) comes from bits 0..4 of the colour, the green byte from
/// bits 5..9 and the blue byte from bits 10..14. Each 5-bit channel `c`
/// becomes the byte whose top five bits are `c` and whose low three bits
/// repeat the top three bits of `c`, so 0 stays 0, 31 becomes 255, and a
/// brighter channel never gives a darker byte.
pub proof fn law_bgr555_channels(color: u16, c: int, d: int)
    requires
        0 <= c <= d < 32,
    ensures
        rgba_from_bgr555(color) / 0x100_0000 == 0xFF,
        (rgba_from_bgr555(color) / 0x1_0000) % 0x100 == expand_channel(color as int % 32),
        (rgba_from_bgr555(color) / 0x100) % 0x100 == expand_channel((color as int / 32) % 32),
        rgba_from_bgr555(color) % 0x100 == expand_channel((color as int / 1024) % 32),
        expand_channel(c) / 8 == c,
        expand_channel(c) % 8 == c / 4,
        expand_channel(0) == 0,
        expand_channel(31) == 255,
        expand_channel(c) <= expand_channel(d),
{
    let red = expand_channel(color as int % 32);
    let green = expand_channel((color as int / 32) % 32);
    let blue = expand_channel((color as int / 1024) % 32);
    assert(0 <= red < 0x100 && 0 <= green < 0x100 && 0 <= blue < 0x100);
    let sum = 0xFF00_0000 + red * 0x1_0000 + green * 0x100 + blue;
    assert(0 <= sum < 0x1_0000_0000);
    assert(rgba_from_bgr555(color) == sum);
    assert(sum / 0x100_0000 == 0xFF && (sum / 0x1_0000) % 0x100 == red && (sum / 0x100) % 0x100
        == green && sum % 0x100 == blue) by (nonlinear_arith)
        requires
            0 <= red < 0x100,
            0 <= green < 0x100,
            0 <= blue < 0x100,
            sum == 0xFF00_0000 + red * 0x1_0000 + green * 0x100 + blue,
    ;
}

pub fn bgr555_to_rgba8888(color: u16) -> (r: u32)
    ensures
        r == rgba_from_bgr555(color),
{
    proof {
        crate::bits::lemma_bgr555(color);
    }
    let red5 = (color & 0x001F) as u32;
    let green5 = ((color >> 5u16) & 0x001F) as u32;
    let blue5 = ((color >> 10u16) & 0x001F) as u32;
    let red8 = (red5 << 3u32) | (red5 >> 2u32);
    let green8 = (green5 << 3u32) | (green5 >> 2u32);
    let blue8 = (blue5 << 3u32) | (blue5 >> 2u32);
    0xFF00_0000 | (red8 << 16u32) | (green8 << 8u32) | blue8
}

/// Background palette entry `index` as RGBA.
pub open spec fn palette_color(palette: Seq<u8>, index: u8) -> u32 {
    rgba_from_bgr555(spec_read_u16_le(palette, index as int * 2))
}

fn read_bg_palette_color(palette: &[u8], index: u8) -> (r: u32)
    ensures
        r == palette_color(palette@, index),
{
    let offset: usize = index as usize * 2;
    bgr555_to_rgba8888(read_u16_le(palette, offset))
}

/// The texture coordinate of screen column `x` before wrapping or clipping.
pub open spec fn texture_coordinates(bg: AffineBackground, x: int) -> (i32, i32) {
    let fx = bg.current_x.wrapping_add((bg.pa as i32).wrapping_mul(x as i32));
    let fy = bg.current_y.wrapping_add((bg.pc as i32).wrapping_mul(x as i32));
    (fx >> 8i32, fy >> 8i32)
}

/// The colour an affine background shows at screen column `x`, or `None`
/// where it is transparent (palette index 0) or clipped.
pub open spec fn sample_affine(bg: AffineBackground, x: int, vram: Seq<u8>, palette: Seq<u8>) -> Option<u32> {
    let dimension = affine_dimension(bg.control.spec_size()) as int;
    let (tx0, ty0) = texture_coordinates(bg, x);
    let wrap = bg.control.spec_wraparound();
    if !wrap && (tx0 < 0 || ty0 < 0 || tx0 >= dimension || ty0 >= dimension) {
        None
    } else {
        let tx = if wrap {
            tx0 as int % dimension
        } else {
            tx0 as int
        };
        let ty = if wrap {
            ty0 as int % dimension
        } else {
            ty0 as int
        };
        let map_offset = bg.control.spec_screen_base_block() as int * 0x800 + (ty / 8) * (dimension
            / 8) + tx / 8;
        let tile_number = byte_or_zero(vram, map_offset);
        let tile_offset = bg.control.spec_character_base_block() as int * 0x4000 + tile_number as int
            * 64 + (ty % 8) * 8 + tx % 8;
        let palette_index = byte_or_zero(vram, tile_offset);
        if palette_index == 0 {
            None
        } else {
            Some(palette_color(palette, palette_index))
        }
    }
}

fn wrap_coordinate(value: i32, dimension: i32) -> (r: i32)
    requires
        dimension > 0,
    ensures
        r as int == value as int % dimension as int,
        0 <= r < dimension,
{
    match value.checked_rem_euclid(dimension) {
        Some(r) => r,
        None => 0,
    }
}

fn sample_affine_background(background: &AffineBackground, screen_x: usize, vram: &[u8], palette: &[u8]) -> (r: Option<u32>)
    requires
        screen_x < 240,
    ensures
        r == sample_affine(*background, screen_x as int, vram@, palette@),
{
    let texture_x_fixed = background.current_x.wrapping_add(
        (background.pa as i32).wrapping_mul(screen_x as i32),
    );
    let texture_y_fixed = background.current_y.wrapping_add(
        (background.pc as i32).wrapping_mul(screen_x as i32),
    );
    let mut texture_x: i32 = texture_x_fixed >> 8i32;
    let mut texture_y: i32 = texture_y_fixed >> 8i32;
    let dimension = background.control.dimension_pixels();
    if background.control.wraparound() {
        texture_x = wrap_coordinate(texture_x, dimension);
        texture_y = wrap_coordinate(texture_y, dimension);
    } else if texture_x < 0 || texture_y < 0 || texture_x >= dimension || texture_y >= dimension {
        return None;
    }
    let tiles_per_row: usize = (dimension as usize) / 8;
    let tile_x: usize = texture_x as usize / 8;
    let tile_y: usize = texture_y as usize / 8;
    let map_base: usize = background.control.screen_base_block() * 0x800;
    proof {
        assert(tile_y * tiles_per_row <= 128 * 128) by (nonlinear_arith)
            requires
                tile_y < 128,
                tiles_per_row <= 128,
        ;
    }
    let map_offset: usize = map_base + tile_y * tiles_per_row + tile_x;
    let tile_number = read_byte(vram, map_offset) as usize;
    let character_base: usize = background.control.character_base_block() * 0x4000;
    let pixel_x: usize = texture_x as usize % 8;
    let pixel_y: usize = texture_y as usize % 8;
    let tile_offset: usize = character_base + tile_number * 64 + pixel_y * 8 + pixel_x;
    let palette_index = read_byte(vram, tile_offset);
    if palette_index == 0 {
        return None;
    }
    Some(read_bg_palette_color(palette, palette_index))
}

fn read_byte(bytes: &[u8], index: usize) -> (r: u8)
    ensures
        r == byte_or_zero(bytes@, index as int),
{
    if index < bytes.len() {
        bytes[index]
    } else {
        0
    }
}

/// Mode 2 at screen column `x`: the opaque background of smaller priority
/// number (BG2 on a tie), else the backdrop, palette entry 0.
pub open spec fn mode2_pixel(video: VideoModel, x: int, vram: Seq<u8>, palette: Seq<u8>) -> u32 {
    let bg2 = if video.display_control.spec_bg2_enabled() {
        sample_affine(video.bg2, x, vram, palette)
    } else {
        None
    };
    let bg3 = if video.display_control.spec_bg3_enabled() {
        sample_affine(video.bg3, x, vram, palette)
    } else {
        None
    };
    match (bg2, bg3) {
        (Some(a), Some(b)) => if video.bg2.control.spec_priority() <= video.bg3.control.spec_priority() {
            a
        } else {
            b
        },
        (Some(a), None) => a,
        (None, Some(b)) => b,
        (None, None) => palette_color(palette, 0),
    }
}

/// Mode 2 layering at every column: when both affine backgrounds are
/// shown and opaque, the one with the strictly smaller priority number is
/// on top, and BG2 on a tie; a single opaque background shows through;
/// with neither, the backdrop (palette entry 0) shows.
pub proof fn law_mode2_smaller_priority_on_top(video: VideoModel, x: int, vram: Seq<u8>, palette: Seq<u8>)
    ensures
        ({
            let two = video.display_control.spec_bg2_enabled();
            let three = video.display_control.spec_bg3_enabled();
            let p2 = video.bg2.control.spec_priority();
            let p3 = video.bg3.control.spec_priority();
            let pixel = mode2_pixel(video, x, vram, palette);
            let s2 = sample_affine(video.bg2, x, vram, palette);
            let s3 = sample_affine(video.bg3, x, vram, palette);
            &&& two && three && s2 is Some && s3 is Some ==> {
                &&& p2 < p3 ==> pixel == s2.unwrap()
                &&& p3 < p2 ==> pixel == s3.unwrap()
                &&& p2 == p3 ==> pixel == s2.unwrap()
            }
            &&& two && s2 is Some && (!three || s3 is None) ==> pixel == s2.unwrap()
            &&& three && s3 is Some && (!two || s2 is None) ==> pixel == s3.unwrap()
            &&& (!two || s2 is None) && (!three || s3 is None) ==> pixel == palette_color(palette, 0)
        }),
{
}

/// Mode 3 at (`line`, `x`): the 16-bit bitmap pixel.
pub open spec fn mode3_pixel(vram: Seq<u8>, line: int, x: int) -> u32 {
    rgba_from_bgr555(spec_read_u16_le(vram, line * 480 + x * 2))
}

/// What scanline `line` shows at column `x`: white under forced blank,
/// the mode 2 or mode 3 picture, and opaque black for the modes not drawn.
pub open spec fn scanline_pixel(video: VideoModel, line: int, x: int, vram: Seq<u8>, palette: Seq<u8>) -> u32 {
    if video.display_control.spec_forced_blank() {
        0xFFFF_FFFF
    } else if video.display_control.spec_mode() is Mode2 {
        mode2_pixel(video, x, vram, palette)
    } else if video.display_control.spec_mode() is Mode3 {
        mode3_pixel(vram, line, x)
    } else {
        0xFF00_0000
    }
}

/// The mathematical content of the display state.
pub struct VideoModel {
    pub display_control: DisplayControl,
    pub bg2: AffineBackground,
    pub bg3: AffineBackground,
    pub framebuffer: Seq<u32>,
    pub frame_ready: bool,
    pub frame_number: u64,
}

/// The display after scanline `line` is drawn: the line's row of the
/// frame shows `scanline_pixel`, and both affine reference points move to
/// the next line; lines past the visible 160 change nothing.
pub open spec fn render_model(video: VideoModel, line: u16, vram: Seq<u8>, palette: Seq<u8>) -> VideoModel {
    if line >= 160 {
        video
    } else {
        VideoModel {
            framebuffer: Seq::new(
                38400,
                |i: int|
                    if line * 240 <= i < line * 240 + 240 {
                        scanline_pixel(video, line as int, i - line * 240, vram, palette)
                    } else {
                        video.framebuffer[i]
                    },
            ),
            bg2: advanced(video.bg2),
            bg3: advanced(video.bg3),
            ..video
        }
    }
}

/// The display after each of `lines` is drawn in order.
pub open spec fn render_lines(video: VideoModel, lines: Seq<u16>, vram: Seq<u8>, palette: Seq<u8>) -> VideoModel
    decreases lines.len(),
{
    if lines.len() == 0 {
        video
    } else {
        render_model(render_lines(video, lines.drop_last(), vram, palette), lines.last(), vram, palette)
    }
}

/// The display: control, the two affine backgrounds, the 240x160 frame
/// and the frame counter.
#[derive(Debug, Clone)]
pub struct Video {
    pub display_control: DisplayControl,
    pub bg2: AffineBackground,
    pub bg3: AffineBackground,
    pub framebuffer: Vec<u32>,
    pub frame_ready: bool,
    pub frame_number: u64,
}

impl Video {
    pub const FORCED_BLANK_PIXEL: u32 = 0xFFFF_FFFF;
    pub const UNIMPLEMENTED_MODE_PIXEL: u32 = 0xFF00_0000;

    pub open spec fn wf(self) -> bool {
        self.framebuffer@.len() == 38400
    }

    pub open spec fn model(self) -> VideoModel {
        VideoModel {
            display_control: self.display_control,
            bg2: self.bg2,
            bg3: self.bg3,
            framebuffer: self.framebuffer@,
            frame_ready: self.frame_ready,
            frame_number: self.frame_number,
        }
    }

    pub fn new() -> (r: Self)
        ensures
            r.wf(),
            r.display_control.raw == 0,
            r.bg2 == idle_affine_background(),
            r.bg3 == idle_affine_background(),
            forall|i: int| 0 <= i < 38400 ==> #[trigger] r.framebuffer@[i] == 0xFF00_0000u32,
            !r.frame_ready,
            r.frame_number == 0,
    {
        Video {
            display_control: DisplayControl::new(),
            bg2: AffineBackground::new(),
            bg3: AffineBackground::new(),
            framebuffer: vec![0xFF00_0000u32; 38400],
            frame_ready: false,
            frame_number: 0,
        }
    }

    pub fn display_control(&self) -> (r: DisplayControl)
        ensures
            r == self.display_control,
    {
        self.display_control
    }

    pub fn read_display_control(&self) -> (r: u16)
        ensures
            r == self.display_control.raw,
    {
        self.display_control.raw()
    }

    pub fn write_display_control(&mut self, value: u16)
        ensures
            final(self).display_control.raw == value & 0xFFF7,
            final(self).bg2 == old(self).bg2,
            final(self).bg3 == old(self).bg3,
            final(self).framebuffer == old(self).framebuffer,
            final(self).frame_ready == old(self).frame_ready,
            final(self).frame_number == old(self).frame_number,
    {
        self.display_control.write(value);
    }

    pub fn write_display_control_low(&mut self, value: u8)
        ensures
            final(self).display_control.raw == ((old(self).display_control.raw & 0xFF00) | value as u16)
                & 0xFFF7,
            final(self).bg2 == old(self).bg2,
            final(self).bg3 == old(self).bg3,
            final(self).framebuffer == old(self).framebuffer,
            final(self).frame_ready == old(self).frame_ready,
            final(self).frame_number == old(self).frame_number,
    {
        let current = self.display_control.raw();
        self.display_control.write((current & 0xFF00) | value as u16);
    }

    pub fn write_display_control_high(&mut self, value: u8)
        ensures
            final(self).display_control.raw == ((old(self).display_control.raw & 0x00FF) | ((
            value as u16) << 8u16)) & 0xFFF7,
            final(self).bg2 == old(self).bg2,
            final(self).bg3 == old(self).bg3,
            final(self).framebuffer == old(self).framebuffer,
            final(self).frame_ready == old(self).frame_ready,
            final(self).frame_number == old(self).frame_number,
    {
        let current = self.display_control.raw();
        self.display_control.write((current & 0x00FF) | ((value as u16) << 8u16));
    }

    /// BG2 or BG3; only those are affine.
    pub fn affine_background(&self, index: usize) -> (r: &AffineBackground)
        requires
            index == 2 || index == 3,
        ensures
            *r == if index == 2 {
                self.bg2
            } else {
                self.bg3
            },
    {
        if index == 2 {
            &self.bg2
        } else {
            &self.bg3
        }
    }

    pub fn affine_background_mut(&mut self, index: usize) -> (r: &mut AffineBackground)
        requires
            index == 2 || index == 3,
        ensures
            *r == if index == 2 {
                old(self).bg2
            } else {
                old(self).bg3
            },
            index == 2 ==> *final(self) == (Video { bg2: *final(r), ..*old(self) }),
            index == 3 ==> *final(self) == (Video { bg3: *final(r), ..*old(self) }),
    {
        if index == 2 {
            &mut self.bg2
        } else {
            &mut self.bg3
        }
    }

    pub fn framebuffer(&self) -> (r: &[u32])
        ensures
            r@ == self.framebuffer@,
    {
        self.framebuffer.as_slice()
    }

    pub fn framebuffer_mut(&mut self) -> (r: &mut [u32])
        ensures
            r@ == old(self).framebuffer@,
            final(r)@.len() == old(self).framebuffer@.len() ==> final(self).wf() == old(self).wf(),
            final(self).framebuffer@ == final(r)@,
            final(self).display_control == old(self).display_control,
            final(self).bg2 == old(self).bg2,
            final(self).bg3 == old(self).bg3,
            final(self).frame_ready == old(self).frame_ready,
            final(self).frame_number == old(self).frame_number,
    {
        self.framebuffer.as_mut_slice()
    }

    pub fn frame_ready(&self) -> (r: bool)
        ensures
            r == self.frame_ready,
    {
        self.frame_ready
    }

    /// Reports whether a frame was ready and clears the flag.
    pub fn take_frame_ready(&mut self) -> (r: bool)
        ensures
            r == old(self).frame_ready,
            *final(self) == (Video { frame_ready: false, ..*old(self) }),
    {
        let ready = self.frame_ready;
        self.frame_ready = false;
        ready
    }

    pub fn frame_number(&self) -> (r: u64)
        ensures
            r == self.frame_number,
    {
        self.frame_number
    }

    pub fn mark_frame_ready(&mut self)
        ensures
            *final(self) == (Video {
                frame_ready: true,
                frame_number: old(self).frame_number.wrapping_add(1),
                ..*old(self)
            }),
    {
        self.frame_ready = true;
        self.frame_number = self.frame_number.wrapping_add(1);
    }

    /// Reloads both affine reference points, as at the start of a frame.
    pub fn begin_frame(&mut self)
        ensures
            *final(self) == (Video { bg2: reloaded(old(self).bg2), bg3: reloaded(old(self).bg3), ..*old(self) }),
    {
        self.bg2.reload_reference_points();
        self.bg3.reload_reference_points();
    }

    /// Draws visible scanline `line` into the frame and moves the affine
    /// reference points to the next line; other lines are ignored.
    pub fn render_scanline(&mut self, line: u16, vram: &[u8], palette: &[u8])
        requires
            old(self).wf(),
        ensures
            final(self).wf(),
            final(self).model() == render_model(old(self).model(), line, vram@, palette@),
            line >= 160 ==> *final(self) == *old(self),
            line < 160 ==> {
                &&& final(self).display_control == old(self).display_control
                &&& final(self).bg2 == advanced(old(self).bg2)
                &&& final(self).bg3 == advanced(old(self).bg3)
                &&& final(self).frame_ready == old(self).frame_ready
                &&& final(self).frame_number == old(self).frame_number
                &&& forall|i: int|
                    0 <= i < 38400 ==> #[trigger] final(self).framebuffer@[i] == if line * 240 <= i
                        < line * 240 + 240 {
                        scanline_pixel(old(self).model(), line as int, i - line * 240, vram@, palette@)
                    } else {
                        old(self).framebuffer@[i]
                    }
            },
    {
        let line = line as usize;
        if line >= SCREEN_HEIGHT {
            return;
        }
        if self.display_control.forced_blank() {
            self.fill_scanline(line, Self::FORCED_BLANK_PIXEL);
        } else {
            match self.display_control.mode() {
                VideoMode::Mode2 => self.render_mode2_scanline(line, vram, palette),
                VideoMode::Mode3 => self.render_mode3_scanline(line, vram),
                _ => self.fill_scanline(line, Self::UNIMPLEMENTED_MODE_PIXEL),
            }
        }
        self.advance_affine_scanline();
        proof {
            assert(self.framebuffer@ =~= render_model(
                old(self).model(),
                line as u16,
                vram@,
                palette@,
            ).framebuffer);
        }
    }

    fn render_mode2_scanline(&mut self, line: usize, vram: &[u8], palette: &[u8])
        requires
            old(self).wf(),
            line < 160,
        ensures
            final(self).wf(),
            *final(self) == (Video { framebuffer: final(self).framebuffer, ..*old(self) }),
            forall|i: int|
                0 <= i < 38400 ==> #[trigger] final(self).framebuffer@[i] == if line * 240 <= i < line
                    * 240 + 240 {
                    mode2_pixel(old(self).model(), i - line * 240, vram@, palette@)
                } else {
                    old(self).framebuffer@[i]
                },
    {
        let backdrop = read_bg_palette_color(palette, 0);
        let destination_start: usize = line * SCREEN_WIDTH;
        let mut x: usize = 0;
        while x < SCREEN_WIDTH
            invariant
                x <= 240,
                line < 160,
                destination_start == line * 240,
                backdrop == palette_color(palette@, 0),
                self.wf(),
                *self == (Video { framebuffer: self.framebuffer, ..*old(self) }),
                forall|i: int|
                    0 <= i < 38400 ==> #[trigger] self.framebuffer@[i] == if line * 240 <= i < line
                        * 240 + x {
                        mode2_pixel(old(self).model(), i - line * 240, vram@, palette@)
                    } else {
                        old(self).framebuffer@[i]
                    },
            decreases 240 - x,
        {
            let bg2_pixel = if self.display_control.bg2_enabled() {
                sample_affine_background(&self.bg2, x, vram, palette)
            } else {
                None
            };
            let bg3_pixel = if self.display_control.bg3_enabled() {
                sample_affine_background(&self.bg3, x, vram, palette)
            } else {
                None
            };
            let color = match (bg2_pixel, bg3_pixel) {
                (Some(bg2), Some(bg3)) => {
                    if self.bg2.control.priority() <= self.bg3.control.priority() {
                        bg2
                    } else {
                        bg3
                    }
                },
                (Some(bg2), None) => bg2,
                (None, Some(bg3)) => bg3,
                (None, None) => backdrop,
            };
            self.framebuffer.set(destination_start + x, color);
            x = x + 1;
        }
    }

    fn render_mode3_scanline(&mut self, line: usize, vram: &[u8])
        requires
            old(self).wf(),
            line < 160,
        ensures
            final(self).wf(),
            *final(self) == (Video { framebuffer: final(self).framebuffer, ..*old(self) }),
            forall|i: int|
                0 <= i < 38400 ==> #[trigger] final(self).framebuffer@[i] == if line * 240 <= i < line
                    * 240 + 240 {
                    mode3_pixel(vram@, line as int, i - line * 240)
                } else {
                    old(self).framebuffer@[i]
                },
    {
        let source_line_start: usize = line * SCREEN_WIDTH * 2;
        let destination_line_start: usize = line * SCREEN_WIDTH;
        let mut x: usize = 0;
        while x < SCREEN_WIDTH
            invariant
                x <= 240,
                line < 160,
                source_line_start == line * 480,
                destination_line_start == line * 240,
                self.wf(),
                *self == (Video { framebuffer: self.framebuffer, ..*old(self) }),
                forall|i: int|
                    0 <= i < 38400 ==> #[trigger] self.framebuffer@[i] == if line * 240 <= i < line
                        * 240 + x {
                        mode3_pixel(vram@, line as int, i - line * 240)
                    } else {
                        old(self).framebuffer@[i]
                    },
            decreases 240 - x,
        {
            let source_offset: usize = source_line_start + x * 2;
            let color = read_u16_le(vram, source_offset);
            self.framebuffer.set(destination_line_start + x, bgr555_to_rgba8888(color));
            x = x + 1;
        }
    }

    fn advance_affine_scanline(&mut self)
        ensures
            *final(self) == (Video { bg2: advanced(old(self).bg2), bg3: advanced(old(self).bg3), ..*old(self) }),
    {
        self.bg2.advance_scanline();
        self.bg3.advance_scanline();
    }

    fn fill_scanline(&mut self, line: usize, color: u32)
        requires
            old(self).wf(),
            line < 160,
        ensures
            final(self).wf(),
            *final(self) == (Video { framebuffer: final(self).framebuffer, ..*old(self) }),
            forall|i: int|
                0 <= i < 38400 ==> #[trigger] final(self).framebuffer@[i] == if line * 240 <= i < line
                    * 240 + 240 {
                    color
                } else {
                    old(self).framebuffer@[i]
                },
    {
        let start: usize = line * SCREEN_WIDTH;
        let mut x: usize = 0;
        while x < SCREEN_WIDTH
            invariant
                x <= 240,
                line < 160,
                start == line * 240,
                self.wf(),
                *self == (Video { framebuffer: self.framebuffer, ..*old(self) }),
                forall|i: int|
                    0 <= i < 38400 ==> #[trigger] self.framebuffer@[i] == if line * 240 <= i < line
                        * 240 + x {
                        color
                    } else {
                        old(self).framebuffer@[i]
                    },
            decreases 240 - x,
        {
            self.framebuffer.set(start + x, color);
            x = x + 1;
        }
    }

    pub fn clear_framebuffer(&mut self, color: u32)
        requires
            old(self).wf(),
        ensures
            final(self).wf(),
            *final(self) == (Video { framebuffer: final(self).framebuffer, ..*old(self) }),
            forall|i: int| 0 <= i < 38400 ==> #[trigger] final(self).framebuffer@[i] == color,
    {
        let mut i: usize = 0;
        while i < FRAMEBUFFER_PIXEL_COUNT
            invariant
                i <= 38400,
                self.wf(),
                *self == (Video { framebuffer: self.framebuffer, ..*old(self) }),
                forall|k: int| 0 <= k < i ==> #[trigger] self.framebuffer@[k] == color,
            decreases 38400 - i,
        {
            self.framebuffer.set(i, color);
            i = i + 1;
        }
    }

    pub fn reset(&mut self)
        requires
            old(self).wf(),
        ensures
            final(self).wf(),
            final(self).display_control.raw == 0,
            final(self).bg2 == idle_affine_background(),
            final(self).bg3 == idle_affine_background(),
            forall|i: int| 0 <= i < 38400 ==> #[trigger] final(self).framebuffer@[i] == 0xFF00_0000u32,
            !final(self).frame_ready,
            final(self).frame_number == 0,
    {
        self.display_control.reset();
        self.bg2.reset();
        self.bg3.reset();
        self.clear_framebuffer(Self::UNIMPLEMENTED_MODE_PIXEL);
        self.frame_ready = false;
        self.frame_number = 0;
    }
}

} // verus!
