use running_man_advance::bus::{
    DisplayControl, SCREEN_HEIGHT, SCREEN_WIDTH, Video, VideoMode, bgr555_to_rgba8888,
};

#[test]
fn display_control_decodes_mode() {
    let mut control = DisplayControl::new();
    control.write(3);
    assert_eq!(control.mode(), VideoMode::Mode3);
}

#[test]
fn converts_bgr555_primary_colors() {
    assert_eq!(bgr555_to_rgba8888(0x001F), 0xFFFF_0000);
    assert_eq!(bgr555_to_rgba8888(0x03E0), 0xFF00_FF00);
    assert_eq!(bgr555_to_rgba8888(0x7C00), 0xFF00_00FF);
    assert_eq!(bgr555_to_rgba8888(0x7FFF), 0xFFFF_FFFF);
    assert_eq!(bgr555_to_rgba8888(0x0000), 0xFF00_0000);
}

#[test]
fn mode3_renders_scanline() {
    let mut video = Video::new();
    video.write_display_control(3);

    let mut vram = vec![0u8; SCREEN_WIDTH * SCREEN_HEIGHT * 2];
    let palette = vec![0u8; 0x400];

    vram[0..2].copy_from_slice(&0x001Fu16.to_le_bytes());
    vram[2..4].copy_from_slice(&0x03E0u16.to_le_bytes());
    vram[4..6].copy_from_slice(&0x7C00u16.to_le_bytes());

    video.render_scanline(0, &vram, &palette);

    assert_eq!(video.framebuffer()[0], 0xFFFF_0000);
    assert_eq!(video.framebuffer()[1], 0xFF00_FF00);
    assert_eq!(video.framebuffer()[2], 0xFF00_00FF);
}

#[test]
fn mode2_renders_identity_affine_tile() {
    let mut video = Video::new();

    /*
     * Mode 2, BG2 enabled.
     */
    video.write_display_control(2 | (1 << 10));

    let bg2 = video.affine_background_mut(2);

    /*
     * Character base block 0, screen base block 1, size 128x128.
     */
    bg2.write_control(1 << 8);
    bg2.write_pa(0x0100);
    bg2.write_pd(0x0100);

    let mut vram = vec![0u8; 0x18000];
    let mut palette = vec![0u8; 0x400];

    /*
     * Map entry 0 points to tile 1.
     */
    vram[0x800] = 1;

    /*
     * Tile 1, pixel (0,0) uses palette index 1.
     */
    vram[64] = 1;
    palette[2..4].copy_from_slice(&0x001Fu16.to_le_bytes());

    video.begin_frame();
    video.render_scanline(0, &vram, &palette);

    assert_eq!(video.framebuffer()[0], 0xFFFF_0000);
}

#[test]
fn mode2_palette_zero_is_transparent_and_uses_backdrop() {
    let mut video = Video::new();
    video.write_display_control(2 | (1 << 10));

    let bg2 = video.affine_background_mut(2);
    bg2.write_control(1 << 8);
    bg2.write_pa(0x0100);
    bg2.write_pd(0x0100);

    let mut vram = vec![0u8; 0x18000];
    let mut palette = vec![0u8; 0x400];

    vram[0x800] = 1;
    vram[64] = 0;

    palette[0..2].copy_from_slice(&0x03E0u16.to_le_bytes());

    video.begin_frame();
    video.render_scanline(0, &vram, &palette);

    assert_eq!(video.framebuffer()[0], 0xFF00_FF00);
}

#[test]
fn mode2_wraps_coordinates_when_overflow_is_enabled() {
    let mut video = Video::new();
    video.write_display_control(2 | (1 << 10));

    let bg2 = video.affine_background_mut(2);

    /*
     * Screen base 1, overflow/wrap bit 13.
     */
    bg2.write_control((1 << 8) | (1 << 13));
    bg2.write_pa(0x0100);
    bg2.write_pd(0x0100);

    /*
     * X = -1 pixel in 20.8 fixed point.
     */
    bg2.write_reference_x_low(0xFF00);
    bg2.write_reference_x_high(0x0FFF);

    let mut vram = vec![0u8; 0x18000];
    let mut palette = vec![0u8; 0x400];

    /*
     * 128x128 map: coordinate 127 belongs to tile column 15.
     */
    vram[0x800 + 15] = 1;
    vram[64 + 7] = 1;
    palette[2..4].copy_from_slice(&0x7C00u16.to_le_bytes());

    video.render_scanline(0, &vram, &palette);

    assert_eq!(video.framebuffer()[0], 0xFF00_00FF);
}

#[test]
fn mode2_composes_bg2_over_bg3_on_equal_priority() {
    let mut video = Video::new();
    video.write_display_control(2 | (1 << 10) | (1 << 11));

    {
        let bg2 = video.affine_background_mut(2);
        bg2.write_control(1 << 8);
        bg2.write_pa(0x0100);
        bg2.write_pd(0x0100);
    }

    {
        let bg3 = video.affine_background_mut(3);
        bg3.write_control(2 << 8);
        bg3.write_pa(0x0100);
        bg3.write_pd(0x0100);
    }

    let mut vram = vec![0u8; 0x18000];
    let mut palette = vec![0u8; 0x400];

    vram[0x800] = 1;
    vram[0x1000] = 2;
    vram[64] = 1;
    vram[128] = 2;

    palette[2..4].copy_from_slice(&0x001Fu16.to_le_bytes());
    palette[4..6].copy_from_slice(&0x7C00u16.to_le_bytes());

    video.begin_frame();
    video.render_scanline(0, &vram, &palette);

    assert_eq!(video.framebuffer()[0], 0xFFFF_0000);
}

#[test]
fn forced_blank_outputs_white() {
    let mut video = Video::new();
    video.write_display_control(3 | (1 << 7));

    let vram = vec![0u8; SCREEN_WIDTH * 2];
    let palette = vec![0u8; 0x400];

    video.render_scanline(0, &vram, &palette);

    assert!(
        video.framebuffer()[0..SCREEN_WIDTH]
            .iter()
            .all(|&pixel| pixel == Video::FORCED_BLANK_PIXEL)
    );
}

