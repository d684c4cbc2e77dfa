use running_man_advance::bus::Ppu;

use running_man_advance::bus::InterruptSource;

#[test]
fn starts_on_first_visible_scanline() {
    let ppu = Ppu::new();

    assert_eq!(ppu.vcount(), 0);
    assert_eq!(ppu.line_cycle(), 0);
    assert!(!ppu.in_hblank());
    assert!(!ppu.in_vblank());
    assert!(ppu.vcount_match());
}

#[test]
fn enters_hblank_after_960_cycles() {
    let mut ppu = Ppu::new();

    let result = ppu.tick(Ppu::HDRAW_CYCLES as u32);

    assert!(ppu.in_hblank());
    assert_eq!(ppu.vcount(), 0);
    assert_eq!(result.hblank_starts, 1);
}

#[test]
fn advances_scanline_after_1232_cycles() {
    let mut ppu = Ppu::new();

    ppu.tick(Ppu::CYCLES_PER_LINE as u32);

    assert_eq!(ppu.vcount(), 1);
    assert_eq!(ppu.line_cycle(), 0);
    assert!(!ppu.in_hblank());
}

#[test]
fn enters_vblank_at_scanline_160() {
    let mut ppu = Ppu::new();

    let result = ppu.tick(Ppu::CYCLES_PER_LINE as u32 * Ppu::VISIBLE_LINES as u32);

    assert_eq!(ppu.vcount(), 160);
    assert!(ppu.in_vblank());
    assert_eq!(result.vblank_starts, 1);
}

#[test]
fn wraps_after_scanline_227() {
    let mut ppu = Ppu::new();

    let result = ppu.tick(Ppu::CYCLES_PER_LINE as u32 * Ppu::TOTAL_LINES as u32);

    assert_eq!(ppu.vcount(), 0);
    assert!(!ppu.in_vblank());
    assert_eq!(result.new_frames, 1);
}

#[test]
fn hblank_irq_is_requested_when_enabled() {
    let mut ppu = Ppu::new();

    ppu.write_dispstat(1 << 4);

    let result = ppu.tick(Ppu::HDRAW_CYCLES as u32);

    assert_ne!(
        result.interrupt_requests & InterruptSource::HBlank.mask(),
        0,
    );
}

#[test]
fn vblank_irq_is_requested_when_enabled() {
    let mut ppu = Ppu::new();

    ppu.write_dispstat(1 << 3);

    let result = ppu.tick(Ppu::CYCLES_PER_LINE as u32 * Ppu::VISIBLE_LINES as u32);

    assert_ne!(
        result.interrupt_requests & InterruptSource::VBlank.mask(),
        0,
    );
}

#[test]
fn vcounter_match_requests_interrupt() {
    let mut ppu = Ppu::new();

    /*
     * Compare VCOUNT with scanline 10 and enable its IRQ.
     */
    ppu.write_dispstat((10 << 8) | (1 << 5));

    let result = ppu.tick(Ppu::CYCLES_PER_LINE as u32 * 10);

    assert_eq!(ppu.vcount(), 10);
    assert!(ppu.vcount_match());

    assert_ne!(
        result.interrupt_requests & InterruptSource::VCounterMatch.mask(),
        0,
    );
}

#[test]
fn tick_can_cross_multiple_scanlines() {
    let mut ppu = Ppu::new();

    let result = ppu.tick(Ppu::CYCLES_PER_LINE as u32 * 3 + Ppu::HDRAW_CYCLES as u32);

    assert_eq!(ppu.vcount(), 3);
    assert!(ppu.in_hblank());
    assert_eq!(result.hblank_starts, 4);
}

