use running_man_advance::bus::{
    AccessKind, Bus, BusLoadError, CartridgeSaveType, DmaChannelIndex, InterruptController,
    InterruptSource, Ppu, SCREEN_WIDTH,
};

#[test]
fn bios_is_loaded_and_read_only() {
    let mut bus = Bus::new();

    let mut bios = vec![0u8; 0x4000];

    bios[8..12].copy_from_slice(&0xE1B0_F00Eu32.to_le_bytes());

    bus.load_bios(&bios).unwrap();

    assert_eq!(bus.read32(0x0000_0008), 0xE1B0_F00E);

    bus.write32(0x0000_0008, 0xDEAD_BEEF);

    assert_eq!(bus.read32(0x0000_0008), 0xE1B0_F00E);
}

#[test]
fn invalid_bios_size_is_rejected() {
    let mut bus = Bus::new();

    assert_eq!(
        bus.load_bios(&[0; 16]),
        Err(BusLoadError::InvalidBiosSize {
            expected: 0x4000,
            actual: 16,
        })
    );
}

#[test]
fn ewram_is_mirrored() {
    let mut bus = Bus::new();

    bus.write32(0x0200_0000, 0x1234_5678);

    assert_eq!(bus.read32(0x0204_0000), 0x1234_5678);
}

#[test]
fn iwram_is_mirrored() {
    let mut bus = Bus::new();

    bus.write32(0x0300_0000, 0x89AB_CDEF);

    assert_eq!(bus.read32(0x0300_8000), 0x89AB_CDEF);
}

#[test]
fn palette_byte_write_is_replicated_across_halfword() {
    let mut bus = Bus::new();

    bus.write8(0x0500_0001, 0xAB);

    assert_eq!(bus.read16(0x0500_0000), 0xABAB);
}

#[test]
fn vram_byte_write_is_replicated_across_halfword() {
    let mut bus = Bus::new();

    bus.write8(0x0600_0001, 0xCD);

    assert_eq!(bus.read16(0x0600_0000), 0xCDCD);
}

#[test]
fn oam_byte_write_is_ignored() {
    let mut bus = Bus::new();

    bus.write8(0x0700_0000, 0xFF);

    assert_eq!(bus.read8(0x0700_0000), 0);
}

#[test]
fn special_video_memory_halfword_writes_preserve_both_bytes() {
    let mut bus = Bus::new();

    bus.write16(0x0500_0000, 0x1234);
    bus.write16(0x0600_0000, 0x5678);
    bus.write16(0x0700_0000, 0x9ABC);

    assert_eq!(bus.read16(0x0500_0000), 0x1234);
    assert_eq!(bus.read16(0x0600_0000), 0x5678);
    assert_eq!(bus.read16(0x0700_0000), 0x9ABC);
}

#[test]
fn flash_1m_rom_exposes_id_and_preserves_save_across_reset() {
    const SAVE: u32 = 0x0E00_0000;

    let mut bus = Bus::new();

    bus.load_rom(b"FLASH1M_V103").unwrap();

    bus.write8(SAVE + 0x5555, 0xAA);
    bus.write8(SAVE + 0x2AAA, 0x55);
    bus.write8(SAVE + 0x5555, 0x90);

    assert_eq!(bus.read8(SAVE), 0x62);
    assert_eq!(bus.read8(SAVE + 1), 0x13);

    bus.write8(SAVE + 0x5555, 0xAA);
    bus.write8(SAVE + 0x2AAA, 0x55);
    bus.write8(SAVE + 0x5555, 0xF0);

    bus.write8(SAVE + 0x5555, 0xAA);
    bus.write8(SAVE + 0x2AAA, 0x55);
    bus.write8(SAVE + 0x5555, 0xA0);
    bus.write8(SAVE + 0x1234, 0x5A);

    bus.write8(SAVE + 0x5555, 0xAA);
    bus.write8(SAVE + 0x2AAA, 0x55);
    bus.write8(SAVE + 0x5555, 0x90);

    bus.reset();

    assert_eq!(bus.read8(SAVE), 0xFF);
    assert_eq!(bus.read8(SAVE + 0x1234), 0x5A);
}

#[test]
fn ie_is_mapped() {
    let mut bus = Bus::new();

    bus.write16(Bus::REG_IE, 0x1234);

    assert_eq!(
        bus.read16(Bus::REG_IE),
        0x1234 & InterruptController::SUPPORTED_MASK
    );
}

#[test]
fn if_is_write_one_to_clear() {
    let mut bus = Bus::new();

    bus.request_interrupt(InterruptSource::VBlank);

    bus.request_interrupt(InterruptSource::Timer0);

    bus.write16(Bus::REG_IF, InterruptSource::VBlank.mask());

    assert_eq!(bus.read16(Bus::REG_IF), InterruptSource::Timer0.mask());
}

#[test]
fn ime_is_mapped() {
    let mut bus = Bus::new();

    bus.write16(Bus::REG_IME, 1);

    assert_eq!(bus.read16(Bus::REG_IME), 1);
}

#[test]
fn irq_line_comes_from_io_controller() {
    let mut bus = Bus::new();

    bus.write16(Bus::REG_IE, InterruptSource::Timer0.mask());

    bus.write16(Bus::REG_IME, 1);

    bus.request_interrupt(InterruptSource::Timer0);

    assert!(bus.irq_line());

    bus.write16(Bus::REG_IF, InterruptSource::Timer0.mask());

    assert!(!bus.irq_line());
}

#[test]
fn byte_access_to_ie_is_little_endian() {
    let mut bus = Bus::new();

    bus.write8(Bus::REG_IE, 0x34);

    bus.write8(Bus::REG_IE + 1, 0x12);

    assert_eq!(
        bus.read16(Bus::REG_IE),
        0x1234 & InterruptController::SUPPORTED_MASK
    );
}

#[test]
fn word_access_to_ie_and_if_uses_register_semantics() {
    let mut bus = Bus::new();

    bus.request_interrupt(InterruptSource::Timer0);

    let value =
        (InterruptSource::Timer0.mask() as u32) << 16 | InterruptSource::Timer0.mask() as u32;

    bus.write32(Bus::REG_IE, value);

    assert_eq!(bus.read16(Bus::REG_IE), InterruptSource::Timer0.mask());

    assert_eq!(bus.read16(Bus::REG_IF), 0);
}

#[test]
fn timer_zero_is_accessible_through_bus_mmio() {
    let mut bus = Bus::new();

    bus.write16(Bus::REG_TM0CNT_L, 0xFFF0);

    bus.write16(Bus::REG_TM0CNT_H, 1 << 7);

    bus.tick(5);

    assert_eq!(bus.read16(Bus::REG_TM0CNT_L), 0xFFF5);
}

#[test]
fn timer_overflow_requests_interrupt_through_bus() {
    let mut bus = Bus::new();

    bus.write16(Bus::REG_IE, InterruptSource::Timer0.mask());

    bus.write16(Bus::REG_IME, 1);

    bus.write16(Bus::REG_TM0CNT_L, 0xFFFF);

    bus.write16(Bus::REG_TM0CNT_H, (1 << 7) | (1 << 6));

    assert!(!bus.irq_line());

    bus.tick(1);

    assert!(bus.irq_line());

    assert_eq!(
        bus.read16(Bus::REG_IF) & InterruptSource::Timer0.mask(),
        InterruptSource::Timer0.mask()
    );
}

#[test]
fn immediate_dma_copies_halfwords() {
    let mut bus = Bus::new();

    bus.write16(0x0200_0100, 0x1111);

    bus.write16(0x0200_0102, 0x2222);

    bus.write16(0x0200_0104, 0x3333);

    bus.write32(Bus::REG_DMA0SAD, 0x0200_0100);

    bus.write32(Bus::REG_DMA0DAD, 0x0300_0100);

    bus.write16(Bus::REG_DMA0CNT_L, 3);

    /*
     * Immediate, halfword, enable.
     */
    bus.write16(Bus::REG_DMA0CNT_H, 1 << 15);

    let result = bus.run_pending_dma().unwrap();

    assert_eq!(result.channel, DmaChannelIndex::Dma0);

    assert_eq!(result.transferred_units, 3);

    assert_eq!(bus.read16(0x0300_0100), 0x1111);

    assert_eq!(bus.read16(0x0300_0102), 0x2222);

    assert_eq!(bus.read16(0x0300_0104), 0x3333);

    /*
     * Enable clears after immediate transfer.
     */
    assert_eq!(bus.read16(Bus::REG_DMA0CNT_H) & (1 << 15), 0);
}

#[test]
fn immediate_dma_copies_words() {
    let mut bus = Bus::new();

    bus.write32(0x0200_0100, 0x1111_1111);

    bus.write32(0x0200_0104, 0x2222_2222);

    bus.write32(Bus::REG_DMA0SAD, 0x0200_0100);

    bus.write32(Bus::REG_DMA0DAD, 0x0300_0100);

    bus.write16(Bus::REG_DMA0CNT_L, 2);

    /*
     * 32-bit transfer + enable.
     */
    bus.write16(Bus::REG_DMA0CNT_H, (1 << 10) | (1 << 15));

    bus.run_pending_dma().unwrap();

    assert_eq!(bus.read32(0x0300_0100), 0x1111_1111);

    assert_eq!(bus.read32(0x0300_0104), 0x2222_2222);
}

#[test]
fn dma_fixed_destination_repeatedly_writes_same_address() {
    let mut bus = Bus::new();

    bus.write16(0x0200_0100, 1);
    bus.write16(0x0200_0102, 2);
    bus.write16(0x0200_0104, 3);

    bus.write32(Bus::REG_DMA0SAD, 0x0200_0100);

    bus.write32(Bus::REG_DMA0DAD, 0x0300_0100);

    bus.write16(Bus::REG_DMA0CNT_L, 3);

    /*
     * Destination fixed:
     *
     * destination control = 0b10.
     */
    bus.write16(Bus::REG_DMA0CNT_H, (0b10 << 5) | (1 << 15));

    bus.run_pending_dma().unwrap();

    /*
     * Last source value wins.
     */
    assert_eq!(bus.read16(0x0300_0100), 3);
}

#[test]
fn dma_can_decrement_source_and_destination() {
    let mut bus = Bus::new();

    bus.write16(0x0200_0100, 0x1111);
    bus.write16(0x0200_0102, 0x2222);
    bus.write16(0x0200_0104, 0x3333);

    bus.write32(Bus::REG_DMA0SAD, 0x0200_0104);

    bus.write32(Bus::REG_DMA0DAD, 0x0300_0104);

    bus.write16(Bus::REG_DMA0CNT_L, 3);

    /*
     * Destination decrement = 01
     * Source decrement      = 01
     */
    bus.write16(Bus::REG_DMA0CNT_H, (0b01 << 5) | (0b01 << 7) | (1 << 15));

    bus.run_pending_dma().unwrap();

    assert_eq!(bus.read16(0x0300_0104), 0x3333);

    assert_eq!(bus.read16(0x0300_0102), 0x2222);

    assert_eq!(bus.read16(0x0300_0100), 0x1111);
}

#[test]
fn dma_completion_sets_interrupt_flag() {
    let mut bus = Bus::new();

    bus.write16(0x0200_0100, 0xCAFE);

    bus.write32(Bus::REG_DMA0SAD, 0x0200_0100);

    bus.write32(Bus::REG_DMA0DAD, 0x0300_0100);

    bus.write16(Bus::REG_DMA0CNT_L, 1);

    /*
     * IRQ on completion + enable.
     */
    bus.write16(Bus::REG_DMA0CNT_H, (1 << 14) | (1 << 15));

    bus.run_pending_dma().unwrap();

    assert_eq!(
        bus.read16(Bus::REG_IF) & InterruptSource::Dma0.mask(),
        InterruptSource::Dma0.mask()
    );
}

#[test]
fn vblank_repeat_dma_runs_once_per_vblank_event() {
    let mut bus = Bus::new();

    bus.write16(0x0200_0100, 0x1111);

    bus.write16(0x0200_0102, 0x2222);

    bus.write32(Bus::REG_DMA0SAD, 0x0200_0100);

    bus.write32(Bus::REG_DMA0DAD, 0x0300_0100);

    bus.write16(Bus::REG_DMA0CNT_L, 1);

    /*
     * Repeat
     * VBlank timing
     * Enable
     */
    bus.write16(Bus::REG_DMA0CNT_H, (1 << 9) | (0b01 << 12) | (1 << 15));

    assert!(bus.run_pending_dma().is_none());

    /*
     * Reach VBlank.
     */
    bus.tick(Ppu::CYCLES_PER_LINE as u32 * Ppu::VISIBLE_LINES as u32);

    bus.run_pending_dma().unwrap();

    assert_eq!(bus.read16(0x0300_0100), 0x1111,);

    /*
     * Repeat DMA stays enabled.
     */
    assert_ne!(bus.read16(Bus::REG_DMA0CNT_H) & (1 << 15), 0,);
}

#[test]
fn ewram_word_read_costs_six_cycles() {
    let bus = Bus::new();

    let access = bus.read32_timed(0x0200_0000, AccessKind::NonSequential);

    assert_eq!(access.cycles, 6);
}

#[test]
fn iwram_word_read_costs_one_cycle() {
    let bus = Bus::new();

    let access = bus.read32_timed(0x0300_0000, AccessKind::NonSequential);

    assert_eq!(access.cycles, 1);
}

#[test]
fn waitcnt_changes_game_pak_timing() {
    let mut bus = Bus::new();

    assert_eq!(
        bus.read16_timed(0x0800_0000, AccessKind::NonSequential,)
            .cycles,
        4,
    );

    /*
     * WS0 first = 2 cycles.
     */
    bus.write16(Bus::REG_WAITCNT, 0b10 << 2);

    assert_eq!(
        bus.read16_timed(0x0800_0000, AccessKind::NonSequential,)
            .cycles,
        2,
    );
}

#[test]
fn sequential_game_pak_access_uses_second_timing() {
    let mut bus = Bus::new();

    /*
     * WS0 first = 3
     * WS0 second = 1
     */
    bus.write16(Bus::REG_WAITCNT, (0b01 << 2) | (1 << 4));

    assert_eq!(
        bus.read16_timed(0x0800_0000, AccessKind::NonSequential,)
            .cycles,
        3,
    );

    assert_eq!(
        bus.read16_timed(0x0800_0002, AccessKind::Sequential,)
            .cycles,
        1,
    );
}

#[test]
fn dma_uses_memory_access_timing() {
    let mut bus = Bus::new();

    bus.write16(0x0200_0100, 0xCAFE);

    bus.write32(Bus::REG_DMA0SAD, 0x0200_0100);

    bus.write32(Bus::REG_DMA0DAD, 0x0300_0100);

    bus.write16(Bus::REG_DMA0CNT_L, 1);

    bus.write16(Bus::REG_DMA0CNT_H, 1 << 15);

    let result = bus.run_pending_dma().unwrap();

    /*
     * EWRAM halfword read = 3 cycles.
     * IWRAM halfword write = 1 cycle.
     */
    assert_eq!(result.cycles, 4);

    assert_eq!(bus.read16(0x0300_0100), 0xCAFE,);
}

#[test]
fn mode3_pixel_is_rendered_when_hblank_begins() {
    let mut bus = Bus::new();

    bus.write16(Bus::REG_DISPCNT, 3);

    /*
     * Pixel 0,0 = red.
     */
    bus.write16(0x0600_0000, 0x001F);

    /*
     * Pixel is not rendered before the line completes.
     */
    assert_ne!(bus.framebuffer()[0], 0xFFFF_0000,);

    bus.tick(Ppu::HDRAW_CYCLES as u32);

    assert_eq!(bus.framebuffer()[0], 0xFFFF_0000,);
}

#[test]
fn mode3_renders_pixel_at_correct_coordinates() {
    let mut bus = Bus::new();

    bus.write16(Bus::REG_DISPCNT, 3);

    let x = 25usize;
    let y = 10usize;

    let vram_address = 0x0600_0000 + ((y * SCREEN_WIDTH + x) * 2) as u32;

    bus.write16(vram_address, 0x03E0);

    bus.tick(Ppu::CYCLES_PER_LINE as u32 * y as u32 + Ppu::HDRAW_CYCLES as u32);

    assert_eq!(bus.framebuffer()[y * SCREEN_WIDTH + x], 0xFF00_FF00,);
}

#[test]
fn mode3_frame_becomes_ready_at_vblank() {
    let mut bus = Bus::new();

    bus.write16(Bus::REG_DISPCNT, 3);

    assert!(!bus.frame_ready());

    bus.tick(Ppu::CYCLES_PER_LINE as u32 * Ppu::VISIBLE_LINES as u32);

    assert!(bus.frame_ready());
    assert_eq!(bus.frame_number(), 1);

    assert!(bus.take_frame_ready());
    assert!(!bus.frame_ready());
    assert!(!bus.take_frame_ready());
}

#[test]
fn forced_blank_renders_white() {
    let mut bus = Bus::new();

    bus.write16(Bus::REG_DISPCNT, 3 | (1 << 7));

    bus.write16(0x0600_0000, 0x001F);

    bus.tick(Ppu::HDRAW_CYCLES as u32);

    assert_eq!(bus.framebuffer()[0], 0xFFFF_FFFF,);
}

#[test]
fn dma_to_vram_is_visible_in_mode3_framebuffer() {
    let mut bus = Bus::new();

    bus.write16(Bus::REG_DISPCNT, 3);

    /*
     * Source contains one red BGR555 pixel.
     */
    bus.write16(0x0200_0100, 0x001F);

    bus.write32(Bus::REG_DMA0SAD, 0x0200_0100);

    bus.write32(Bus::REG_DMA0DAD, 0x0600_0000);

    bus.write16(Bus::REG_DMA0CNT_L, 1);

    bus.write16(Bus::REG_DMA0CNT_H, 1 << 15);

    bus.run_pending_dma().unwrap();

    bus.tick(Ppu::HDRAW_CYCLES as u32);

    assert_eq!(bus.framebuffer()[0], 0xFFFF_0000,);
}

