use running_man_advance::bus::IoRegisters;

use running_man_advance::bus::{
    DmaChannelIndex, DmaTransferWidth, InterruptController, InterruptSource, TimerIndex,
};

#[test]
fn ie_halfword_read_write() {
    let mut io = IoRegisters::new();

    io.write16(IoRegisters::IE_OFFSET, 0x1234);

    assert_eq!(
        io.read16(IoRegisters::IE_OFFSET,),
        0x1234 & InterruptController::SUPPORTED_MASK
    );
}

#[test]
fn ie_byte_access_is_little_endian() {
    let mut io = IoRegisters::new();

    io.write8(IoRegisters::IE_OFFSET, 0x34);

    io.write8(IoRegisters::IE_OFFSET + 1, 0x12);

    assert_eq!(
        io.read16(IoRegisters::IE_OFFSET,),
        0x1234 & InterruptController::SUPPORTED_MASK
    );
}

#[test]
fn if_write_one_to_clear_works_for_halfword() {
    let mut io = IoRegisters::new();

    io.request_interrupt(InterruptSource::VBlank);

    io.request_interrupt(InterruptSource::Timer0);

    io.write16(IoRegisters::IF_OFFSET, InterruptSource::VBlank.mask());

    assert_eq!(
        io.read16(IoRegisters::IF_OFFSET,),
        InterruptSource::Timer0.mask()
    );
}

#[test]
fn if_write_one_to_clear_works_for_bytes() {
    let mut io = IoRegisters::new();

    io.interrupts_mut().request_mask(0x1101);

    io.write8(IoRegisters::IF_OFFSET, 0x01);

    assert_eq!(io.read16(IoRegisters::IF_OFFSET,), 0x1100);

    io.write8(IoRegisters::IF_OFFSET + 1, 0x10);

    assert_eq!(io.read16(IoRegisters::IF_OFFSET,), 0x0100);
}

#[test]
fn ime_only_uses_bit_zero() {
    let mut io = IoRegisters::new();

    io.write16(IoRegisters::IME_OFFSET, 0xFFFF);

    assert_eq!(io.read16(IoRegisters::IME_OFFSET,), 1);

    assert_eq!(io.read8(IoRegisters::IME_OFFSET + 1,), 0);
}

#[test]
fn word_write_at_ie_also_acknowledges_if() {
    let mut io = IoRegisters::new();

    io.request_interrupt(InterruptSource::Timer0);

    /*
     * Low halfword:
     * IE <- Timer0
     *
     * High halfword:
     * IF acknowledge Timer0
     */
    let value =
        (InterruptSource::Timer0.mask() as u32) << 16 | InterruptSource::Timer0.mask() as u32;

    io.write32(IoRegisters::IE_OFFSET, value);

    assert_eq!(
        io.read16(IoRegisters::IE_OFFSET,),
        InterruptSource::Timer0.mask()
    );

    assert_eq!(io.read16(IoRegisters::IF_OFFSET,), 0);
}

#[test]
fn unimplemented_io_registers_use_backing_storage() {
    let mut io = IoRegisters::new();

    const UNIMPLEMENTED_OFFSET: u32 = 0x0300;

    io.write16(UNIMPLEMENTED_OFFSET, 0xCAFE);

    assert_eq!(io.read16(UNIMPLEMENTED_OFFSET), 0xCAFE,);
}

#[test]
fn reset_clears_io_and_interrupt_state() {
    let mut io = IoRegisters::new();

    io.write16(0x0100, 0xCAFE);

    io.write16(IoRegisters::IE_OFFSET, InterruptSource::Timer0.mask());

    io.write16(IoRegisters::IME_OFFSET, 1);

    io.request_interrupt(InterruptSource::Timer0);

    assert!(io.irq_line());

    io.reset();

    assert_eq!(io.read16(0x0100), 0);

    assert_eq!(io.read16(IoRegisters::IE_OFFSET,), 0);

    assert_eq!(io.read16(IoRegisters::IF_OFFSET,), 0);

    assert_eq!(io.read16(IoRegisters::IME_OFFSET,), 0);

    assert!(!io.irq_line());
}

#[test]
fn timer_registers_are_mapped() {
    let mut io = IoRegisters::new();

    io.write16(IoRegisters::TM0CNT_L_OFFSET, 0xFFF0);

    io.write16(IoRegisters::TM0CNT_H_OFFSET, 1 << 7);

    assert_eq!(io.read16(IoRegisters::TM0CNT_L_OFFSET,), 0xFFF0);

    assert_eq!(io.read16(IoRegisters::TM0CNT_H_OFFSET,), 1 << 7);
}

#[test]
fn io_tick_advances_timer() {
    let mut io = IoRegisters::new();

    io.write16(IoRegisters::TM0CNT_L_OFFSET, 0);

    io.write16(IoRegisters::TM0CNT_H_OFFSET, 1 << 7);

    io.tick(42);

    assert_eq!(io.read16(IoRegisters::TM0CNT_L_OFFSET,), 42);
}

#[test]
fn timer_overflow_sets_if() {
    let mut io = IoRegisters::new();

    io.write16(IoRegisters::TM0CNT_L_OFFSET, 0xFFFF);

    /*
     * Enable + IRQ.
     */
    io.write16(IoRegisters::TM0CNT_H_OFFSET, (1 << 7) | (1 << 6));

    io.tick(1);

    assert_eq!(
        io.read16(IoRegisters::IF_OFFSET) & InterruptSource::Timer0.mask(),
        InterruptSource::Timer0.mask()
    );
}

#[test]
fn byte_writes_to_timer_reload_merge_against_reload_latch() {
    let mut io = IoRegisters::new();

    io.write8(IoRegisters::TM0CNT_L_OFFSET, 0x34);

    io.write8(IoRegisters::TM0CNT_L_OFFSET + 1, 0x12);

    /*
     * Enable loads reload into the active counter.
     */
    io.write16(IoRegisters::TM0CNT_H_OFFSET, 1 << 7);

    assert_eq!(io.read16(IoRegisters::TM0CNT_L_OFFSET,), 0x1234);
}

#[test]
fn timer_irq_can_raise_irq_line() {
    let mut io = IoRegisters::new();

    io.write16(IoRegisters::IE_OFFSET, InterruptSource::Timer0.mask());

    io.write16(IoRegisters::IME_OFFSET, 1);

    io.write16(IoRegisters::TM0CNT_L_OFFSET, 0xFFFF);

    io.write16(IoRegisters::TM0CNT_H_OFFSET, (1 << 7) | (1 << 6));

    assert!(!io.irq_line());

    io.tick(1);

    assert!(io.irq_line());
}

#[test]
fn writing_timer_counter_updates_reload_latch_not_active_counter() {
    let mut io = IoRegisters::new();

    io.write16(IoRegisters::TM0CNT_L_OFFSET, 0xCAFE);

    /*
     * TM0CNT_L reads the current counter.
     * Writing while disabled only updates the reload latch.
     */
    assert_eq!(io.read16(IoRegisters::TM0CNT_L_OFFSET,), 0,);

    assert_eq!(io.timers().timer(TimerIndex::Timer0).reload(), 0xCAFE,);
}

#[test]
fn enabling_timer_loads_reload_latch_into_counter() {
    let mut io = IoRegisters::new();

    io.write16(IoRegisters::TM0CNT_L_OFFSET, 0xCAFE);

    io.write16(IoRegisters::TM0CNT_H_OFFSET, 1 << 7);

    assert_eq!(io.read16(IoRegisters::TM0CNT_L_OFFSET,), 0xCAFE,);
}

#[test]
fn dma_registers_are_mapped() {
    let mut io = IoRegisters::new();

    io.write32(IoRegisters::DMA0SAD_OFFSET, 0x0200_0100);

    io.write32(IoRegisters::DMA0DAD_OFFSET, 0x0300_0200);

    io.write16(IoRegisters::DMA0CNT_L_OFFSET, 16);

    assert_eq!(io.dma().read_source(DmaChannelIndex::Dma0), 0x0200_0100);

    assert_eq!(
        io.dma().read_destination(DmaChannelIndex::Dma0),
        0x0300_0200
    );

    assert_eq!(io.dma().read_count(DmaChannelIndex::Dma0), 16);
}

#[test]
fn enabling_immediate_dma_marks_channel_pending() {
    let mut io = IoRegisters::new();

    io.write16(IoRegisters::DMA0CNT_L_OFFSET, 4);

    io.write16(IoRegisters::DMA0CNT_H_OFFSET, 1 << 15);

    assert!(io.dma().channel(DmaChannelIndex::Dma0).pending());
}

#[test]
fn dma_word_write_can_set_count_and_control() {
    let mut io = IoRegisters::new();

    let count = 4u32;
    let control = ((1 << 15) | (1 << 10)) as u32;

    io.write32(IoRegisters::DMA0CNT_L_OFFSET, count | (control << 16));

    let request = io.dma_mut().next_pending_request().unwrap();

    assert_eq!(request.count, 4);

    assert_eq!(request.width, DmaTransferWidth::Word);
}

