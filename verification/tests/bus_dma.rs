use running_man_advance::bus::{
    DmaAddressControl, DmaChannelIndex, DmaController, DmaStartTiming, DmaTransferCompletion,
    DmaTransferWidth, FIFO_A_ADDRESS,
};

#[test]
fn sound_fifo_dma_is_forced_to_four_fixed_words() {
    let mut dma = DmaController::new();

    dma.write_source(DmaChannelIndex::Dma1, 0x0200_0000);
    dma.write_destination(DmaChannelIndex::Dma1, FIFO_A_ADDRESS);
    dma.write_count(DmaChannelIndex::Dma1, 99);
    dma.write_control(DmaChannelIndex::Dma1, (1 << 9) | (0b11 << 12) | (1 << 15));

    dma.trigger_sound_fifo(FIFO_A_ADDRESS);
    let request = dma
        .next_pending_request()
        .expect("sound DMA must be pending");

    assert_eq!(request.count, 4);
    assert_eq!(request.width, DmaTransferWidth::Word);
    assert_eq!(request.destination_control, DmaAddressControl::Fixed);
}

#[test]
fn control_fields_are_decoded() {
    let mut dma = DmaController::new();

    let control =
        (0b01 << 5) | (0b10 << 7) | (1 << 9) | (1 << 10) | (0b10 << 12) | (1 << 14) | (1 << 15);

    dma.write_control(DmaChannelIndex::Dma0, control);

    let decoded = dma.channel(DmaChannelIndex::Dma0).control();

    assert_eq!(decoded.destination_control(), DmaAddressControl::Decrement);

    assert_eq!(decoded.source_control(), DmaAddressControl::Fixed);

    assert!(decoded.repeat());

    assert_eq!(decoded.transfer_width(), DmaTransferWidth::Word);

    assert_eq!(decoded.start_timing(), DmaStartTiming::HBlank);

    assert!(decoded.irq_enabled());
    assert!(decoded.enabled());
}

#[test]
fn immediate_dma_becomes_pending_on_enable_edge() {
    let mut dma = DmaController::new();

    dma.write_source(DmaChannelIndex::Dma0, 0x0200_0000);

    dma.write_destination(DmaChannelIndex::Dma0, 0x0300_0000);

    dma.write_count(DmaChannelIndex::Dma0, 4);

    dma.write_control(DmaChannelIndex::Dma0, 1 << 15);

    assert!(dma.channel(DmaChannelIndex::Dma0).pending());

    let request = dma.next_pending_request().unwrap();

    assert_eq!(request.count, 4);

    assert_eq!(request.source, 0x0200_0000);

    assert_eq!(request.destination, 0x0300_0000);
}

#[test]
fn zero_count_uses_channel_maximum() {
    let mut dma = DmaController::new();

    dma.write_count(DmaChannelIndex::Dma0, 0);

    dma.write_control(DmaChannelIndex::Dma0, 1 << 15);

    assert_eq!(dma.next_pending_request().unwrap().count, 0x4000);

    dma.write_count(DmaChannelIndex::Dma3, 0);

    dma.write_control(DmaChannelIndex::Dma3, 1 << 15);

    assert_eq!(dma.next_pending_request().unwrap().count, 0x1_0000);
}

#[test]
fn lower_channel_has_higher_priority() {
    let mut dma = DmaController::new();

    dma.write_control(DmaChannelIndex::Dma2, 1 << 15);

    dma.write_control(DmaChannelIndex::Dma0, 1 << 15);

    assert_eq!(
        dma.next_pending_request().unwrap().channel,
        DmaChannelIndex::Dma0
    );

    assert_eq!(
        dma.next_pending_request().unwrap().channel,
        DmaChannelIndex::Dma2
    );
}

#[test]
fn non_immediate_dma_does_not_start_yet() {
    let mut dma = DmaController::new();

    /*
     * Start timing VBlank.
     */
    dma.write_control(DmaChannelIndex::Dma0, (0b01 << 12) | (1 << 15));

    assert!(dma.next_pending_request().is_none());
}

#[test]
fn vblank_dma_becomes_pending_on_vblank_event() {
    let mut dma = DmaController::new();

    dma.write_count(DmaChannelIndex::Dma0, 4);

    /*
     * VBlank timing + enable.
     */
    dma.write_control(DmaChannelIndex::Dma0, (0b01 << 12) | (1 << 15));

    assert!(dma.next_pending_request().is_none());

    dma.trigger(DmaStartTiming::VBlank, 1);

    let request = dma.next_pending_request().unwrap();

    assert_eq!(request.channel, DmaChannelIndex::Dma0,);

    assert_eq!(request.start_timing, DmaStartTiming::VBlank,);
}

#[test]
fn hblank_event_only_triggers_hblank_dma() {
    let mut dma = DmaController::new();

    dma.write_control(DmaChannelIndex::Dma0, (0b01 << 12) | (1 << 15));

    dma.write_control(DmaChannelIndex::Dma1, (0b10 << 12) | (1 << 15));

    dma.trigger(DmaStartTiming::HBlank, 1);

    assert_eq!(
        dma.next_pending_request().unwrap().channel,
        DmaChannelIndex::Dma1,
    );

    assert!(dma.next_pending_request().is_none());
}

#[test]
fn repeat_event_dma_remains_enabled_after_completion() {
    let mut dma = DmaController::new();

    dma.write_source(DmaChannelIndex::Dma0, 0x0200_0000);

    dma.write_destination(DmaChannelIndex::Dma0, 0x0300_0000);

    dma.write_count(DmaChannelIndex::Dma0, 4);

    /*
     * Repeat + VBlank + enable.
     */
    dma.write_control(DmaChannelIndex::Dma0, (1 << 9) | (0b01 << 12) | (1 << 15));

    dma.trigger(DmaStartTiming::VBlank, 1);

    let request = dma.next_pending_request().unwrap();

    dma.complete_transfer(DmaTransferCompletion {
        channel: request.channel,
        final_source: 0x0200_0008,
        final_destination: 0x0300_0008,
        transferred_units: 4,
    });

    assert!(dma.channel(DmaChannelIndex::Dma0).control().enabled());

    dma.trigger(DmaStartTiming::VBlank, 1);

    let second = dma.next_pending_request().unwrap();

    assert_eq!(second.source, 0x0200_0008);
    assert_eq!(second.destination, 0x0300_0008);
    assert_eq!(second.count, 4);
}

#[test]
fn destination_increment_reload_restores_destination() {
    let mut dma = DmaController::new();

    dma.write_source(DmaChannelIndex::Dma0, 0x0200_0000);

    dma.write_destination(DmaChannelIndex::Dma0, 0x0300_0000);

    dma.write_count(DmaChannelIndex::Dma0, 4);

    /*
     * Destination increment/reload
     * Repeat
     * VBlank
     * Enable
     */
    dma.write_control(
        DmaChannelIndex::Dma0,
        (0b11 << 5) | (1 << 9) | (0b01 << 12) | (1 << 15),
    );

    dma.trigger(DmaStartTiming::VBlank, 1);

    let request = dma.next_pending_request().unwrap();

    dma.complete_transfer(DmaTransferCompletion {
        channel: request.channel,
        final_source: 0x0200_0008,
        final_destination: 0x0300_0008,
        transferred_units: 4,
    });

    dma.trigger(DmaStartTiming::VBlank, 1);

    let repeated = dma.next_pending_request().unwrap();

    assert_eq!(repeated.source, 0x0200_0008,);

    assert_eq!(repeated.destination, 0x0300_0000,);
}

