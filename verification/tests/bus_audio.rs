use running_man_advance::bus::{Audio, DirectSoundFifo, GBA_CLOCK_HZ};

#[test]
fn fifo_word_write_is_little_endian_and_timer_consumes_samples() {
    let mut audio = Audio::new();
    audio.write_sound_control_x(1 << 7);
    audio.write_fifo16(DirectSoundFifo::A, 0xFF80);
    audio.write_fifo16(DirectSoundFifo::A, 0x7F02);

    assert_eq!(audio.fifo_level(DirectSoundFifo::A), 4);

    audio.tick(1, [1, 0, 0, 0]);

    assert_eq!(audio.channels[0].current_sample, -128);
    assert_eq!(audio.fifo_level(DirectSoundFifo::A), 3);
}

#[test]
fn selected_timer_clocks_fifo_and_requests_dma_at_half_empty() {
    let mut audio = Audio::new();
    audio.write_sound_control_x(1 << 7);
    audio.write_sound_control_high(1 << 10);
    audio.write_fifo16(DirectSoundFifo::A, 0x0201);
    audio.write_fifo16(DirectSoundFifo::A, 0x0403);

    assert!(!audio.tick(1, [1, 0, 0, 0]).fifo_dma_requests[0]);

    let result = audio.tick(1, [0, 1, 0, 0]);

    assert!(result.fifo_dma_requests[0]);
    assert_eq!(audio.channels[0].current_sample, 1);
}

#[test]
fn fifo_reset_bit_clears_data_and_self_clears() {
    let mut audio = Audio::new();
    audio.write_sound_control_x(1 << 7);
    audio.write_fifo16(DirectSoundFifo::B, 0x0201);
    audio.write_fifo16(DirectSoundFifo::B, 0x0403);
    audio.write_sound_control_high((1 << 15) | (1 << 13));

    assert_eq!(audio.fifo_level(DirectSoundFifo::B), 0);
    assert_eq!(audio.read_sound_control_high(), 1 << 13);
}

#[test]
fn disabled_master_stops_fifo_clock_and_dma_requests() {
    let mut audio = Audio::new();
    audio.write_fifo16(DirectSoundFifo::A, 0x0201);

    let result = audio.tick(1, [1, 0, 0, 0]);

    assert_eq!(audio.fifo_level(DirectSoundFifo::A), 2);
    assert!(!result.fifo_dma_requests[0]);
}

#[test]
fn output_is_only_generated_when_frontend_enables_it() {
    let mut audio = Audio::new();
    let mut samples = Vec::new();

    audio.tick(GBA_CLOCK_HZ as u32 / 60, [0; 4]);
    audio.drain_output_samples(&mut samples);
    assert!(samples.is_empty());

    audio.set_output_enabled(true);
    audio.tick(GBA_CLOCK_HZ as u32 / 60, [0; 4]);
    audio.drain_output_samples(&mut samples);

    assert!((1_590..=1_610).contains(&samples.len()));
}

