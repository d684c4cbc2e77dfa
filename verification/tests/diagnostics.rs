use running_man_advance::diagnostics::{framebuffer_hash, WatchStats};

#[test]
fn framebuffer_hash_is_stable_and_pixel_sensitive() {
    assert_eq!(framebuffer_hash(&[1, 2, 3]), framebuffer_hash(&[1, 2, 3]));
    assert_ne!(framebuffer_hash(&[1, 2, 3]), framebuffer_hash(&[1, 2, 4]));
}

#[test]
fn watch_stats_counts_changes_and_per_bit_rising_edges() {
    let mut stats = WatchStats::new(0b0010);

    stats.observe(0b0010);
    stats.observe(0b0111);
    stats.observe(0b0100);
    stats.observe(0b0110);

    assert_eq!(stats.last, 0b0110);
    assert_eq!(stats.changes, 3);
    assert_eq!(stats.rising_edges[0], 1);
    assert_eq!(stats.rising_edges[1], 1);
    assert_eq!(stats.rising_edges[2], 1);
}

#[test]
fn framebuffer_hash_of_nothing_is_the_offset_basis() {
    assert_eq!(framebuffer_hash(&[]), 0xCBF2_9CE4_8422_2325);
}

#[test]
fn framebuffer_hash_of_one_zero_pixel() {
    let mut hash: u64 = 0xCBF2_9CE4_8422_2325;
    for _ in 0..4 {
        hash = hash.wrapping_mul(0x0000_0100_0000_01B3);
    }
    assert_eq!(framebuffer_hash(&[0]), hash);
}
