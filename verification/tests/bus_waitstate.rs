use running_man_advance::bus::{AccessKind, AccessWidth, MemoryRegion, WaitControl};

#[test]
fn decodes_memory_regions() {
    assert_eq!(MemoryRegion::decode(0x0000_0000), MemoryRegion::Bios,);

    assert_eq!(MemoryRegion::decode(0x0200_0000), MemoryRegion::Ewram,);

    assert_eq!(
        MemoryRegion::decode(0x0800_0000),
        MemoryRegion::GamePakWaitState0,
    );

    assert_eq!(
        MemoryRegion::decode(0x0A00_0000),
        MemoryRegion::GamePakWaitState1,
    );

    assert_eq!(
        MemoryRegion::decode(0x0C00_0000),
        MemoryRegion::GamePakWaitState2,
    );

    assert_eq!(MemoryRegion::decode(0x0E00_0000), MemoryRegion::GamePakSram,);
}

#[test]
fn reset_waitstates_match_startup_values() {
    let wait = WaitControl::new();

    assert_eq!(wait.sram_cycles(), 4);

    assert_eq!(wait.ws0_first_cycles(), 4,);

    assert_eq!(wait.ws0_second_cycles(), 2,);

    assert_eq!(wait.ws1_first_cycles(), 4,);

    assert_eq!(wait.ws1_second_cycles(), 4,);

    assert_eq!(wait.ws2_first_cycles(), 4,);

    assert_eq!(wait.ws2_second_cycles(), 8,);

    assert!(!wait.prefetch_enabled());
}

#[test]
fn waitcnt_fields_are_decoded() {
    let mut wait = WaitControl::new();

    let value = 0b10
        | (0b01 << 2)
        | (1 << 4)
        | (0b10 << 5)
        | (1 << 7)
        | (0b11 << 8)
        | (1 << 10)
        | (1 << 14);

    wait.write(value);

    assert_eq!(wait.sram_cycles(), 2);

    assert_eq!(wait.ws0_first_cycles(), 3,);

    assert_eq!(wait.ws0_second_cycles(), 1,);

    assert_eq!(wait.ws1_first_cycles(), 2,);

    assert_eq!(wait.ws1_second_cycles(), 1,);

    assert_eq!(wait.ws2_first_cycles(), 8,);

    assert_eq!(wait.ws2_second_cycles(), 1,);

    assert!(wait.prefetch_enabled());
}

#[test]
fn ewram_word_access_uses_two_bus_units() {
    let wait = WaitControl::new();

    assert_eq!(
        wait.access_cycles(0x0200_0000, AccessWidth::Word, AccessKind::NonSequential,),
        6,
    );
}

#[test]
fn ws0_nonsequential_halfword_uses_first_timing() {
    let wait = WaitControl::new();

    assert_eq!(
        wait.access_cycles(
            0x0800_0000,
            AccessWidth::Halfword,
            AccessKind::NonSequential,
        ),
        4,
    );
}

#[test]
fn ws0_sequential_halfword_uses_second_timing() {
    let wait = WaitControl::new();

    assert_eq!(
        wait.access_cycles(0x0800_0002, AccessWidth::Halfword, AccessKind::Sequential,),
        2,
    );
}

#[test]
fn ws0_nonsequential_word_is_first_plus_second() {
    let wait = WaitControl::new();

    assert_eq!(
        wait.access_cycles(0x0800_0000, AccessWidth::Word, AccessKind::NonSequential,),
        6,
    );
}

#[test]
fn ws0_sequential_word_is_two_second_accesses() {
    let wait = WaitControl::new();

    assert_eq!(
        wait.access_cycles(0x0800_0004, AccessWidth::Word, AccessKind::Sequential,),
        4,
    );
}

#[test]
fn sram_width_scales_8_bit_accesses() {
    let wait = WaitControl::new();

    assert_eq!(
        wait.access_cycles(0x0E00_0000, AccessWidth::Byte, AccessKind::NonSequential,),
        4,
    );

    assert_eq!(
        wait.access_cycles(
            0x0E00_0000,
            AccessWidth::Halfword,
            AccessKind::NonSequential,
        ),
        8,
    );

    assert_eq!(
        wait.access_cycles(0x0E00_0000, AccessWidth::Word, AccessKind::NonSequential,),
        16,
    );
}

