use running_man_advance::bus::{Bus, BusLoadError};
use running_man_advance::cpu::thumb::{execute_thumb, ThumbInstruction};
use running_man_advance::cpu::Registers;
use running_man_advance::diagnostics::run_headless;
use running_man_advance::gba::{Gba, HALT_QUANTUM};
use running_man_advance::host::{
    next_debug_cycle_after, save_flush_due, DEBUG_INTERVAL_CYCLES, SAVE_FLUSH_INTERVAL_CYCLES,
};

#[test]
fn halted_machine_idles_for_a_quantum() {
    let mut gba = Gba::new();
    gba.registers_mut().set_pc(0x0200_0000);
    gba.cpu_mut().enter_halt();
    assert_eq!(gba.step(), HALT_QUANTUM);
    assert_eq!(gba.elapsed_cycles(), 32);
    assert!(gba.cpu().is_halted());
}

#[test]
fn with_images_refuses_a_short_bios() {
    let error = Gba::with_images(&[0; 16], &[]).unwrap_err();
    assert_eq!(
        error,
        BusLoadError::InvalidBiosSize {
            expected: 0x4000,
            actual: 16
        }
    );
}

#[test]
fn with_images_accepts_sized_images() {
    let gba = Gba::with_images(&vec![0; 0x4000], &[1, 2, 3, 4]).unwrap();
    assert_eq!(gba.bus().read8(0x0800_0002), 3);
    assert_eq!(gba.elapsed_cycles(), 0);
}

#[test]
fn run_until_frame_stops_at_vblank_and_consumes_the_flag() {
    let mut gba = Gba::new();
    // B . at the work RAM start.
    gba.bus_mut().write32(0x0200_0000, 0xEAFF_FFFE);
    gba.registers_mut().set_pc(0x0200_0000);
    let cycles = gba.run_until_frame();
    assert!(cycles > 0);
    assert!(cycles <= Gba::MAX_CYCLES_WITHOUT_FRAME + 1);
    assert!(!gba.frame_ready());
    assert_eq!(cycles, gba.elapsed_cycles());
}

#[test]
fn resume_lets_a_stopped_machine_run_again() {
    let mut gba = Gba::new();
    gba.bus_mut().write32(0x0200_0000, 0xE1A0_0000);
    gba.registers_mut().set_pc(0x0200_0000);
    gba.stop();
    assert_eq!(gba.run_cycles(10), 0);
    gba.resume();
    assert_eq!(gba.step(), 1);
}

#[test]
fn push_of_empty_list_changes_nothing() {
    let mut registers = Registers::new();
    let mut bus = Bus::new();
    registers.write(Registers::SP, 0x0300_7F00);
    let result = execute_thumb(
        &mut registers,
        &mut bus,
        &ThumbInstruction::Push {
            registers: 0,
            include_link_register: false,
        },
        0x0800_0000,
    )
    .unwrap();
    assert_eq!(result.cycles, 1);
    assert_eq!(registers.read(Registers::SP), 0x0300_7F00);
}

#[test]
fn ldmia_with_base_in_list_keeps_loaded_base() {
    let mut registers = Registers::new();
    let mut bus = Bus::new();
    bus.write32(0x0200_0100, 0x1111_1111);
    bus.write32(0x0200_0104, 0x2222_2222);
    registers.write(0, 0x0200_0100);
    execute_thumb(
        &mut registers,
        &mut bus,
        &ThumbInstruction::MultipleTransfer {
            load: true,
            base_register: 0,
            registers: 0b11,
        },
        0x0800_0000,
    )
    .unwrap();
    assert_eq!(registers.read(0), 0x1111_1111);
    assert_eq!(registers.read(1), 0x2222_2222);
}

#[test]
fn long_branch_pair_law_on_concrete_values() {
    let mut registers = Registers::new();
    let mut bus = Bus::new();
    let first = ThumbInstruction::LongBranchWithLink {
        half: running_man_advance::cpu::thumb::ThumbLongBranchHalf::First,
        offset: -0x1000,
    };
    let second = ThumbInstruction::LongBranchWithLink {
        half: running_man_advance::cpu::thumb::ThumbLongBranchHalf::Second,
        offset: 6,
    };
    execute_thumb(&mut registers, &mut bus, &first, 0x0800_2000).unwrap();
    execute_thumb(&mut registers, &mut bus, &second, 0x0800_2002).unwrap();
    assert_eq!(registers.pc(), 0x0800_100A);
    assert_eq!(registers.read(Registers::LR), 0x0800_2005);
}

#[test]
fn next_debug_cycle_skips_passed_report_points() {
    assert_eq!(next_debug_cycle_after(5_000_000, 10), 5_000_000);
    assert_eq!(
        next_debug_cycle_after(DEBUG_INTERVAL_CYCLES, 3_500_000),
        4_000_000
    );
    assert_eq!(
        next_debug_cycle_after(DEBUG_INTERVAL_CYCLES, DEBUG_INTERVAL_CYCLES),
        2 * DEBUG_INTERVAL_CYCLES
    );
    assert_eq!(next_debug_cycle_after(u64::MAX - 10, u64::MAX - 5), u64::MAX);
}

#[test]
fn headless_run_watches_a_word() {
    let mut gba = Gba::new();
    // ADD R0, R0, #1 ; STR R0, [R1] ; B back to the ADD
    gba.bus_mut().write32(0x0200_0000, 0xE280_0001);
    gba.bus_mut().write32(0x0200_0004, 0xE581_0000);
    gba.bus_mut().write32(0x0200_0008, 0xEAFF_FFFC);
    gba.registers_mut().write(1, 0x0300_0000);
    gba.registers_mut().set_pc(0x0200_0000);
    let run = run_headless(&mut gba, 9, Some(0x0300_0000));
    assert_eq!(run.consumed, 9);
    let stats = run.watch.unwrap();
    assert_eq!(stats.last, 3);
    assert_eq!(stats.changes, 3);
    assert_eq!(stats.rising_edges[0], 2);
    assert_eq!(stats.rising_edges[1], 1);
}

#[test]
fn pop_counts_each_load_and_one_internal_cycle() {
    let mut registers = Registers::new();
    let mut bus = Bus::new();
    registers.write(Registers::SP, 0x0300_7F00);
    bus.write32(0x0300_7F00, 7);
    bus.write32(0x0300_7F04, 9);
    let result = execute_thumb(
        &mut registers,
        &mut bus,
        &ThumbInstruction::Pop {
            registers: 0b101,
            include_program_counter: false,
        },
        0x0800_0000,
    )
    .unwrap();
    assert_eq!(result.cycles, 3);
    assert_eq!(registers.read(0), 7);
    assert_eq!(registers.read(2), 9);
    assert_eq!(registers.read(Registers::SP), 0x0300_7F08);
}

#[test]
fn push_counts_each_store() {
    let mut registers = Registers::new();
    let mut bus = Bus::new();
    registers.write(Registers::SP, 0x0300_7F00);
    registers.write(0, 7);
    registers.write(Registers::LR, 9);
    let result = execute_thumb(
        &mut registers,
        &mut bus,
        &ThumbInstruction::Push {
            registers: 0b1,
            include_link_register: true,
        },
        0x0800_0000,
    )
    .unwrap();
    assert_eq!(result.cycles, 2);
    assert_eq!(registers.read(Registers::SP), 0x0300_7EF8);
    assert_eq!(bus.read32(0x0300_7EF8), 7);
    assert_eq!(bus.read32(0x0300_7EFC), 9);
}

#[test]
fn push_then_pop_restores_registers_on_an_ewram_stack() {
    let mut registers = Registers::new();
    let mut bus = Bus::new();
    registers.write(Registers::SP, 0x0203_FF00);
    registers.write(1, 0x1111_1111);
    registers.write(3, 0x3333_3333);
    execute_thumb(
        &mut registers,
        &mut bus,
        &ThumbInstruction::Push {
            registers: 0b1010,
            include_link_register: false,
        },
        0x0800_0000,
    )
    .unwrap();
    assert_eq!(registers.read(Registers::SP), 0x0203_FEF8);
    registers.write(1, 0);
    registers.write(3, 0);
    let result = execute_thumb(
        &mut registers,
        &mut bus,
        &ThumbInstruction::Pop {
            registers: 0b1010,
            include_program_counter: false,
        },
        0x0800_0002,
    )
    .unwrap();
    assert!(!result.branch);
    assert_eq!(registers.read(1), 0x1111_1111);
    assert_eq!(registers.read(3), 0x3333_3333);
    assert_eq!(registers.read(Registers::SP), 0x0203_FF00);
}

#[test]
fn writes_never_change_bios_or_rom() {
    let mut bus = Bus::new();
    bus.load_rom(&[0x11, 0x22, 0x33, 0x44]).unwrap();
    bus.write32(0x0000_0000, 0xFFFF_FFFF);
    bus.write8(0x0800_0000, 0xAA);
    assert_eq!(bus.read32(0x0000_0000), 0);
    assert_eq!(bus.read8(0x0800_0000), 0x11);
}

#[test]
fn work_ram_reads_back_through_its_mirror() {
    let mut bus = Bus::new();
    bus.write32(0x0300_0010, 0x1234_5678);
    assert_eq!(bus.read32(0x0300_8010), 0x1234_5678);
    bus.write32(0x0204_0020, 0xCAFE_F00D);
    assert_eq!(bus.read32(0x0200_0020), 0xCAFE_F00D);
}

#[test]
fn video_memory_words_read_back_through_their_mirrors() {
    let mut bus = Bus::new();
    bus.write32(0x0500_0010, 0x0123_4567);
    assert_eq!(bus.read32(0x0500_0410), 0x0123_4567);
    bus.write32(0x0601_8004, 0x89AB_CDEF);
    assert_eq!(bus.read32(0x0601_0004), 0x89AB_CDEF);
    bus.write32(0x0700_0020, 0x5555_AAAA);
    assert_eq!(bus.read32(0x0700_0420), 0x5555_AAAA);
}

#[test]
fn a_changed_save_is_flushed_every_five_emulated_seconds() {
    assert_eq!(SAVE_FLUSH_INTERVAL_CYCLES, 5 * 16_777_216);
    assert!(!save_flush_due(0, 0));
    assert!(!save_flush_due(1_000, 1_000 + SAVE_FLUSH_INTERVAL_CYCLES - 1));
    assert!(save_flush_due(1_000, 1_000 + SAVE_FLUSH_INTERVAL_CYCLES));
    assert!(save_flush_due(500, 10));
}
