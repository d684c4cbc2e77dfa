use running_man_advance::bus::{
    Bus, CartridgeSaveType, GamePakGpio, IoRegisters, Ppu, RtcClock, TimerIndex, SAVE_BASE,
};
use running_man_advance::cpu::Registers;
use running_man_advance::gba::Gba;

#[test]
fn sram_holds_32_kib_and_mirrors_every_32_kib() {
    let mut gba = Gba::new();
    gba.load_rom(b"SRAM_V110").unwrap();
    assert_eq!(CartridgeSaveType::Sram.size(), 32 * 1024);
    assert_eq!(gba.cartridge_save_data().len(), 32 * 1024);
    gba.bus_mut().write8(SAVE_BASE + 0x4321, 0x7C);
    assert_eq!(gba.bus().read8(SAVE_BASE + 0x8000 + 0x4321), 0x7C);
}

#[test]
fn legacy_64_kib_sram_image_keeps_its_first_half() {
    let mut gba = Gba::new();
    gba.load_rom(b"SRAM_V110").unwrap();
    let mut legacy = vec![0xFF; 64 * 1024];
    legacy[0x1234] = 0x5A;
    legacy[32 * 1024 + 0x1234] = 0xA5;
    gba.load_cartridge_save(&legacy).unwrap();
    assert_eq!(gba.cartridge_save_data().len(), 32 * 1024);
    assert_eq!(gba.bus().read8(SAVE_BASE + 0x1234), 0x5A);
    assert!(!gba.cartridge_save_dirty());
    let error = gba.load_cartridge_save(&[0u8; 1000]).unwrap_err();
    assert_eq!(error.expected, 32 * 1024);
    assert_eq!(error.actual, 1000);
}

#[test]
fn io_block_powers_on_idle() {
    let io = IoRegisters::new();
    assert_eq!(io.read16(IoRegisters::TM0CNT_L_OFFSET), 0);
    assert_eq!(io.timers().timer(TimerIndex::Timer0).reload(), 0);
    assert_eq!(io.read16(IoRegisters::IE_OFFSET), 0);
    assert_eq!(io.read16(0x0088), 0x0200);
}

#[test]
fn reset_clears_interrupt_registers_and_video_memory() {
    let mut bus = Bus::new();
    bus.write16(0x0400_0200, 0x0001);
    bus.write16(0x0400_0208, 1);
    bus.io_mut().request_interrupt(running_man_advance::bus::InterruptSource::VBlank);
    bus.write16(0x0500_0000, 0x7FFF);
    bus.reset();
    assert_eq!(bus.read16(0x0400_0200), 0);
    assert_eq!(bus.read16(0x0400_0202), 0);
    assert_eq!(bus.read16(0x0400_0208), 0);
    assert_eq!(bus.read16(0x0500_0000), 0);
}

#[test]
fn ppu_ticks_add_up() {
    let mut whole = Ppu::new();
    let mut parts = Ppu::new();
    let r = whole.tick(300_000);
    let ra = parts.tick(123_456);
    let rb = parts.tick(300_000 - 123_456);
    assert_eq!(whole, parts);
    assert_eq!(r.hblank_starts, ra.hblank_starts + rb.hblank_starts);
    assert_eq!(r.vblank_starts, ra.vblank_starts + rb.vblank_starts);
    assert_eq!(r.new_frames, ra.new_frames + rb.new_frames);
    assert_eq!(r.interrupt_requests, ra.interrupt_requests | rb.interrupt_requests);
}

#[test]
fn low_registers_and_pc_are_written_whatever_the_mode() {
    let mut registers = Registers::new();
    registers.set_cpsr_raw(0x0000_0000);
    registers.write(3, 0x1234);
    registers.write(15, 0x0800_0000);
    assert_eq!(registers.read(3), 0x1234);
    assert_eq!(registers.pc(), 0x0800_0000);
}

#[test]
fn a_cartridge_rtc_reads_the_host_clock() {
    let gpio = GamePakGpio::from_rom(b"SIIRTC_V");
    let clock = gpio.rtc.as_ref().unwrap().clock;
    assert_eq!(clock, RtcClock::HostLocal);
    let now = clock.now();
    assert!((1..=12).contains(&now.month));
    assert!((1..=31).contains(&now.day));
    assert!(now.weekday <= 6 && now.hour <= 23 && now.minute <= 59 && now.second <= 59);
}
