use running_man_advance::gba::Gba;

use running_man_advance::{
    bus::{Bus, InterruptSource, Key},
    cpu::{CpuMode, Registers},
};

#[test]
fn new_machine_starts_without_elapsed_cycles() {
    let gba = Gba::new();

    assert_eq!(gba.elapsed_cycles(), 0);
    assert!(!gba.is_stopped());
}

#[test]
fn step_executes_cpu_and_advances_bus_timers() {
    let mut gba = Gba::new();

    /*
     * ARM NOP:
     *
     * MOV R0, R0
     */
    gba.bus_mut().write32(0x0200_0000, 0xE1A0_0000);

    gba.registers_mut().set_pc(0x0200_0000);

    /*
     * Timer 0:
     *
     * reload = 0
     * prescaler = 1
     * enabled
     */
    gba.bus_mut().write16(Bus::REG_TM0CNT_L, 0);

    gba.bus_mut().write16(Bus::REG_TM0CNT_H, 1 << 7);

    let cycles = gba.step();

    assert_eq!(gba.elapsed_cycles(), cycles as u64,);

    assert_eq!(gba.bus().read16(Bus::REG_TM0CNT_L,), cycles as u16,);

    assert_eq!(gba.registers().pc(), 0x0200_0004,);
}

#[test]
fn timer_irq_is_sampled_on_following_step() {
    let mut gba = Gba::new();

    /*
     * Two ARM NOP instructions.
     */
    gba.bus_mut().write32(0x0200_0000, 0xE1A0_0000);

    gba.bus_mut().write32(0x0200_0004, 0xE1A0_0000);

    gba.registers_mut().cpsr_mut().set_mode(CpuMode::System);

    gba.registers_mut().cpsr_mut().set_irq_disabled(false);

    gba.registers_mut().set_pc(0x0200_0000);

    gba.bus_mut()
        .write16(Bus::REG_IE, InterruptSource::Timer0.mask());

    gba.bus_mut().write16(Bus::REG_IME, 1);

    /*
     * Overflow after one timer increment.
     */
    gba.bus_mut().write16(Bus::REG_TM0CNT_L, 0xFFFF);

    gba.bus_mut()
        .write16(Bus::REG_TM0CNT_H, (1 << 7) | (1 << 6));

    /*
     * Execute one instruction, then Gba::step ticks Timer0.
     */
    gba.step();

    assert_eq!(gba.registers().mode(), CpuMode::System,);

    assert!(gba.bus().irq_line());

    /*
     * IRQ is sampled before the next instruction fetch.
     */
    gba.step();

    assert_eq!(gba.registers().mode(), CpuMode::Irq,);

    assert_eq!(gba.registers().pc(), 0x0000_0018,);

    assert_eq!(gba.registers().read(Registers::LR), 0x0200_0008,);
}

#[test]
fn vblank_irq_runs_guest_handler_and_sets_memory_flag() {
    const APPLICATION: u32 = 0x0200_0000;
    const HANDLER: u32 = 0x0200_0100;
    const FLAG: u32 = 0x0300_0100;

    let mut gba = Gba::new();
    let mut bios = vec![0u8; 0x4000];

    /*
     * Minimal IRQ vector trampoline:
     *
     * 0x18: B   0x20
     * 0x20: LDR R0, [PC]
     * 0x24: BX  R0
     * 0x28: handler address
     */
    bios[0x18..0x1C].copy_from_slice(&0xEA00_0000u32.to_le_bytes());
    bios[0x20..0x24].copy_from_slice(&0xE59F_0000u32.to_le_bytes());
    bios[0x24..0x28].copy_from_slice(&0xE12F_FF10u32.to_le_bytes());
    bios[0x28..0x2C].copy_from_slice(&HANDLER.to_le_bytes());

    gba.load_bios(&bios).unwrap();

    /*
     * Application waits in place while PPU timing reaches VBlank.
     */
    gba.bus_mut().write32(APPLICATION, 0xEAFF_FFFE);

    /*
     * Guest IRQ handler:
     *
     * LDR  R0, [PC, #0x18]  ; FLAG
     * MOV  R1, #1
     * STR  R1, [R0]
     * LDR  R0, [PC, #0x10]  ; IF
     * STRH R1, [R0]         ; acknowledge VBlank
     * SUBS PC, LR, #4       ; exception return
     */
    gba.bus_mut().write32(HANDLER, 0xE59F_0018);
    gba.bus_mut().write32(HANDLER + 0x04, 0xE3A0_1001);
    gba.bus_mut().write32(HANDLER + 0x08, 0xE580_1000);
    gba.bus_mut().write32(HANDLER + 0x0C, 0xE59F_0010);
    gba.bus_mut().write32(HANDLER + 0x10, 0xE1C0_10B0);
    gba.bus_mut().write32(HANDLER + 0x14, 0xE25E_F004);
    gba.bus_mut().write32(HANDLER + 0x20, FLAG);
    gba.bus_mut().write32(HANDLER + 0x24, Bus::REG_IF);

    gba.registers_mut().cpsr_mut().set_mode(CpuMode::System);
    gba.registers_mut().cpsr_mut().set_irq_disabled(false);
    gba.registers_mut().set_pc(APPLICATION);

    gba.bus_mut().write16(Bus::REG_DISPSTAT, 1 << 3);
    gba.bus_mut()
        .write16(Bus::REG_IE, InterruptSource::VBlank.mask());
    gba.bus_mut().write16(Bus::REG_IME, 1);

    gba.run_cycles(250_000);

    assert_eq!(gba.bus().read32(FLAG), 1);
    assert_eq!(
        gba.bus().read16(Bus::REG_IF) & InterruptSource::VBlank.mask(),
        0,
    );
    assert_eq!(gba.registers().mode(), CpuMode::System);
}

#[test]
fn run_steps_returns_consumed_cycles() {
    let mut gba = Gba::new();

    for index in 0..4 {
        gba.bus_mut().write32(0x0200_0000 + index * 4, 0xE1A0_0000);
    }

    gba.registers_mut().set_pc(0x0200_0000);

    let cycles = gba.run_steps(4);

    assert_eq!(cycles, gba.elapsed_cycles(),);

    assert_eq!(gba.registers().pc(), 0x0200_0010,);
}

#[test]
fn stopped_machine_does_not_advance() {
    let mut gba = Gba::new();

    gba.stop();

    assert_eq!(gba.step(), 0);
    assert_eq!(gba.elapsed_cycles(), 0);
}

#[test]
fn gba_runs_pending_dma_before_cpu() {
    let mut gba = Gba::new();

    /*
     * CPU instruction that must not run while DMA is pending.
     *
     * MOV R0, #42
     */
    gba.bus_mut().write32(0x0200_0000, 0xE3A0_002A);

    gba.registers_mut().set_pc(0x0200_0000);

    gba.bus_mut().write16(0x0200_0100, 0xCAFE);

    gba.bus_mut().write32(Bus::REG_DMA0SAD, 0x0200_0100);

    gba.bus_mut().write32(Bus::REG_DMA0DAD, 0x0300_0100);

    gba.bus_mut().write16(Bus::REG_DMA0CNT_L, 1);

    gba.bus_mut().write16(Bus::REG_DMA0CNT_H, 1 << 15);

    /*
     * DMA runs. CPU must not execute MOV.
     */
    gba.step();

    assert_eq!(gba.bus().read16(0x0300_0100), 0xCAFE);

    assert_eq!(gba.registers().read(0), 0);

    assert_eq!(gba.registers().pc(), 0x0200_0000);

    /*
     * No DMA remains, so CPU now executes MOV.
     */
    gba.step();

    assert_eq!(gba.registers().read(0), 42);

    assert_eq!(gba.registers().pc(), 0x0200_0004);
}

#[test]
fn guest_can_enter_halt_through_haltcnt() {
    let mut gba = Gba::new();

    /*
     * STRB R0, [R1]
     */
    gba.bus_mut().write32(0x0200_0000, 0xE5C1_0000);

    gba.registers_mut().write(0, 0);

    gba.registers_mut().write(1, Bus::REG_HALTCNT);

    gba.registers_mut().set_pc(0x0200_0000);

    gba.step();

    assert!(gba.cpu().is_halted(),);

    assert_eq!(gba.registers().pc(), 0x0200_0004,);
}

#[test]
fn keypad_interrupt_wakes_halted_cpu() {
    let mut gba = Gba::new();

    /*
     * NOP at resume address.
     */
    gba.bus_mut().write32(0x0200_0000, 0xE1A0_0000);

    gba.registers_mut().set_pc(0x0200_0000);

    /*
     * Enable Keypad in IE.
     *
     * Deliberately leave IME clear to prove that IE&IF can wake HALT
     * without necessarily entering IRQ.
     */
    gba.bus_mut()
        .write16(Bus::REG_IE, InterruptSource::Keypad.mask());

    gba.bus_mut()
        .write16(Bus::REG_KEYCNT, Key::Start.mask() | (1 << 14));

    gba.cpu_mut().enter_halt();

    let old_pc = gba.registers().pc();

    /*
     * No interrupt yet, so CPU remains halted.
     */
    gba.step();

    assert!(gba.cpu().is_halted(),);

    assert_eq!(gba.registers().pc(), old_pc,);

    /*
     * Start press sets IF.Keypad.
     */
    gba.press_key(Key::Start);

    assert!(gba.bus().halt_wake_requested(),);

    /*
     * IME is zero, so CPU wakes but does not enter IRQ.
     * It executes the NOP at the resume address.
     */
    gba.step();

    assert!(!gba.cpu().is_halted(),);

    assert_eq!(gba.registers().pc(), 0x0200_0004,);
}

#[test]
fn keypad_interrupt_can_wake_halt_and_enter_irq() {
    let mut gba = Gba::new();

    gba.registers_mut().cpsr_mut().set_mode(CpuMode::System);

    gba.registers_mut().cpsr_mut().set_irq_disabled(false);

    gba.registers_mut().set_pc(0x0200_0000);

    gba.bus_mut()
        .write16(Bus::REG_IE, InterruptSource::Keypad.mask());

    gba.bus_mut().write16(Bus::REG_IME, 1);

    gba.bus_mut()
        .write16(Bus::REG_KEYCNT, Key::Start.mask() | (1 << 14));

    gba.cpu_mut().enter_halt();

    gba.press_key(Key::Start);

    gba.step();

    assert!(!gba.cpu().is_halted(),);

    assert_eq!(gba.registers().mode(), CpuMode::Irq,);

    assert_eq!(gba.registers().pc(), 0x0000_0018,);

    assert_ne!(
        gba.bus().read16(Bus::REG_IF) & InterruptSource::Keypad.mask(),
        0,
    );
}

#[test]
fn gba_exposes_mode3_framebuffer() {
    let mut gba = Gba::new();

    gba.bus_mut().write16(Bus::REG_DISPCNT, 3);

    gba.bus_mut().write16(0x0600_0000, 0x7C00);

    gba.bus_mut().tick(running_man_advance::bus::Ppu::HDRAW_CYCLES as u32);

    assert_eq!(gba.framebuffer()[0], 0xFF00_00FF,);
}

