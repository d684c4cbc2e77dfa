use running_man_advance::cpu::Cpu;
use running_man_advance::cpu::Registers;
use running_man_advance::bus::Bus;

#[test]
fn arm_step_fetches_instruction_and_advances_pc() {
    let mut cpu = Cpu::new();
    let mut bus = Bus::new();

    bus.write32(0, 0xE1A0_0000);

    let cycles = cpu.step(&mut bus);

    assert_eq!(cycles, 1);
    assert_eq!(cpu.registers().pc(), 4);
}

#[test]
fn failed_conditional_branch_is_not_taken() {
    let mut cpu = Cpu::new();
    let mut bus = Bus::new();

    /*
     * BEQ +0
     *
     * Z is clear, so branch is not taken.
     */
    bus.write32(0x0200_0000, 0x0A00_0000);

    cpu.registers_mut().set_pc(0x0200_0000);

    cpu.registers_mut().cpsr_mut().set_zero(false);

    cpu.step(&mut bus);

    assert_eq!(cpu.registers().pc(), 0x0200_0004);
}

#[test]
fn passed_conditional_branch_is_taken() {
    let mut cpu = Cpu::new();
    let mut bus = Bus::new();

    // BEQ +0
    bus.write32(0x0200_0000, 0x0A00_0000);

    cpu.registers_mut().set_pc(0x0200_0000);

    cpu.registers_mut().cpsr_mut().set_zero(true);

    cpu.step(&mut bus);

    assert_eq!(cpu.registers().pc(), 0x0200_0008);
}

#[test]
fn branch_negative_eight_branches_to_itself() {
    let mut cpu = Cpu::new();
    let mut bus = Bus::new();

    /*
     * B .
     *
     * Target = current PC.
     *
     * Architectural branch base is current + 8, so the encoded
     * displacement must be -8.
     *
     * imm24 = -2 = 0xFFFFFE.
     */
    bus.write32(0x0200_0000, 0xEAFF_FFFE);

    cpu.registers_mut().set_pc(0x0200_0000);

    cpu.step(&mut bus);

    assert_eq!(cpu.registers().pc(), 0x0200_0000);
}

#[test]
fn cpu_executes_arm_mov_immediate() {
    let mut cpu = Cpu::new();
    let mut bus = Bus::new();

    /*
     * MOV R0, #42
     */
    bus.write32(0x0200_0000, 0xE3A0_002A);

    cpu.registers_mut().set_pc(0x0200_0000);

    let cycles = cpu.step(&mut bus);

    assert_eq!(cycles, 1);
    assert_eq!(cpu.registers().read(0), 42);
    assert_eq!(cpu.registers().pc(), 0x0200_0004);
}

#[test]
fn cpu_executes_arm_branch() {
    let mut cpu = Cpu::new();
    let mut bus = Bus::new();

    /*
     * At 0x02000000:
     *
     * B +0
     *
     * Target:
     * current address + 8 + 0
     * = 0x02000008
     */
    bus.write32(0x0200_0000, 0xEA00_0000);

    cpu.registers_mut().set_pc(0x0200_0000);

    cpu.step(&mut bus);

    assert_eq!(cpu.registers().pc(), 0x0200_0008);
}

#[test]
fn cpu_executes_arm_branch_with_link() {
    let mut cpu = Cpu::new();
    let mut bus = Bus::new();

    /*
     * BL +4:
     *
     * imm24 = 1
     * displacement = 4
     *
     * target = current + 8 + 4
     *        = 0x0200000C
     *
     * LR = current + 4
     *    = 0x02000004
     */
    bus.write32(0x0200_0000, 0xEB00_0001);

    cpu.registers_mut().set_pc(0x0200_0000);

    cpu.step(&mut bus);

    assert_eq!(cpu.registers().pc(), 0x0200_000C);

    assert_eq!(cpu.registers().read(Registers::LR), 0x0200_0004);
}

