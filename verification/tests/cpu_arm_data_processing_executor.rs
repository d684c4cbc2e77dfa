use running_man_advance::cpu::arm::execute_data_processing;

use running_man_advance::cpu::{
    CpuMode, Registers,
    arm::{DataProcessingOpcode, decode_data_processing},
};

const TEST_INSTRUCTION_ADDRESS: u32 = 0x0200_0000;

fn execute(registers: &mut Registers, raw_instruction: u32) {
    let instruction = decode_data_processing(raw_instruction).unwrap();

    execute_data_processing(registers, instruction, TEST_INSTRUCTION_ADDRESS).unwrap();
}

#[test]
fn executes_mov_immediate() {
    let mut registers = Registers::new();

    // MOV R0, #1
    execute(&mut registers, 0xE3A0_0001);

    assert_eq!(registers.read(0), 1);
}

#[test]
fn executes_add_register() {
    let mut registers = Registers::new();

    registers.write(1, 10);
    registers.write(2, 20);

    // ADD R0, R1, R2
    execute(&mut registers, 0xE081_0002);

    assert_eq!(registers.read(0), 30);
}

#[test]
fn adds_and_updates_flags() {
    let mut registers = Registers::new();

    registers.write(1, 0xFFFF_FFFF);
    registers.write(2, 1);

    // ADDS R0, R1, R2
    execute(&mut registers, 0xE091_0002);

    assert_eq!(registers.read(0), 0);
    assert!(registers.cpsr().zero());
    assert!(registers.cpsr().carry());
    assert!(!registers.cpsr().negative());
    assert!(!registers.cpsr().overflow());
}

#[test]
fn detects_signed_addition_overflow() {
    let mut registers = Registers::new();

    registers.write(1, 0x7FFF_FFFF);
    registers.write(2, 1);

    // ADDS R0, R1, R2
    execute(&mut registers, 0xE091_0002);

    assert_eq!(registers.read(0), 0x8000_0000);
    assert!(registers.cpsr().negative());
    assert!(registers.cpsr().overflow());
    assert!(!registers.cpsr().carry());
}

#[test]
fn executes_subtraction() {
    let mut registers = Registers::new();

    registers.write(1, 10);
    registers.write(2, 3);

    // SUB R0, R1, R2
    execute(&mut registers, 0xE041_0002);

    assert_eq!(registers.read(0), 7);
}

#[test]
fn cmp_updates_flags_without_writing_destination() {
    let mut registers = Registers::new();

    registers.write(0, 0xCAFE_BABE);
    registers.write(1, 5);
    registers.write(2, 5);

    // CMP R1, R2
    execute(&mut registers, 0xE151_0002);

    assert_eq!(registers.read(0), 0xCAFE_BABE);
    assert!(registers.cpsr().zero());
    assert!(registers.cpsr().carry());
}

#[test]
fn logical_instruction_preserves_overflow() {
    let mut registers = Registers::new();

    registers.cpsr_mut().set_overflow(true);
    registers.write(1, 0xFFFF_0000);
    registers.write(2, 0x0F0F_0F0F);

    // ANDS R0, R1, R2
    execute(&mut registers, 0xE011_0002);

    assert_eq!(registers.read(0), 0x0F0F_0000);

    assert!(registers.cpsr().overflow());
}

#[test]
fn movs_uses_barrel_shifter_carry() {
    let mut registers = Registers::new();

    registers.write(1, 0x8000_0000);

    /*
     * MOVS R0, R1, LSL #1
     */
    execute(&mut registers, 0xE1B0_0081);

    assert_eq!(registers.read(0), 0);
    assert!(registers.cpsr().zero());
    assert!(registers.cpsr().carry());
}

#[test]
fn adc_uses_old_carry() {
    let mut registers = Registers::new();

    registers.write(1, 10);
    registers.write(2, 20);
    registers.cpsr_mut().set_carry(true);

    // ADC R0, R1, R2
    execute(&mut registers, 0xE0A1_0002);

    assert_eq!(registers.read(0), 31);
}

#[test]
fn sbc_uses_inverted_borrow_convention() {
    let mut registers = Registers::new();

    registers.write(1, 10);
    registers.write(2, 3);

    /*
     * C=0 means one borrow must be subtracted:
     *
     * 10 - 3 - 1 = 6
     */
    registers.cpsr_mut().set_carry(false);

    // SBC R0, R1, R2
    execute(&mut registers, 0xE0C1_0002);

    assert_eq!(registers.read(0), 6);
}

#[test]
fn test_opcode_does_not_write_rd() {
    for opcode in [
        DataProcessingOpcode::Tst,
        DataProcessingOpcode::Teq,
        DataProcessingOpcode::Cmp,
        DataProcessingOpcode::Cmn,
    ] {
        assert!(!opcode.writes_result());
    }
}

#[test]
fn movs_pc_lr_returns_from_exception() {
    let mut registers = Registers::new();

    registers.cpsr_mut().set_mode(CpuMode::System);

    registers.cpsr_mut().set_thumb_state(true);

    registers.cpsr_mut().set_zero(true);

    let original_cpsr = registers.cpsr();

    running_man_advance::cpu::enter_exception(
        &mut registers,
        running_man_advance::cpu::Exception::SoftwareInterrupt,
        0x0800_0102,
    )
    .unwrap();

    assert_eq!(registers.mode(), CpuMode::Supervisor);

    /*
     * MOVS PC, LR
     */
    let instruction = decode_data_processing(0xE1B0_F00E).unwrap();

    execute_data_processing(&mut registers, instruction, 0x0000_0008).unwrap();

    assert_eq!(registers.cpsr(), original_cpsr);

    assert_eq!(registers.pc(), 0x0800_0102);

    assert_eq!(registers.mode(), CpuMode::System);

    assert!(registers.cpsr().thumb_state());
}
#[test]
fn add_can_read_pc_as_rn() {
    let mut registers = Registers::new();

    /*
     * ADD R0, PC, #1
     *
     * At 0x00000114, ARM architectural PC is 0x0000011C.
     */
    let instruction = decode_data_processing(0xE28F_0001).unwrap();

    let result = execute_data_processing(&mut registers, instruction, 0x0000_0114).unwrap();

    assert_eq!(registers.read(0), 0x0000_011D);
    assert!(!result.branch);
}

#[test]
fn immediate_shift_can_read_pc_as_rm() {
    let mut registers = Registers::new();

    /*
     * MOV R0, PC
     */
    let instruction = decode_data_processing(0xE1A0_000F).unwrap();

    execute_data_processing(&mut registers, instruction, 0x0200_0000).unwrap();

    assert_eq!(registers.read(0), 0x0200_0008);
}

#[test]
fn register_shift_reads_pc_as_rm_plus_twelve() {
    let mut registers = Registers::new();
    registers.write(1, 0);

    /*
     * MOV R0, PC, LSL R1
     *
     * With a register-controlled shift, Rm=PC observes PC+12.
     */
    let instruction = decode_data_processing(0xE1A0_011F).unwrap();

    execute_data_processing(&mut registers, instruction, 0x0200_0000).unwrap();

    assert_eq!(registers.read(0), 0x0200_000C);
}

#[test]
fn ordinary_write_to_pc_reports_branch() {
    let mut registers = Registers::new();
    registers.write(0, 0x0800_0123);

    /*
     * MOV PC, R0
     */
    let instruction = decode_data_processing(0xE1A0_F000).unwrap();

    let result = execute_data_processing(&mut registers, instruction, 0x0200_0000).unwrap();

    assert!(result.branch);
    assert_eq!(registers.pc(), 0x0800_0120);
}

