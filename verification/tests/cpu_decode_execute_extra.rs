use running_man_advance::bus::Bus;
use running_man_advance::cpu::arm::{
    decode_arm, execute_arm, ArmCondition, ArmDecodeError, ArmExecutionError, ArmInstruction,
    BranchExchangeExecutionError, DataProcessingDecodeError, MultiplyDecodeError,
    SingleDataTransferDecodeError,
};
use running_man_advance::cpu::arm::block_data_transfer::BlockDataTransferDecodeError;
use running_man_advance::cpu::{Cpu, CpuMode, CpuState, Registers};

#[test]
fn msr_word_is_reported_as_special_data_processing() {
    assert_eq!(
        decode_arm(0xE121_F000),
        Err(ArmDecodeError::DataProcessing(DataProcessingDecodeError::Special))
    );
}

#[test]
fn mul_with_accumulate_register_is_refused() {
    assert_eq!(
        decode_arm(0xE000_1291),
        Err(ArmDecodeError::Multiply(MultiplyDecodeError::NonZeroAccumulateRegisterForMul))
    );
}

#[test]
fn pc_as_offset_register_is_refused() {
    assert_eq!(
        decode_arm(0xE790_000F),
        Err(ArmDecodeError::SingleDataTransfer(
            SingleDataTransferDecodeError::ProgramCounterAsOffsetRegister
        ))
    );
}

#[test]
fn decoded_instruction_keeps_condition_field() {
    for condition_bits in 0..15u32 {
        let raw = (condition_bits << 28) | 0x0A00_0000;
        let decoded = decode_arm(raw).unwrap();
        let expected = decode_arm((condition_bits << 28) | 0x0F00_0000)
            .unwrap()
            .condition();
        assert_eq!(decoded.condition(), expected);
    }
}

#[test]
fn swap_is_not_implemented_and_changes_nothing() {
    let mut registers = Registers::new();
    let mut bus = Bus::new();
    let instruction = decode_arm(0xE100_0091).unwrap();
    assert!(matches!(instruction, ArmInstruction::SingleDataSwap { .. }));
    let before_pc = registers.pc();
    assert_eq!(
        execute_arm(&mut registers, &mut bus, &instruction, 0),
        Err(ArmExecutionError::UnimplementedInstruction)
    );
    assert_eq!(registers.pc(), before_pc);
}

#[test]
fn bx_pc_is_refused() {
    let mut registers = Registers::new();
    let mut bus = Bus::new();
    let instruction = decode_arm(0xE12F_FF1F).unwrap();
    assert_eq!(
        execute_arm(&mut registers, &mut bus, &instruction, 0),
        Err(ArmExecutionError::BranchExchange(
            BranchExchangeExecutionError::ProgramCounterAsSourceNotSupported
        ))
    );
}

#[test]
fn empty_block_transfer_is_refused() {
    let mut registers = Registers::new();
    let mut bus = Bus::new();
    let instruction = ArmInstruction::BlockDataTransfer {
        condition: ArmCondition::Always,
        raw: 0xE890_0000,
    };
    assert_eq!(
        execute_arm(&mut registers, &mut bus, &instruction, 0),
        Err(ArmExecutionError::BlockDataTransferDecode(
            BlockDataTransferDecodeError::EmptyRegisterList
        ))
    );
}

#[test]
fn arm_software_interrupt_enters_supervisor_with_return_address() {
    let mut registers = Registers::new();
    registers.cpsr_mut().set_mode(CpuMode::System);
    let mut bus = Bus::new();
    let instruction = decode_arm(0xEF00_0001).unwrap();
    execute_arm(&mut registers, &mut bus, &instruction, 0x0200_0000).unwrap();
    assert_eq!(registers.mode(), CpuMode::Supervisor);
    assert_eq!(registers.pc(), 0x0000_0008);
    assert_eq!(registers.read(Registers::LR), 0x0200_0004);
}

#[test]
fn cpu_runs_msr_through_the_status_register_path() {
    let mut cpu = Cpu::new();
    let mut bus = Bus::new();
    // MOV R0, #0x1F ; MSR CPSR_c, R0
    bus.write32(0x0200_0000, 0xE3A0_001F);
    bus.write32(0x0200_0004, 0xE121_F000);
    cpu.registers_mut().set_pc(0x0200_0000);
    cpu.step(&mut bus);
    cpu.step(&mut bus);
    assert_eq!(cpu.registers().mode(), CpuMode::System);
    assert_eq!(cpu.registers().pc(), 0x0200_0008);
}

#[test]
fn cpu_executes_thumb_instructions_in_thumb_state() {
    let mut cpu = Cpu::new();
    let mut bus = Bus::new();
    // MOV R1, #5
    bus.write16(0x0200_0000, 0x2105);
    cpu.registers_mut().set_pc(0x0200_0000);
    cpu.registers_mut().cpsr_mut().set_thumb_state(true);
    assert_eq!(cpu.state(), CpuState::Thumb);
    assert_eq!(cpu.step(&mut bus), 1);
    assert_eq!(cpu.registers().read(1), 5);
    assert_eq!(cpu.registers().pc(), 0x0200_0002);
}

#[test]
fn halted_cpu_without_pending_interrupt_does_nothing() {
    let mut cpu = Cpu::new();
    let mut bus = Bus::new();
    bus.write32(0x0200_0000, 0xE3A0_002A);
    cpu.registers_mut().set_pc(0x0200_0000);
    cpu.enter_halt();
    assert_eq!(cpu.step(&mut bus), 1);
    assert!(cpu.is_halted());
    assert_eq!(cpu.registers().read(0), 0);
    assert_eq!(cpu.registers().pc(), 0x0200_0000);
}

#[test]
fn undecodable_thumb_halfword_is_skipped() {
    let mut cpu = Cpu::new();
    let mut bus = Bus::new();
    // Conditional branch with the undefined condition 1110.
    bus.write16(0x0200_0000, 0xDE00);
    cpu.registers_mut().set_pc(0x0200_0000);
    cpu.registers_mut().cpsr_mut().set_thumb_state(true);
    cpu.step(&mut bus);
    assert_eq!(cpu.registers().pc(), 0x0200_0002);
}
