use running_man_advance::cpu::thumb::execute_thumb;

use running_man_advance::{
    bus::Bus,
    cpu::{
        CpuMode, Registers,
        thumb::{
            ThumbAddSubtractOperand, ThumbAddSubtractOperation, ThumbCondition,
            ThumbHighRegisterOperation, ThumbImmediateOperation, ThumbInstruction,
            ThumbShiftOperation,
        },
    },
};

fn execute(
    registers: &mut Registers,
    instruction: ThumbInstruction,
    instruction_address: u32,
) -> running_man_advance::cpu::thumb::ThumbExecutionResult {
    let mut bus = Bus::new();

    execute_thumb(registers, &mut bus, &instruction, instruction_address).unwrap()
}

#[test]
fn lsl_updates_value_and_carry() {
    let mut registers = Registers::new();

    registers.write(0, 0x8000_0001);

    let result = execute(
        &mut registers,
        ThumbInstruction::MoveShiftedRegister {
            operation: ThumbShiftOperation::LogicalLeft,

            offset: 1,
            source: 0,
            destination: 1,
        },
        0x0800_0000,
    );

    assert_eq!(registers.read(1), 0x0000_0002,);

    assert!(registers.cpsr().carry(),);

    assert!(!result.branch);
}

#[test]
fn lsr_zero_means_shift_by_thirty_two() {
    let mut registers = Registers::new();

    registers.write(0, 0x8000_0000);

    execute(
        &mut registers,
        ThumbInstruction::MoveShiftedRegister {
            operation: ThumbShiftOperation::LogicalRight,

            offset: 0,
            source: 0,
            destination: 1,
        },
        0x0800_0000,
    );

    assert_eq!(registers.read(1), 0,);

    assert!(registers.cpsr().carry(),);

    assert!(registers.cpsr().zero(),);
}

#[test]
fn asr_zero_sign_extends() {
    let mut registers = Registers::new();

    registers.write(0, 0x8000_0000);

    execute(
        &mut registers,
        ThumbInstruction::MoveShiftedRegister {
            operation: ThumbShiftOperation::ArithmeticRight,

            offset: 0,
            source: 0,
            destination: 1,
        },
        0x0800_0000,
    );

    assert_eq!(registers.read(1), u32::MAX,);

    assert!(registers.cpsr().carry(),);

    assert!(registers.cpsr().negative(),);
}

#[test]
fn add_register_updates_flags() {
    let mut registers = Registers::new();

    registers.write(1, u32::MAX);

    registers.write(2, 1);

    execute(
        &mut registers,
        ThumbInstruction::AddSubtract {
            operation: ThumbAddSubtractOperation::Add,

            operand: ThumbAddSubtractOperand::Register(2),

            source: 1,
            destination: 0,
        },
        0x0800_0000,
    );

    assert_eq!(registers.read(0), 0,);

    assert!(registers.cpsr().zero(),);

    assert!(registers.cpsr().carry(),);
}

#[test]
fn subtract_sets_no_borrow_carry() {
    let mut registers = Registers::new();

    registers.write(1, 10);

    execute(
        &mut registers,
        ThumbInstruction::AddSubtract {
            operation: ThumbAddSubtractOperation::Subtract,

            operand: ThumbAddSubtractOperand::Immediate(3),

            source: 1,
            destination: 0,
        },
        0x0800_0000,
    );

    assert_eq!(registers.read(0), 7,);

    assert!(registers.cpsr().carry(),);
}

#[test]
fn mov_immediate_preserves_carry_and_overflow() {
    let mut registers = Registers::new();

    registers.cpsr_mut().set_carry(true);

    registers.cpsr_mut().set_overflow(true);

    execute(
        &mut registers,
        ThumbInstruction::Immediate {
            operation: ThumbImmediateOperation::Move,

            destination: 0,
            immediate: 0,
        },
        0x0800_0000,
    );

    assert_eq!(registers.read(0), 0,);

    assert!(registers.cpsr().zero(),);

    assert!(registers.cpsr().carry(),);

    assert!(registers.cpsr().overflow(),);
}

#[test]
fn compare_does_not_write_destination() {
    let mut registers = Registers::new();

    registers.write(0, 10);

    execute(
        &mut registers,
        ThumbInstruction::Immediate {
            operation: ThumbImmediateOperation::Compare,

            destination: 0,
            immediate: 10,
        },
        0x0800_0000,
    );

    assert_eq!(registers.read(0), 10,);

    assert!(registers.cpsr().zero(),);
}

#[test]
fn bx_switches_to_arm_state() {
    let mut registers = Registers::new();

    registers.cpsr_mut().set_thumb_state(true);

    registers.write(0, 0x0800_0100);

    let result = execute(
        &mut registers,
        ThumbInstruction::HighRegister {
            operation: ThumbHighRegisterOperation::BranchExchange,

            source: 0,
            destination: 0,
        },
        0x0800_0000,
    );

    assert!(result.branch);

    assert_eq!(registers.pc(), 0x0800_0100,);

    assert!(!registers.cpsr().thumb_state(),);
}

#[test]
fn bx_keeps_thumb_when_bit_zero_is_set() {
    let mut registers = Registers::new();

    registers.write(0, 0x0800_0101);

    execute(
        &mut registers,
        ThumbInstruction::HighRegister {
            operation: ThumbHighRegisterOperation::BranchExchange,

            source: 0,
            destination: 0,
        },
        0x0800_0000,
    );

    assert_eq!(registers.pc(), 0x0800_0100,);

    assert!(registers.cpsr().thumb_state(),);
}

#[test]
fn conditional_branch_is_taken() {
    let mut registers = Registers::new();

    registers.cpsr_mut().set_zero(true);

    let result = execute(
        &mut registers,
        ThumbInstruction::ConditionalBranch {
            condition: ThumbCondition::Equal,

            offset: 4,
        },
        0x0800_0000,
    );

    assert!(result.branch);

    assert_eq!(registers.pc(), 0x0800_0008,);
}

#[test]
fn conditional_branch_can_fail() {
    let mut registers = Registers::new();

    registers.cpsr_mut().set_zero(false);

    registers.set_pc(0x0800_0002);

    let result = execute(
        &mut registers,
        ThumbInstruction::ConditionalBranch {
            condition: ThumbCondition::Equal,

            offset: 4,
        },
        0x0800_0000,
    );

    assert!(!result.branch);

    assert_eq!(registers.pc(), 0x0800_0002,);
}

#[test]
fn unconditional_branch_uses_pc_plus_four() {
    let mut registers = Registers::new();

    execute(
        &mut registers,
        ThumbInstruction::UnconditionalBranch { offset: 4 },
        0x0800_0000,
    );

    assert_eq!(registers.pc(), 0x0800_0008,);
}

#[test]
fn thumb_swi_enters_supervisor_mode() {
    let mut registers = Registers::new();

    registers.cpsr_mut().set_mode(CpuMode::System);

    registers.cpsr_mut().set_thumb_state(true);

    let result = execute(
        &mut registers,
        ThumbInstruction::SoftwareInterrupt { comment: 0 },
        0x0800_0000,
    );

    assert!(result.branch);

    assert_eq!(registers.mode(), CpuMode::Supervisor,);

    assert_eq!(registers.pc(), 0x0000_0008,);

    assert_eq!(registers.read(Registers::LR,), 0x0800_0002,);

    assert!(!registers.cpsr().thumb_state(),);
}

#[test]
fn literal_load_uses_aligned_pc_plus_four() {
    let mut registers = Registers::new();
    let mut bus = Bus::new();
    bus.write32(0x0200_0108, 0x1234_5678);

    execute_thumb(
        &mut registers,
        &mut bus,
        &ThumbInstruction::LiteralLoad {
            destination: 0,
            offset: 4,
        },
        0x0200_0102,
    )
    .unwrap();

    assert_eq!(registers.read(0), 0x1234_5678);
}

#[test]
fn word_load_rotates_unaligned_value() {
    let mut registers = Registers::new();
    let mut bus = Bus::new();
    registers.write(1, 0x0200_0101);
    bus.write32(0x0200_0100, 0x1122_3344);

    execute_thumb(
        &mut registers,
        &mut bus,
        &ThumbInstruction::ImmediateOffsetTransfer {
            kind: running_man_advance::cpu::thumb::ThumbImmediateTransferKind::LoadWord,
            offset: 0,
            base_register: 1,
            destination: 0,
        },
        0,
    )
    .unwrap();

    assert_eq!(registers.read(0), 0x4411_2233);
}

#[test]
fn push_and_pop_round_trip_registers_and_pc() {
    let mut registers = Registers::new();
    let mut bus = Bus::new();
    registers.write(Registers::SP, 0x0300_7F00);
    registers.write(0, 0xAAAA_AAAA);
    registers.write(1, 0xBBBB_BBBB);
    registers.write(Registers::LR, 0x0800_0101);

    execute_thumb(
        &mut registers,
        &mut bus,
        &ThumbInstruction::Push {
            registers: 0b0000_0011,
            include_link_register: true,
        },
        0,
    )
    .unwrap();

    registers.write(0, 0);
    registers.write(1, 0);

    let result = execute_thumb(
        &mut registers,
        &mut bus,
        &ThumbInstruction::Pop {
            registers: 0b0000_0011,
            include_program_counter: true,
        },
        0,
    )
    .unwrap();

    assert!(result.branch);
    assert_eq!(registers.read(0), 0xAAAA_AAAA);
    assert_eq!(registers.read(1), 0xBBBB_BBBB);
    assert_eq!(registers.pc(), 0x0800_0100);
    assert_eq!(registers.read(Registers::SP), 0x0300_7F00);
}

#[test]
fn stmia_and_ldmia_transfer_register_list() {
    let mut registers = Registers::new();
    let mut bus = Bus::new();
    registers.write(0, 0x0200_0100);
    registers.write(1, 0x1111_1111);
    registers.write(2, 0x2222_2222);

    execute_thumb(
        &mut registers,
        &mut bus,
        &ThumbInstruction::MultipleTransfer {
            load: false,
            base_register: 0,
            registers: 0b0000_0110,
        },
        0,
    )
    .unwrap();

    assert_eq!(bus.read32(0x0200_0100), 0x1111_1111);
    assert_eq!(bus.read32(0x0200_0104), 0x2222_2222);
    assert_eq!(registers.read(0), 0x0200_0108);

    registers.write(3, 0x0200_0100);
    execute_thumb(
        &mut registers,
        &mut bus,
        &ThumbInstruction::MultipleTransfer {
            load: true,
            base_register: 3,
            registers: 0b0011_0000,
        },
        0,
    )
    .unwrap();

    assert_eq!(registers.read(4), 0x1111_1111);
    assert_eq!(registers.read(5), 0x2222_2222);
    assert_eq!(registers.read(3), 0x0200_0108);
}

#[test]
fn alu_adc_uses_carry_input() {
    let mut registers = Registers::new();
    registers.write(0, u32::MAX);
    registers.write(1, 0);
    registers.cpsr_mut().set_carry(true);

    execute(
        &mut registers,
        ThumbInstruction::Alu {
            operation: running_man_advance::cpu::thumb::ThumbAluOperation::AddWithCarry,
            source: 1,
            destination: 0,
        },
        0,
    );

    assert_eq!(registers.read(0), 0);
    assert!(registers.cpsr().zero());
    assert!(registers.cpsr().carry());
}

#[test]
fn alu_register_shift_zero_preserves_carry() {
    let mut registers = Registers::new();
    registers.write(0, 0x8000_0001);
    registers.write(1, 0);
    registers.cpsr_mut().set_carry(true);

    execute(
        &mut registers,
        ThumbInstruction::Alu {
            operation: running_man_advance::cpu::thumb::ThumbAluOperation::LogicalShiftRight,
            source: 1,
            destination: 0,
        },
        0,
    );

    assert_eq!(registers.read(0), 0x8000_0001);
    assert!(registers.cpsr().carry());
}

#[test]
fn alu_negate_sets_subtraction_flags() {
    let mut registers = Registers::new();
    registers.write(1, 1);

    execute(
        &mut registers,
        ThumbInstruction::Alu {
            operation: running_man_advance::cpu::thumb::ThumbAluOperation::Negate,
            source: 1,
            destination: 0,
        },
        0,
    );

    assert_eq!(registers.read(0), u32::MAX);
    assert!(registers.cpsr().negative());
    assert!(!registers.cpsr().carry());
}

#[test]
fn alu_multiply_writes_result_and_nz() {
    let mut registers = Registers::new();
    registers.write(0, 7);
    registers.write(1, 6);

    let result = execute(
        &mut registers,
        ThumbInstruction::Alu {
            operation: running_man_advance::cpu::thumb::ThumbAluOperation::Multiply,
            source: 1,
            destination: 0,
        },
        0,
    );

    assert_eq!(registers.read(0), 42);
    assert!(!registers.cpsr().zero());
    assert!(result.cycles >= 1);
}

#[test]
fn long_branch_with_link_builds_target_and_return_address() {
    let mut registers = Registers::new();
    registers.cpsr_mut().set_thumb_state(true);

    let first = execute(
        &mut registers,
        ThumbInstruction::LongBranchWithLink {
            half: running_man_advance::cpu::thumb::ThumbLongBranchHalf::First,
            offset: 0x1000,
        },
        0x0800_0000,
    );

    assert!(!first.branch);
    assert_eq!(registers.read(Registers::LR), 0x0800_1004);

    let second = execute(
        &mut registers,
        ThumbInstruction::LongBranchWithLink {
            half: running_man_advance::cpu::thumb::ThumbLongBranchHalf::Second,
            offset: 6,
        },
        0x0800_0002,
    );

    assert!(second.branch);
    assert_eq!(registers.pc(), 0x0800_100A);
    assert_eq!(registers.read(Registers::LR), 0x0800_0005);
    assert!(registers.cpsr().thumb_state());
}

