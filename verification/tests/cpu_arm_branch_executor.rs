use running_man_advance::cpu::arm::{BranchExecutionResult, execute_branch};

use running_man_advance::cpu::{
    Registers,
    arm::{ArmCondition, BranchInstruction},
};

#[test]
fn branch_uses_instruction_address_plus_eight_as_base() {
    let mut registers = Registers::new();

    let instruction = BranchInstruction {
        condition: ArmCondition::Always,
        link: false,
        offset: 0,
    };

    let result = execute_branch(&mut registers, instruction, 0x0800_0000);

    assert_eq!(
        result,
        BranchExecutionResult {
            target: 0x0800_0008,
            link_register: None,
        }
    );

    assert_eq!(registers.pc(), 0x0800_0008);
}

#[test]
fn branch_applies_positive_offset() {
    let mut registers = Registers::new();

    let instruction = BranchInstruction {
        condition: ArmCondition::Always,
        link: false,
        offset: 0x40,
    };

    execute_branch(&mut registers, instruction, 0x0800_0000);

    assert_eq!(registers.pc(), 0x0800_0048);
}

#[test]
fn branch_applies_negative_offset() {
    let mut registers = Registers::new();

    let instruction = BranchInstruction {
        condition: ArmCondition::Always,
        link: false,
        offset: -8,
    };

    execute_branch(&mut registers, instruction, 0x0800_0010);

    /*
     * Base = 0x08000018
     * Offset = -8
     * Target = 0x08000010
     */
    assert_eq!(registers.pc(), 0x0800_0010);
}

#[test]
fn branch_to_self_uses_offset_negative_eight() {
    let mut registers = Registers::new();

    let instruction = BranchInstruction {
        condition: ArmCondition::Always,
        link: false,
        offset: -8,
    };

    execute_branch(&mut registers, instruction, 0x0200_0000);

    assert_eq!(registers.pc(), 0x0200_0000);
}

#[test]
fn branch_with_link_writes_next_instruction_to_lr() {
    let mut registers = Registers::new();

    let instruction = BranchInstruction {
        condition: ArmCondition::Always,
        link: true,
        offset: 0x100,
    };

    let result = execute_branch(&mut registers, instruction, 0x0800_0000);

    assert_eq!(registers.read(Registers::LR), 0x0800_0004);

    assert_eq!(result.link_register, Some(0x0800_0004));

    assert_eq!(registers.pc(), 0x0800_0108);
}

#[test]
fn ordinary_branch_does_not_modify_lr() {
    let mut registers = Registers::new();

    registers.write(Registers::LR, 0xDEAD_BEEF);

    let instruction = BranchInstruction {
        condition: ArmCondition::Always,
        link: false,
        offset: 0,
    };

    execute_branch(&mut registers, instruction, 0x0800_0000);

    assert_eq!(registers.read(Registers::LR), 0xDEAD_BEEF);
}

#[test]
fn branch_target_wraps_at_u32_boundary() {
    let mut registers = Registers::new();

    let instruction = BranchInstruction {
        condition: ArmCondition::Always,
        link: false,
        offset: 4,
    };

    execute_branch(&mut registers, instruction, 0xFFFF_FFFC);

    /*
     * Base wraps:
     *
     * 0xFFFFFFFC + 8 = 0x00000004
     *
     * Then offset +4 = 0x00000008.
     */
    assert_eq!(registers.pc(), 0x0000_0008);
}

