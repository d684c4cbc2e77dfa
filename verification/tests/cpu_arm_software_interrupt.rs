use running_man_advance::cpu::arm::{SoftwareInterruptInstruction, decode_software_interrupt};

use running_man_advance::cpu::arm::ArmCondition;

#[test]
fn decodes_software_interrupt() {
    assert_eq!(
        decode_software_interrupt(0xEF12_3456,),
        Ok(SoftwareInterruptInstruction {
            condition: ArmCondition::Always,

            comment: 0x0012_3456,
        })
    );
}

