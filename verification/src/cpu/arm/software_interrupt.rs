use vstd::prelude::*;

use super::decoder::{condition_from_field, ArmCondition};

verus! {

#[derive(Debug, Clone, Copy, PartialEq, Eq, Structural)]
pub struct SoftwareInterruptInstruction {
    pub condition: ArmCondition,
    pub comment: u32,
}

#[derive(Debug, Clone, Copy, PartialEq, Eq, Structural)]
pub enum SoftwareInterruptDecodeError {
    InvalidEncoding,
}

/// Decodes SWI: `cond 1111 imm24`; the comment is the 24-bit field.
pub fn decode_software_interrupt(instruction: u32) -> (r: Result<
    SoftwareInterruptInstruction,
    SoftwareInterruptDecodeError,
>)
    ensures
        instruction & 0x0F00_0000 != 0x0F00_0000 ==> r == Err::<
            SoftwareInterruptInstruction,
            SoftwareInterruptDecodeError,
        >(SoftwareInterruptDecodeError::InvalidEncoding),
        instruction & 0x0F00_0000 == 0x0F00_0000 ==> r == Ok::<
            SoftwareInterruptInstruction,
            SoftwareInterruptDecodeError,
        >(
            SoftwareInterruptInstruction {
                condition: condition_from_field((instruction >> 28) as int),
                comment: instruction & 0x00FF_FFFF,
            },
        ),
{
    if instruction & 0x0F00_0000 != 0x0F00_0000 {
        return Err(SoftwareInterruptDecodeError::InvalidEncoding);
    }
    proof {
        super::decoder::lemma_condition_field(instruction);
    }
    Ok(
        SoftwareInterruptInstruction {
            condition: ArmCondition::from_bits((instruction >> 28) as u8),
            comment: instruction & 0x00FF_FFFF,
        },
    )
}

} // verus!
