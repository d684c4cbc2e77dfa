use vstd::prelude::*;

use super::decoder::{condition_from_field, ArmCondition};

verus! {

#[derive(Debug, Clone, Copy, PartialEq, Eq, Structural)]
pub struct BranchExchangeInstruction {
    pub condition: ArmCondition,
    pub register: u8,
}

#[derive(Debug, Clone, Copy, PartialEq, Eq, Structural)]
pub enum BranchExchangeDecodeError {
    InvalidEncoding,
}

/// Decodes BX: `cond 0001 0010 1111 1111 1111 0001 Rm`.
pub fn decode_branch_exchange(instruction: u32) -> (r: Result<
    BranchExchangeInstruction,
    BranchExchangeDecodeError,
>)
    ensures
        instruction & 0x0FFF_FFF0 != 0x012F_FF10 ==> r == Err::<
            BranchExchangeInstruction,
            BranchExchangeDecodeError,
        >(BranchExchangeDecodeError::InvalidEncoding),
        instruction & 0x0FFF_FFF0 == 0x012F_FF10 ==> r == Ok::<
            BranchExchangeInstruction,
            BranchExchangeDecodeError,
        >(
            BranchExchangeInstruction {
                condition: condition_from_field((instruction >> 28) as int),
                register: (instruction & 0x0F) as u8,
            },
        ),
        r matches Ok(b) ==> b.register < 16,
{
    if instruction & 0x0FFF_FFF0 != 0x012F_FF10 {
        return Err(BranchExchangeDecodeError::InvalidEncoding);
    }
    proof {
        crate::bits::lemma_u32_fields();
        super::decoder::lemma_condition_field(instruction);
    }
    Ok(
        BranchExchangeInstruction {
            condition: ArmCondition::from_bits((instruction >> 28) as u8),
            register: (instruction & 0x0F) as u8,
        },
    )
}

} // verus!
