use vstd::prelude::*;

use super::decoder::{condition_from_field, ArmCondition};

verus! {

#[derive(Debug, Clone, Copy, PartialEq, Eq, Structural)]
pub struct MultiplyInstruction {
    pub condition: ArmCondition,
    /// `false` for MUL, `true` for MLA.
    pub accumulate: bool,
    pub set_flags: bool,
    pub rd: u8,
    pub rn: u8,
    pub rs: u8,
    pub rm: u8,
}

#[derive(Debug, Clone, Copy, PartialEq, Eq, Structural)]
pub enum MultiplyDecodeError {
    InvalidEncoding,
    /// MUL requires the unused Rn field to be zero.
    NonZeroAccumulateRegisterForMul,
    /// ARM7TDMI does not permit R15 in MUL/MLA.
    ProgramCounterUsed,
    /// ARM7TDMI requires Rd and Rm to differ.
    DestinationEqualsMultiplier,
}

pub open spec fn spec_decode_multiply(i: u32) -> Result<MultiplyInstruction, MultiplyDecodeError> {
    let accumulate = i & 0x0020_0000 != 0;
    let rd = (i >> 16) & 0xF;
    let rn = (i >> 12) & 0xF;
    let rs = (i >> 8) & 0xF;
    let rm = i & 0xF;
    if i & 0x0FC0_00F0 != 0x0000_0090 {
        Err(MultiplyDecodeError::InvalidEncoding)
    } else if !accumulate && rn != 0 {
        Err(MultiplyDecodeError::NonZeroAccumulateRegisterForMul)
    } else if rd == 15 || rn == 15 || rs == 15 || rm == 15 {
        Err(MultiplyDecodeError::ProgramCounterUsed)
    } else if rd == rm {
        Err(MultiplyDecodeError::DestinationEqualsMultiplier)
    } else {
        Ok(
            MultiplyInstruction {
                condition: condition_from_field((i >> 28) as int),
                accumulate,
                set_flags: i & 0x0010_0000 != 0,
                rd: rd as u8,
                rn: rn as u8,
                rs: rs as u8,
                rm: rm as u8,
            },
        )
    }
}

/// Decodes MUL and MLA.
pub fn decode_multiply(instruction: u32) -> (r: Result<MultiplyInstruction, MultiplyDecodeError>)
    ensures
        r == spec_decode_multiply(instruction),
        r matches Ok(m) ==> m.rd < 15 && m.rn < 15 && m.rs < 15 && m.rm < 15,
{
    let i = instruction;
    proof {
        crate::bits::lemma_u32_fields();
        super::decoder::lemma_condition_field(i);
    }
    if i & 0x0FC0_00F0 != 0x0000_0090 {
        return Err(MultiplyDecodeError::InvalidEncoding);
    }
    let accumulate = i & 0x0020_0000 != 0;
    let set_flags = i & 0x0010_0000 != 0;
    let rd: u8 = ((i >> 16) & 0x0F) as u8;
    let rn: u8 = ((i >> 12) & 0x0F) as u8;
    let rs: u8 = ((i >> 8) & 0x0F) as u8;
    let rm: u8 = (i & 0x0F) as u8;
    if !accumulate && rn != 0 {
        return Err(MultiplyDecodeError::NonZeroAccumulateRegisterForMul);
    }
    if rd == 15 || rn == 15 || rs == 15 || rm == 15 {
        return Err(MultiplyDecodeError::ProgramCounterUsed);
    }
    if rd == rm {
        return Err(MultiplyDecodeError::DestinationEqualsMultiplier);
    }
    Ok(
        MultiplyInstruction {
            condition: ArmCondition::from_bits((i >> 28) as u8),
            accumulate,
            set_flags,
            rd,
            rn,
            rs,
            rm,
        },
    )
}

} // verus!
