use vstd::prelude::*;

use super::decoder::{condition_from_field, ArmCondition};

verus! {

#[derive(Debug, Clone, Copy, PartialEq, Eq, Structural)]
pub struct BranchInstruction {
    pub condition: ArmCondition,
    /// `true` for BL, `false` for B.
    pub link: bool,
    /// Signed byte displacement: the sign-extended 24-bit field times four.
    pub offset: i32,
}

#[derive(Debug, Clone, Copy, PartialEq, Eq, Structural)]
pub enum BranchDecodeError {
    InvalidEncoding,
}

/// The 24-bit field read as a signed number.
pub open spec fn sign_extend_24(field: u32) -> int {
    if field >= 0x80_0000 {
        field as int - 0x100_0000
    } else {
        field as int
    }
}

pub open spec fn spec_decode_branch(i: u32) -> Result<BranchInstruction, BranchDecodeError> {
    if i & 0x0E00_0000 != 0x0A00_0000 {
        Err(BranchDecodeError::InvalidEncoding)
    } else {
        Ok(
            BranchInstruction {
                condition: condition_from_field((i >> 28) as int),
                link: i & 0x0100_0000 != 0,
                offset: (sign_extend_24(i & 0x00FF_FFFF) * 4) as i32,
            },
        )
    }
}

/// Decodes B and BL: bits 27..25 must be 101.
pub fn decode_branch(instruction: u32) -> (r: Result<BranchInstruction, BranchDecodeError>)
    ensures
        r == spec_decode_branch(instruction),
{
    if instruction & 0x0E00_0000 != 0x0A00_0000 {
        return Err(BranchDecodeError::InvalidEncoding);
    }
    proof {
        crate::bits::lemma_u32_fields();
        super::decoder::lemma_condition_field(instruction);
    }
    let immediate: u32 = instruction & 0x00FF_FFFF;
    let signed: i32 = if immediate >= 0x80_0000 {
        immediate as i32 - 0x100_0000
    } else {
        immediate as i32
    };
    Ok(
        BranchInstruction {
            condition: ArmCondition::from_bits((instruction >> 28) as u8),
            link: instruction & 0x0100_0000 != 0,
            offset: signed * 4,
        },
    )
}

} // verus!
