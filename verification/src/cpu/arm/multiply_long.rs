use vstd::prelude::*;

use super::decoder::{condition_from_field, ArmCondition};

verus! {

#[derive(Debug, Clone, Copy, PartialEq, Eq, Structural)]
pub struct MultiplyLongInstruction {
    pub condition: ArmCondition,
    /// `false` for UMULL/UMLAL, `true` for SMULL/SMLAL.
    pub signed: bool,
    /// `false` for MULL, `true` for MLAL.
    pub accumulate: bool,
    pub set_flags: bool,
    pub rd_hi: u8,
    pub rd_lo: u8,
    pub rs: u8,
    pub rm: u8,
}

#[derive(Debug, Clone, Copy, PartialEq, Eq, Structural)]
pub enum MultiplyLongDecodeError {
    InvalidEncoding,
    ProgramCounterUsed,
    DestinationRegistersEqual,
}

pub open spec fn spec_decode_multiply_long(i: u32) -> Result<MultiplyLongInstruction, MultiplyLongDecodeError> {
    let rd_hi = (i >> 16) & 0xF;
    let rd_lo = (i >> 12) & 0xF;
    let rs = (i >> 8) & 0xF;
    let rm = i & 0xF;
    if i & 0x0F80_00F0 != 0x0080_0090 {
        Err(MultiplyLongDecodeError::InvalidEncoding)
    } else if rd_hi == 15 || rd_lo == 15 || rs == 15 || rm == 15 {
        Err(MultiplyLongDecodeError::ProgramCounterUsed)
    } else if rd_hi == rd_lo {
        Err(MultiplyLongDecodeError::DestinationRegistersEqual)
    } else {
        Ok(
            MultiplyLongInstruction {
                condition: condition_from_field((i >> 28) as int),
                signed: i & 0x0040_0000 != 0,
                accumulate: i & 0x0020_0000 != 0,
                set_flags: i & 0x0010_0000 != 0,
                rd_hi: rd_hi as u8,
                rd_lo: rd_lo as u8,
                rs: rs as u8,
                rm: rm as u8,
            },
        )
    }
}

/// Decodes UMULL, UMLAL, SMULL and SMLAL.
pub fn decode_multiply_long(instruction: u32) -> (r: Result<
    MultiplyLongInstruction,
    MultiplyLongDecodeError,
>)
    ensures
        r == spec_decode_multiply_long(instruction),
        r matches Ok(m) ==> m.rd_hi < 15 && m.rd_lo < 15 && m.rs < 15 && m.rm < 15 && m.rd_hi
            != m.rd_lo,
{
    let i = instruction;
    proof {
        crate::bits::lemma_u32_fields();
        super::decoder::lemma_condition_field(i);
    }
    if i & 0x0F80_00F0 != 0x0080_0090 {
        return Err(MultiplyLongDecodeError::InvalidEncoding);
    }
    let rd_hi: u8 = ((i >> 16) & 0x0F) as u8;
    let rd_lo: u8 = ((i >> 12) & 0x0F) as u8;
    let rs: u8 = ((i >> 8) & 0x0F) as u8;
    let rm: u8 = (i & 0x0F) as u8;
    if rd_hi == 15 || rd_lo == 15 || rs == 15 || rm == 15 {
        return Err(MultiplyLongDecodeError::ProgramCounterUsed);
    }
    if rd_hi == rd_lo {
        return Err(MultiplyLongDecodeError::DestinationRegistersEqual);
    }
    Ok(
        MultiplyLongInstruction {
            condition: ArmCondition::from_bits((i >> 28) as u8),
            signed: i & 0x0040_0000 != 0,
            accumulate: i & 0x0020_0000 != 0,
            set_flags: i & 0x0010_0000 != 0,
            rd_hi,
            rd_lo,
            rs,
            rm,
        },
    )
}

} // verus!
