use vstd::prelude::*;

use super::decoder::{condition_from_field, ArmCondition};

verus! {

#[derive(Debug, Clone, Copy, PartialEq, Eq, Structural)]
pub enum ProgramStatusRegister {
    Cpsr,
    Spsr,
}

/// Which bytes of a PSR an MSR writes.
#[derive(Debug, Clone, Copy, PartialEq, Eq, Structural)]
pub struct StatusRegisterMask {
    pub control: bool,
    pub extension: bool,
    pub status: bool,
    pub flags: bool,
}

/// The word mask of the selected bytes.
pub open spec fn spec_bit_mask(mask: StatusRegisterMask) -> u32 {
    (if mask.control {
        0x0000_00FFu32
    } else {
        0
    }) | (if mask.extension {
        0x0000_FF00u32
    } else {
        0
    }) | (if mask.status {
        0x00FF_0000u32
    } else {
        0
    }) | (if mask.flags {
        0xFF00_0000u32
    } else {
        0
    })
}

impl StatusRegisterMask {
    /// The field mask of bits 19..16: c, x, s, f from low to high.
    pub fn from_bits(bits: u8) -> (r: Self)
        ensures
            r == (StatusRegisterMask {
                control: bits & 1 != 0,
                extension: bits & 2 != 0,
                status: bits & 4 != 0,
                flags: bits & 8 != 0,
            }),
    {
        StatusRegisterMask {
            control: bits & 0b0001 != 0,
            extension: bits & 0b0010 != 0,
            status: bits & 0b0100 != 0,
            flags: bits & 0b1000 != 0,
        }
    }

    pub fn bit_mask(self) -> (r: u32)
        ensures
            r == spec_bit_mask(self),
    {
        (if self.control {
            0x0000_00FFu32
        } else {
            0
        }) | (if self.extension {
            0x0000_FF00u32
        } else {
            0
        }) | (if self.status {
            0x00FF_0000u32
        } else {
            0
        }) | (if self.flags {
            0xFF00_0000u32
        } else {
            0
        })
    }
}

#[derive(Debug, Clone, Copy, PartialEq, Eq, Structural)]
pub enum StatusRegisterOperand {
    Register(u8),
    Immediate { value: u8, rotate: u8 },
}

#[derive(Debug, Clone, Copy, PartialEq, Eq, Structural)]
pub enum StatusRegisterInstruction {
    Mrs { condition: ArmCondition, source: ProgramStatusRegister, rd: u8 },
    Msr {
        condition: ArmCondition,
        destination: ProgramStatusRegister,
        mask: StatusRegisterMask,
        operand: StatusRegisterOperand,
    },
}

impl StatusRegisterInstruction {
    pub fn condition(self) -> (r: ArmCondition)
        ensures
            r == match self {
                StatusRegisterInstruction::Mrs { condition, .. } => condition,
                StatusRegisterInstruction::Msr { condition, .. } => condition,
            },
    {
        match self {
            StatusRegisterInstruction::Mrs { condition, .. } => condition,
            StatusRegisterInstruction::Msr { condition, .. } => condition,
        }
    }
}

#[derive(Debug, Clone, Copy, PartialEq, Eq, Structural)]
pub enum StatusRegisterDecodeError {
    InvalidEncoding,
    ProgramCounterUsed,
    EmptyFieldMask,
}

pub open spec fn psr_select(i: u32) -> ProgramStatusRegister {
    if i & 0x0040_0000 != 0 {
        ProgramStatusRegister::Spsr
    } else {
        ProgramStatusRegister::Cpsr
    }
}

pub open spec fn spec_msr(i: u32, operand: StatusRegisterOperand) -> Result<StatusRegisterInstruction, StatusRegisterDecodeError> {
    let field_bits = ((i >> 16) & 0xF) as u8;
    if field_bits == 0 {
        Err(StatusRegisterDecodeError::EmptyFieldMask)
    } else {
        Ok(
            StatusRegisterInstruction::Msr {
                condition: condition_from_field((i >> 28) as int),
                destination: psr_select(i),
                mask: StatusRegisterMask {
                    control: field_bits & 1 != 0,
                    extension: field_bits & 2 != 0,
                    status: field_bits & 4 != 0,
                    flags: field_bits & 8 != 0,
                },
                operand,
            },
        )
    }
}

/// MRS, MSR with a register and MSR with an immediate, recognised in that
/// order.
pub open spec fn spec_decode_status_register(i: u32) -> Result<StatusRegisterInstruction, StatusRegisterDecodeError> {
    if i & 0x0FBF_0FFF == 0x010F_0000 {
        if (i >> 12) & 0xF == 15 {
            Err(StatusRegisterDecodeError::ProgramCounterUsed)
        } else {
            Ok(
                StatusRegisterInstruction::Mrs {
                    condition: condition_from_field((i >> 28) as int),
                    source: psr_select(i),
                    rd: ((i >> 12) & 0xF) as u8,
                },
            )
        }
    } else if i & 0x0FB0_FFF0 == 0x0120_F000 {
        if i & 0xF == 15 {
            Err(StatusRegisterDecodeError::ProgramCounterUsed)
        } else {
            spec_msr(i, StatusRegisterOperand::Register((i & 0xF) as u8))
        }
    } else if i & 0x0FB0_F000 == 0x0320_F000 {
        spec_msr(
            i,
            StatusRegisterOperand::Immediate {
                value: (i & 0xFF) as u8,
                rotate: ((i >> 8) & 0xF) as u8,
            },
        )
    } else {
        Err(StatusRegisterDecodeError::InvalidEncoding)
    }
}

/// Decodes MRS and MSR.
pub fn decode_status_register(instruction: u32) -> (r: Result<
    StatusRegisterInstruction,
    StatusRegisterDecodeError,
>)
    ensures
        r == spec_decode_status_register(instruction),
{
    let i = instruction;
    proof {
        crate::bits::lemma_u32_fields();
        super::decoder::lemma_condition_field(i);
    }
    if i & 0x0FBF_0FFF == 0x010F_0000 {
        let rd: u8 = ((i >> 12) & 0x0F) as u8;
        if rd == 15 {
            return Err(StatusRegisterDecodeError::ProgramCounterUsed);
        }
        return Ok(
            StatusRegisterInstruction::Mrs {
                condition: ArmCondition::from_bits((i >> 28) as u8),
                source: decode_psr_select(i),
                rd,
            },
        );
    }
    if i & 0x0FB0_FFF0 == 0x0120_F000 {
        let rm: u8 = (i & 0x0F) as u8;
        if rm == 15 {
            return Err(StatusRegisterDecodeError::ProgramCounterUsed);
        }
        return decode_msr_common(i, StatusRegisterOperand::Register(rm));
    }
    if i & 0x0FB0_F000 == 0x0320_F000 {
        return decode_msr_common(
            i,
            StatusRegisterOperand::Immediate {
                value: (i & 0xFF) as u8,
                rotate: ((i >> 8) & 0x0F) as u8,
            },
        );
    }
    Err(StatusRegisterDecodeError::InvalidEncoding)
}

fn decode_psr_select(i: u32) -> (r: ProgramStatusRegister)
    ensures
        r == psr_select(i),
{
    if i & 0x0040_0000 != 0 {
        ProgramStatusRegister::Spsr
    } else {
        ProgramStatusRegister::Cpsr
    }
}

fn decode_msr_common(i: u32, operand: StatusRegisterOperand) -> (r: Result<
    StatusRegisterInstruction,
    StatusRegisterDecodeError,
>)
    ensures
        r == spec_msr(i, operand),
{
    proof {
        super::decoder::lemma_condition_field(i);
    }
    let field_bits: u8 = ((i >> 16) & 0x0F) as u8;
    if field_bits == 0 {
        return Err(StatusRegisterDecodeError::EmptyFieldMask);
    }
    Ok(
        StatusRegisterInstruction::Msr {
            condition: ArmCondition::from_bits((i >> 28) as u8),
            destination: decode_psr_select(i),
            mask: StatusRegisterMask::from_bits(field_bits),
            operand,
        },
    )
}

} // verus!
