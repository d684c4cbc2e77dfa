use vstd::prelude::*;

use super::decoder::{condition_from_field, ArmCondition};

verus! {

#[derive(Debug, Clone, Copy, PartialEq, Eq, Structural)]
pub enum HalfwordTransferKind {
    StoreHalfword,
    LoadHalfword,
    LoadSignedByte,
    LoadSignedHalfword,
}

impl HalfwordTransferKind {
    pub open spec fn spec_is_load(self) -> bool {
        self != HalfwordTransferKind::StoreHalfword
    }

    pub open spec fn spec_uses_halfword(self) -> bool {
        self != HalfwordTransferKind::LoadSignedByte
    }

    pub fn is_load(self) -> (r: bool)
        ensures
            r == (self != HalfwordTransferKind::StoreHalfword),
    {
        !matches!(self, HalfwordTransferKind::StoreHalfword)
    }

    pub fn uses_halfword(self) -> (r: bool)
        ensures
            r == (self != HalfwordTransferKind::LoadSignedByte),
    {
        matches!(
            self,
            HalfwordTransferKind::StoreHalfword | HalfwordTransferKind::LoadHalfword
                | HalfwordTransferKind::LoadSignedHalfword
        )
    }
}

#[derive(Debug, Clone, Copy, PartialEq, Eq, Structural)]
pub enum HalfwordTransferOffset {
    Immediate(u8),
    Register(u8),
}

#[derive(Debug, Clone, Copy, PartialEq, Eq, Structural)]
pub struct HalfwordDataTransferInstruction {
    pub condition: ArmCondition,
    pub kind: HalfwordTransferKind,
    pub pre_index: bool,
    pub add_offset: bool,
    pub write_back: bool,
    pub rn: u8,
    pub rd: u8,
    pub offset: HalfwordTransferOffset,
}

#[derive(Debug, Clone, Copy, PartialEq, Eq, Structural)]
pub enum HalfwordDataTransferDecodeError {
    InvalidEncoding,
    InvalidOperation,
    InvalidPostIndexWriteBackBit,
    InvalidRegisterOffsetEncoding,
    ProgramCounterAsOffsetRegister,
}

/// The transfer the L, S and H bits select, if any.
pub open spec fn halfword_kind(load: bool, s: bool, h: bool) -> Option<HalfwordTransferKind> {
    if !load && !s && h {
        Some(HalfwordTransferKind::StoreHalfword)
    } else if load && !s && h {
        Some(HalfwordTransferKind::LoadHalfword)
    } else if load && s && !h {
        Some(HalfwordTransferKind::LoadSignedByte)
    } else if load && s && h {
        Some(HalfwordTransferKind::LoadSignedHalfword)
    } else {
        None
    }
}

pub open spec fn spec_decode_halfword_data_transfer(i: u32) -> Result<HalfwordDataTransferInstruction, HalfwordDataTransferDecodeError> {
    let pre_index = i & 0x0100_0000 != 0;
    let w_bit = i & 0x0020_0000 != 0;
    let kind = halfword_kind(i & 0x0010_0000 != 0, i & 0x40 != 0, i & 0x20 != 0);
    if i & 0x0E00_0090 != 0x0000_0090 {
        Err(HalfwordDataTransferDecodeError::InvalidEncoding)
    } else if !pre_index && w_bit {
        Err(HalfwordDataTransferDecodeError::InvalidPostIndexWriteBackBit)
    } else if kind is None {
        Err(HalfwordDataTransferDecodeError::InvalidOperation)
    } else if i & 0x0040_0000 == 0 && i & 0x0F00 != 0 {
        Err(HalfwordDataTransferDecodeError::InvalidRegisterOffsetEncoding)
    } else if i & 0x0040_0000 == 0 && i & 0xF == 15 {
        Err(HalfwordDataTransferDecodeError::ProgramCounterAsOffsetRegister)
    } else {
        Ok(
            HalfwordDataTransferInstruction {
                condition: condition_from_field((i >> 28) as int),
                kind: kind.unwrap(),
                pre_index,
                add_offset: i & 0x0080_0000 != 0,
                write_back: !pre_index || w_bit,
                rn: ((i >> 16) & 0xF) as u8,
                rd: ((i >> 12) & 0xF) as u8,
                offset: if i & 0x0040_0000 != 0 {
                    HalfwordTransferOffset::Immediate(
                        (((i >> 8) & 0xF) * 16 + (i & 0xF)) as u8,
                    )
                } else {
                    HalfwordTransferOffset::Register((i & 0xF) as u8)
                },
            },
        )
    }
}

/// Decodes STRH, LDRH, LDRSB and LDRSH.
pub fn decode_halfword_data_transfer(instruction: u32) -> (r: Result<
    HalfwordDataTransferInstruction,
    HalfwordDataTransferDecodeError,
>)
    ensures
        r == spec_decode_halfword_data_transfer(instruction),
        r matches Ok(d) ==> d.rn < 16 && d.rd < 16 && (d.offset matches HalfwordTransferOffset::Register(
            rm,
        ) ==> rm < 15),
{
    let i = instruction;
    proof {
        crate::bits::lemma_u32_fields();
        super::decoder::lemma_condition_field(i);
    }
    if i & 0x0E00_0090 != 0x0000_0090 {
        return Err(HalfwordDataTransferDecodeError::InvalidEncoding);
    }
    let pre_index = i & 0x0100_0000 != 0;
    let add_offset = i & 0x0080_0000 != 0;
    let immediate_offset = i & 0x0040_0000 != 0;
    let w_bit = i & 0x0020_0000 != 0;
    let load = i & 0x0010_0000 != 0;
    let rn: u8 = ((i >> 16) & 0x0F) as u8;
    let rd: u8 = ((i >> 12) & 0x0F) as u8;
    let s = i & 0x40 != 0;
    let h = i & 0x20 != 0;
    if !pre_index && w_bit {
        return Err(HalfwordDataTransferDecodeError::InvalidPostIndexWriteBackBit);
    }
    let write_back = !pre_index || w_bit;
    let kind = if !load && !s && h {
        HalfwordTransferKind::StoreHalfword
    } else if load && !s && h {
        HalfwordTransferKind::LoadHalfword
    } else if load && s && !h {
        HalfwordTransferKind::LoadSignedByte
    } else if load && s && h {
        HalfwordTransferKind::LoadSignedHalfword
    } else {
        return Err(HalfwordDataTransferDecodeError::InvalidOperation);
    };
    let offset = if immediate_offset {
        let high: u32 = (i >> 8) & 0x0F;
        let low: u32 = i & 0x0F;
        HalfwordTransferOffset::Immediate((high * 16 + low) as u8)
    } else {
        if i & 0x0F00 != 0 {
            return Err(HalfwordDataTransferDecodeError::InvalidRegisterOffsetEncoding);
        }
        let rm: u8 = (i & 0x0F) as u8;
        if rm == 15 {
            return Err(HalfwordDataTransferDecodeError::ProgramCounterAsOffsetRegister);
        }
        HalfwordTransferOffset::Register(rm)
    };
    Ok(
        HalfwordDataTransferInstruction {
            condition: ArmCondition::from_bits((i >> 28) as u8),
            kind,
            pre_index,
            add_offset,
            write_back,
            rn,
            rd,
            offset,
        },
    )
}

} // verus!
