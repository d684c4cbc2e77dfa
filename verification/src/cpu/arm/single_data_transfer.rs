use vstd::prelude::*;

use super::data_processing::{shift_type_from_field, ShiftType};
use super::decoder::{condition_from_field, ArmCondition};

verus! {

#[derive(Debug, Clone, Copy, PartialEq, Eq, Structural)]
pub enum TransferOffset {
    Immediate(u16),
    ShiftedRegister { rm: u8, shift_type: ShiftType, shift_amount: u8 },
}

#[derive(Debug, Clone, Copy, PartialEq, Eq, Structural)]
pub struct SingleDataTransferInstruction {
    pub condition: ArmCondition,
    /// P: apply the offset before the transfer.
    pub pre_index: bool,
    /// U: add the offset rather than subtract it.
    pub add_offset: bool,
    /// B: byte rather than word.
    pub byte: bool,
    /// Effective write-back; post-indexed transfers always write back.
    pub write_back: bool,
    /// The post-indexed T variant.
    pub force_user_mode: bool,
    /// L: load rather than store.
    pub load: bool,
    pub rn: u8,
    pub rd: u8,
    pub offset: TransferOffset,
}

#[derive(Debug, Clone, Copy, PartialEq, Eq, Structural)]
pub enum SingleDataTransferDecodeError {
    InvalidEncoding,
    InvalidRegisterOffset,
    ProgramCounterAsOffsetRegister,
}

pub open spec fn spec_decode_single_data_transfer(i: u32) -> Result<SingleDataTransferInstruction, SingleDataTransferDecodeError> {
    let pre_index = i & 0x0100_0000 != 0;
    let bit_w = i & 0x0020_0000 != 0;
    if i & 0x0C00_0000 != 0x0400_0000 {
        Err(SingleDataTransferDecodeError::InvalidEncoding)
    } else if i & 0x0200_0000 != 0 && i & 0x10 != 0 {
        Err(SingleDataTransferDecodeError::InvalidRegisterOffset)
    } else if i & 0x0200_0000 != 0 && i & 0xF == 15 {
        Err(SingleDataTransferDecodeError::ProgramCounterAsOffsetRegister)
    } else {
        Ok(
            SingleDataTransferInstruction {
                condition: condition_from_field((i >> 28) as int),
                pre_index,
                add_offset: i & 0x0080_0000 != 0,
                byte: i & 0x0040_0000 != 0,
                write_back: !pre_index || bit_w,
                force_user_mode: !pre_index && bit_w,
                load: i & 0x0010_0000 != 0,
                rn: ((i >> 16) & 0xF) as u8,
                rd: ((i >> 12) & 0xF) as u8,
                offset: if i & 0x0200_0000 != 0 {
                    TransferOffset::ShiftedRegister {
                        rm: (i & 0xF) as u8,
                        shift_type: shift_type_from_field(((i >> 5) & 3) as int),
                        shift_amount: ((i >> 7) & 0x1F) as u8,
                    }
                } else {
                    TransferOffset::Immediate((i & 0x0FFF) as u16)
                },
            },
        )
    }
}

/// Decodes LDR, STR, LDRB and STRB.
pub fn decode_single_data_transfer(instruction: u32) -> (r: Result<
    SingleDataTransferInstruction,
    SingleDataTransferDecodeError,
>)
    ensures
        r == spec_decode_single_data_transfer(instruction),
        r matches Ok(d) ==> d.rn < 16 && d.rd < 16 && (d.offset matches TransferOffset::ShiftedRegister {
            rm,
            ..
        } ==> rm < 15),
{
    let i = instruction;
    proof {
        crate::bits::lemma_u32_fields();
        super::decoder::lemma_condition_field(i);
    }
    if i & 0x0C00_0000 != 0x0400_0000 {
        return Err(SingleDataTransferDecodeError::InvalidEncoding);
    }
    let register_offset = i & 0x0200_0000 != 0;
    let pre_index = i & 0x0100_0000 != 0;
    let bit_w = i & 0x0020_0000 != 0;
    let offset = if register_offset {
        if i & 0x10 != 0 {
            return Err(SingleDataTransferDecodeError::InvalidRegisterOffset);
        }
        let rm: u8 = (i & 0x0F) as u8;
        if rm == 15 {
            return Err(SingleDataTransferDecodeError::ProgramCounterAsOffsetRegister);
        }
        TransferOffset::ShiftedRegister {
            rm,
            shift_type: ShiftType::from_bits(((i >> 5) & 0b11) as u8),
            shift_amount: ((i >> 7) & 0x1F) as u8,
        }
    } else {
        TransferOffset::Immediate((i & 0x0FFF) as u16)
    };
    Ok(
        SingleDataTransferInstruction {
            condition: ArmCondition::from_bits((i >> 28) as u8),
            pre_index,
            add_offset: i & 0x0080_0000 != 0,
            byte: i & 0x0040_0000 != 0,
            write_back: !pre_index || bit_w,
            force_user_mode: !pre_index && bit_w,
            load: i & 0x0010_0000 != 0,
            rn: ((i >> 16) & 0x0F) as u8,
            rd: ((i >> 12) & 0x0F) as u8,
            offset,
        },
    )
}

} // verus!
