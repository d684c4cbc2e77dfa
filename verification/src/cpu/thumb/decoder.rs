use vstd::prelude::*;

use super::instruction::{
    ThumbAddSubtractOperand, ThumbAddSubtractOperation, ThumbAluOperation, ThumbCondition,
    ThumbHalfwordTransferKind, ThumbHighRegisterOperation, ThumbImmediateOperation,
    ThumbImmediateTransferKind, ThumbInstruction, ThumbLoadAddressBase, ThumbLongBranchHalf,
    ThumbRegisterOffsetTransferKind, ThumbShiftOperation, ThumbSpRelativeTransferKind,
    ThumbStackPointerOperation,
};

verus! {

/// Why a halfword is not a Thumb instruction.
#[derive(Debug, Clone, Copy, PartialEq, Eq, Structural)]
pub enum ThumbDecodeError {
    /// Condition 1110 of a conditional branch is undefined.
    UndefinedConditionalBranch,
    UnsupportedInstruction { raw: u16 },
}

/// An 11-bit two's-complement field as an integer.
pub open spec fn spec_sign_extend_11(value: u16) -> i32 {
    let v = (value & 0x07FF) as i32;
    if v >= 0x400 {
        (v - 0x800) as i32
    } else {
        v
    }
}

/// An 8-bit two's-complement field as an integer.
pub open spec fn spec_sign_extend_8(value: u8) -> i16 {
    if value >= 0x80 {
        (value as i16 - 0x100) as i16
    } else {
        value as i16
    }
}

pub open spec fn shift_operation_from(field: u16) -> ThumbShiftOperation {
    if field == 0 {
        ThumbShiftOperation::LogicalLeft
    } else if field == 1 {
        ThumbShiftOperation::LogicalRight
    } else {
        ThumbShiftOperation::ArithmeticRight
    }
}

pub open spec fn immediate_operation_from(field: u16) -> ThumbImmediateOperation {
    if field == 0 {
        ThumbImmediateOperation::Move
    } else if field == 1 {
        ThumbImmediateOperation::Compare
    } else if field == 2 {
        ThumbImmediateOperation::Add
    } else {
        ThumbImmediateOperation::Subtract
    }
}

pub open spec fn alu_operation_from(field: u16) -> ThumbAluOperation {
    if field == 0x0 {
        ThumbAluOperation::And
    } else if field == 0x1 {
        ThumbAluOperation::ExclusiveOr
    } else if field == 0x2 {
        ThumbAluOperation::LogicalShiftLeft
    } else if field == 0x3 {
        ThumbAluOperation::LogicalShiftRight
    } else if field == 0x4 {
        ThumbAluOperation::ArithmeticShiftRight
    } else if field == 0x5 {
        ThumbAluOperation::AddWithCarry
    } else if field == 0x6 {
        ThumbAluOperation::SubtractWithCarry
    } else if field == 0x7 {
        ThumbAluOperation::RotateRight
    } else if field == 0x8 {
        ThumbAluOperation::Test
    } else if field == 0x9 {
        ThumbAluOperation::Negate
    } else if field == 0xA {
        ThumbAluOperation::Compare
    } else if field == 0xB {
        ThumbAluOperation::CompareNegative
    } else if field == 0xC {
        ThumbAluOperation::Or
    } else if field == 0xD {
        ThumbAluOperation::Multiply
    } else if field == 0xE {
        ThumbAluOperation::BitClear
    } else {
        ThumbAluOperation::MoveNot
    }
}

pub open spec fn high_register_operation_from(field: u16) -> ThumbHighRegisterOperation {
    if field == 0 {
        ThumbHighRegisterOperation::Add
    } else if field == 1 {
        ThumbHighRegisterOperation::Compare
    } else if field == 2 {
        ThumbHighRegisterOperation::Move
    } else {
        ThumbHighRegisterOperation::BranchExchange
    }
}

pub open spec fn register_offset_kind_from(field: u16) -> ThumbRegisterOffsetTransferKind {
    if field == 0 {
        ThumbRegisterOffsetTransferKind::StoreWord
    } else if field == 1 {
        ThumbRegisterOffsetTransferKind::StoreHalfword
    } else if field == 2 {
        ThumbRegisterOffsetTransferKind::StoreByte
    } else if field == 3 {
        ThumbRegisterOffsetTransferKind::LoadSignedByte
    } else if field == 4 {
        ThumbRegisterOffsetTransferKind::LoadWord
    } else if field == 5 {
        ThumbRegisterOffsetTransferKind::LoadHalfword
    } else if field == 6 {
        ThumbRegisterOffsetTransferKind::LoadByte
    } else {
        ThumbRegisterOffsetTransferKind::LoadSignedHalfword
    }
}

pub open spec fn condition_from(field: u8) -> ThumbCondition {
    if field == 0x0 {
        ThumbCondition::Equal
    } else if field == 0x1 {
        ThumbCondition::NotEqual
    } else if field == 0x2 {
        ThumbCondition::CarrySet
    } else if field == 0x3 {
        ThumbCondition::CarryClear
    } else if field == 0x4 {
        ThumbCondition::Minus
    } else if field == 0x5 {
        ThumbCondition::Plus
    } else if field == 0x6 {
        ThumbCondition::Overflow
    } else if field == 0x7 {
        ThumbCondition::NoOverflow
    } else if field == 0x8 {
        ThumbCondition::UnsignedHigher
    } else if field == 0x9 {
        ThumbCondition::UnsignedLowerOrSame
    } else if field == 0xA {
        ThumbCondition::SignedGreaterOrEqual
    } else if field == 0xB {
        ThumbCondition::SignedLessThan
    } else if field == 0xC {
        ThumbCondition::SignedGreaterThan
    } else {
        ThumbCondition::SignedLessOrEqual
    }
}

/// The decoding of a Thumb halfword, format by format.
pub open spec fn spec_decode_thumb(raw: u16) -> Result<ThumbInstruction, ThumbDecodeError> {
    if raw & 0xE000 == 0x0000 && (raw >> 11) & 3 != 3 {
        Ok(
            ThumbInstruction::MoveShiftedRegister {
                operation: shift_operation_from((raw >> 11) & 3),
                offset: ((raw >> 6) & 0x1F) as u8,
                source: ((raw >> 3) & 7) as u8,
                destination: (raw & 7) as u8,
            },
        )
    } else if raw & 0xF800 == 0x1800 {
        let value = ((raw >> 6) & 7) as u8;
        Ok(
            ThumbInstruction::AddSubtract {
                operation: if raw & 0x0200 != 0 {
                    ThumbAddSubtractOperation::Subtract
                } else {
                    ThumbAddSubtractOperation::Add
                },
                operand: if raw & 0x0400 != 0 {
                    ThumbAddSubtractOperand::Immediate(value)
                } else {
                    ThumbAddSubtractOperand::Register(value)
                },
                source: ((raw >> 3) & 7) as u8,
                destination: (raw & 7) as u8,
            },
        )
    } else if raw & 0xE000 == 0x2000 {
        Ok(
            ThumbInstruction::Immediate {
                operation: immediate_operation_from((raw >> 11) & 3),
                destination: ((raw >> 8) & 7) as u8,
                immediate: (raw & 0xFF) as u8,
            },
        )
    } else if raw & 0xFC00 == 0x4000 {
        Ok(
            ThumbInstruction::Alu {
                operation: alu_operation_from((raw >> 6) & 0x0F),
                source: ((raw >> 3) & 7) as u8,
                destination: (raw & 7) as u8,
            },
        )
    } else if raw & 0xFC00 == 0x4400 {
        Ok(
            ThumbInstruction::HighRegister {
                operation: high_register_operation_from((raw >> 8) & 3),
                source: (((raw >> 3) & 7) | (((raw >> 6) & 1) << 3)) as u8,
                destination: ((raw & 7) | (((raw >> 7) & 1) << 3)) as u8,
            },
        )
    } else if raw & 0xF800 == 0x4800 {
        Ok(
            ThumbInstruction::LiteralLoad {
                destination: ((raw >> 8) & 7) as u8,
                offset: (raw & 0xFF) << 2,
            },
        )
    } else if raw & 0xF000 == 0x5000 {
        Ok(
            ThumbInstruction::RegisterOffsetTransfer {
                kind: register_offset_kind_from((raw >> 9) & 7),
                offset_register: ((raw >> 6) & 7) as u8,
                base_register: ((raw >> 3) & 7) as u8,
                destination: (raw & 7) as u8,
            },
        )
    } else if raw & 0xE000 == 0x6000 {
        let byte = raw & 0x1000 != 0;
        let load = raw & 0x0800 != 0;
        let encoded_offset = ((raw >> 6) & 0x1F) as u8;
        Ok(
            ThumbInstruction::ImmediateOffsetTransfer {
                kind: if load {
                    if byte {
                        ThumbImmediateTransferKind::LoadByte
                    } else {
                        ThumbImmediateTransferKind::LoadWord
                    }
                } else {
                    if byte {
                        ThumbImmediateTransferKind::StoreByte
                    } else {
                        ThumbImmediateTransferKind::StoreWord
                    }
                },
                offset: if byte {
                    encoded_offset
                } else {
                    encoded_offset << 2
                },
                base_register: ((raw >> 3) & 7) as u8,
                destination: (raw & 7) as u8,
            },
        )
    } else if raw & 0xF000 == 0x8000 {
        Ok(
            ThumbInstruction::HalfwordImmediateTransfer {
                kind: if raw & 0x0800 != 0 {
                    ThumbHalfwordTransferKind::Load
                } else {
                    ThumbHalfwordTransferKind::Store
                },
                offset: (((raw >> 6) & 0x1F) as u8) << 1,
                base_register: ((raw >> 3) & 7) as u8,
                destination: (raw & 7) as u8,
            },
        )
    } else if raw & 0xF000 == 0x9000 {
        Ok(
            ThumbInstruction::SpRelativeTransfer {
                kind: if raw & 0x0800 != 0 {
                    ThumbSpRelativeTransferKind::Load
                } else {
                    ThumbSpRelativeTransferKind::Store
                },
                destination: ((raw >> 8) & 7) as u8,
                offset: (raw & 0xFF) << 2,
            },
        )
    } else if raw & 0xF000 == 0xA000 {
        Ok(
            ThumbInstruction::LoadAddress {
                base: if raw & 0x0800 != 0 {
                    ThumbLoadAddressBase::StackPointer
                } else {
                    ThumbLoadAddressBase::ProgramCounter
                },
                destination: ((raw >> 8) & 7) as u8,
                offset: (raw & 0xFF) << 2,
            },
        )
    } else if raw & 0xFF00 == 0xB000 {
        Ok(
            ThumbInstruction::AdjustStackPointer {
                operation: if raw & 0x0080 != 0 {
                    ThumbStackPointerOperation::Subtract
                } else {
                    ThumbStackPointerOperation::Add
                },
                offset: (raw & 0x7F) << 2,
            },
        )
    } else if raw & 0xFE00 == 0xB400 {
        Ok(
            ThumbInstruction::Push {
                registers: (raw & 0xFF) as u8,
                include_link_register: raw & 0x0100 != 0,
            },
        )
    } else if raw & 0xFE00 == 0xBC00 {
        Ok(
            ThumbInstruction::Pop {
                registers: (raw & 0xFF) as u8,
                include_program_counter: raw & 0x0100 != 0,
            },
        )
    } else if raw & 0xF000 == 0xC000 {
        Ok(
            ThumbInstruction::MultipleTransfer {
                load: raw & 0x0800 != 0,
                base_register: ((raw >> 8) & 7) as u8,
                registers: (raw & 0xFF) as u8,
            },
        )
    } else if raw & 0xF000 == 0xD000 {
        let bits = ((raw >> 8) & 0xF) as u8;
        let immediate = (raw & 0xFF) as u8;
        if bits == 0xF {
            Ok(ThumbInstruction::SoftwareInterrupt { comment: immediate })
        } else if bits == 0xE {
            Err(ThumbDecodeError::UndefinedConditionalBranch)
        } else {
            Ok(
                ThumbInstruction::ConditionalBranch {
                    condition: condition_from(bits),
                    offset: (spec_sign_extend_8(immediate) * 2) as i16,
                },
            )
        }
    } else if raw & 0xF800 == 0xE000 {
        Ok(ThumbInstruction::UnconditionalBranch { offset: (spec_sign_extend_11(raw) * 2) as i32 })
    } else if raw & 0xF800 == 0xF000 {
        Ok(
            ThumbInstruction::LongBranchWithLink {
                half: ThumbLongBranchHalf::First,
                offset: (spec_sign_extend_11(raw) * 0x1000) as i32,
            },
        )
    } else if raw & 0xF800 == 0xF800 {
        Ok(
            ThumbInstruction::LongBranchWithLink {
                half: ThumbLongBranchHalf::Second,
                offset: (((raw & 0x07FF) as i32) * 2) as i32,
            },
        )
    } else {
        Err(ThumbDecodeError::UnsupportedInstruction { raw })
    }
}

/// The register numbers of an instruction: low registers below 8, high
/// register operands below 16.
pub open spec fn thumb_registers_in_range(instruction: ThumbInstruction) -> bool {
    match instruction {
        ThumbInstruction::MoveShiftedRegister { source, destination, .. } => source < 8 && destination < 8,
        ThumbInstruction::AddSubtract { operand, source, destination, .. } => source < 8 && destination
            < 8 && match operand {
            ThumbAddSubtractOperand::Register(r) => r < 8,
            ThumbAddSubtractOperand::Immediate(_) => true,
        },
        ThumbInstruction::Immediate { destination, .. } => destination < 8,
        ThumbInstruction::Alu { source, destination, .. } => source < 8 && destination < 8,
        ThumbInstruction::HighRegister { source, destination, .. } => source < 16 && destination < 16,
        ThumbInstruction::LiteralLoad { destination, .. } => destination < 8,
        ThumbInstruction::RegisterOffsetTransfer { offset_register, base_register, destination, .. } =>
            offset_register < 8 && base_register < 8 && destination < 8,
        ThumbInstruction::ImmediateOffsetTransfer { base_register, destination, .. } => base_register
            < 8 && destination < 8,
        ThumbInstruction::HalfwordImmediateTransfer { base_register, destination, .. } =>
            base_register < 8 && destination < 8,
        ThumbInstruction::SpRelativeTransfer { destination, .. } => destination < 8,
        ThumbInstruction::LoadAddress { destination, .. } => destination < 8,
        ThumbInstruction::MultipleTransfer { base_register, .. } => base_register < 8,
        _ => true,
    }
}

fn sign_extend_11(value: u16) -> (r: i32)
    ensures
        r == spec_sign_extend_11(value),
        -0x400 <= r < 0x400,
{
    proof {
        crate::bits::lemma_u16_thumb_fields();
    }
    let v = (value & 0x07FF) as i32;
    if v >= 0x400 {
        v - 0x800
    } else {
        v
    }
}

fn sign_extend_8(value: u8) -> (r: i16)
    ensures
        r == spec_sign_extend_8(value),
        -0x80 <= r < 0x80,
{
    if value >= 0x80 {
        value as i16 - 0x100
    } else {
        value as i16
    }
}

fn condition_of(bits: u8) -> (r: ThumbCondition)
    ensures
        r == condition_from(bits),
{
    if bits == 0x0 {
        ThumbCondition::Equal
    } else if bits == 0x1 {
        ThumbCondition::NotEqual
    } else if bits == 0x2 {
        ThumbCondition::CarrySet
    } else if bits == 0x3 {
        ThumbCondition::CarryClear
    } else if bits == 0x4 {
        ThumbCondition::Minus
    } else if bits == 0x5 {
        ThumbCondition::Plus
    } else if bits == 0x6 {
        ThumbCondition::Overflow
    } else if bits == 0x7 {
        ThumbCondition::NoOverflow
    } else if bits == 0x8 {
        ThumbCondition::UnsignedHigher
    } else if bits == 0x9 {
        ThumbCondition::UnsignedLowerOrSame
    } else if bits == 0xA {
        ThumbCondition::SignedGreaterOrEqual
    } else if bits == 0xB {
        ThumbCondition::SignedLessThan
    } else if bits == 0xC {
        ThumbCondition::SignedGreaterThan
    } else {
        ThumbCondition::SignedLessOrEqual
    }
}

fn alu_operation_of(field: u16) -> (r: ThumbAluOperation)
    ensures
        r == alu_operation_from(field),
{
    if field == 0x0 {
        ThumbAluOperation::And
    } else if field == 0x1 {
        ThumbAluOperation::ExclusiveOr
    } else if field == 0x2 {
        ThumbAluOperation::LogicalShiftLeft
    } else if field == 0x3 {
        ThumbAluOperation::LogicalShiftRight
    } else if field == 0x4 {
        ThumbAluOperation::ArithmeticShiftRight
    } else if field == 0x5 {
        ThumbAluOperation::AddWithCarry
    } else if field == 0x6 {
        ThumbAluOperation::SubtractWithCarry
    } else if field == 0x7 {
        ThumbAluOperation::RotateRight
    } else if field == 0x8 {
        ThumbAluOperation::Test
    } else if field == 0x9 {
        ThumbAluOperation::Negate
    } else if field == 0xA {
        ThumbAluOperation::Compare
    } else if field == 0xB {
        ThumbAluOperation::CompareNegative
    } else if field == 0xC {
        ThumbAluOperation::Or
    } else if field == 0xD {
        ThumbAluOperation::Multiply
    } else if field == 0xE {
        ThumbAluOperation::BitClear
    } else {
        ThumbAluOperation::MoveNot
    }
}

fn register_offset_kind_of(field: u16) -> (r: ThumbRegisterOffsetTransferKind)
    ensures
        r == register_offset_kind_from(field),
{
    if field == 0 {
        ThumbRegisterOffsetTransferKind::StoreWord
    } else if field == 1 {
        ThumbRegisterOffsetTransferKind::StoreHalfword
    } else if field == 2 {
        ThumbRegisterOffsetTransferKind::StoreByte
    } else if field == 3 {
        ThumbRegisterOffsetTransferKind::LoadSignedByte
    } else if field == 4 {
        ThumbRegisterOffsetTransferKind::LoadWord
    } else if field == 5 {
        ThumbRegisterOffsetTransferKind::LoadHalfword
    } else if field == 6 {
        ThumbRegisterOffsetTransferKind::LoadByte
    } else {
        ThumbRegisterOffsetTransferKind::LoadSignedHalfword
    }
}

/// Decodes a Thumb instruction halfword.
pub fn decode_thumb(raw: u16) -> (r: Result<ThumbInstruction, ThumbDecodeError>)
    ensures
        r == spec_decode_thumb(raw),
        r matches Ok(instruction) ==> thumb_registers_in_range(instruction),
{
    proof {
        crate::bits::lemma_u16_thumb_fields();
    }
    if raw & 0xE000 == 0x0000 && (raw >> 11) & 3 != 3 {
        let field = (raw >> 11) & 3;
        let operation = if field == 0 {
            ThumbShiftOperation::LogicalLeft
        } else if field == 1 {
            ThumbShiftOperation::LogicalRight
        } else {
            ThumbShiftOperation::ArithmeticRight
        };
        return Ok(
            ThumbInstruction::MoveShiftedRegister {
                operation,
                offset: ((raw >> 6) & 0x1F) as u8,
                source: ((raw >> 3) & 7) as u8,
                destination: (raw & 7) as u8,
            },
        );
    }
    if raw & 0xF800 == 0x1800 {
        let value = ((raw >> 6) & 7) as u8;
        return Ok(
            ThumbInstruction::AddSubtract {
                operation: if raw & 0x0200 != 0 {
                    ThumbAddSubtractOperation::Subtract
                } else {
                    ThumbAddSubtractOperation::Add
                },
                operand: if raw & 0x0400 != 0 {
                    ThumbAddSubtractOperand::Immediate(value)
                } else {
                    ThumbAddSubtractOperand::Register(value)
                },
                source: ((raw >> 3) & 7) as u8,
                destination: (raw & 7) as u8,
            },
        );
    }
    if raw & 0xE000 == 0x2000 {
        let field = (raw >> 11) & 3;
        let operation = if field == 0 {
            ThumbImmediateOperation::Move
        } else if field == 1 {
            ThumbImmediateOperation::Compare
        } else if field == 2 {
            ThumbImmediateOperation::Add
        } else {
            ThumbImmediateOperation::Subtract
        };
        return Ok(
            ThumbInstruction::Immediate {
                operation,
                destination: ((raw >> 8) & 7) as u8,
                immediate: (raw & 0xFF) as u8,
            },
        );
    }
    if raw & 0xFC00 == 0x4000 {
        return Ok(
            ThumbInstruction::Alu {
                operation: alu_operation_of((raw >> 6) & 0x0F),
                source: ((raw >> 3) & 7) as u8,
                destination: (raw & 7) as u8,
            },
        );
    }
    if raw & 0xFC00 == 0x4400 {
        let field = (raw >> 8) & 3;
        let operation = if field == 0 {
            ThumbHighRegisterOperation::Add
        } else if field == 1 {
            ThumbHighRegisterOperation::Compare
        } else if field == 2 {
            ThumbHighRegisterOperation::Move
        } else {
            ThumbHighRegisterOperation::BranchExchange
        };
        return Ok(
            ThumbInstruction::HighRegister {
                operation,
                source: (((raw >> 3) & 7) | (((raw >> 6) & 1) << 3)) as u8,
                destination: ((raw & 7) | (((raw >> 7) & 1) << 3)) as u8,
            },
        );
    }
    if raw & 0xF800 == 0x4800 {
        return Ok(
            ThumbInstruction::LiteralLoad {
                destination: ((raw >> 8) & 7) as u8,
                offset: (raw & 0xFF) << 2,
            },
        );
    }
    if raw & 0xF000 == 0x5000 {
        return Ok(
            ThumbInstruction::RegisterOffsetTransfer {
                kind: register_offset_kind_of((raw >> 9) & 7),
                offset_register: ((raw >> 6) & 7) as u8,
                base_register: ((raw >> 3) & 7) as u8,
                destination: (raw & 7) as u8,
            },
        );
    }
    if raw & 0xE000 == 0x6000 {
        let byte = raw & 0x1000 != 0;
        let load = raw & 0x0800 != 0;
        let encoded_offset = ((raw >> 6) & 0x1F) as u8;
        let kind = if load {
            if byte {
                ThumbImmediateTransferKind::LoadByte
            } else {
                ThumbImmediateTransferKind::LoadWord
            }
        } else {
            if byte {
                ThumbImmediateTransferKind::StoreByte
            } else {
                ThumbImmediateTransferKind::StoreWord
            }
        };
        return Ok(
            ThumbInstruction::ImmediateOffsetTransfer {
                kind,
                offset: if byte {
                    encoded_offset
                } else {
                    encoded_offset << 2
                },
                base_register: ((raw >> 3) & 7) as u8,
                destination: (raw & 7) as u8,
            },
        );
    }
    if raw & 0xF000 == 0x8000 {
        return Ok(
            ThumbInstruction::HalfwordImmediateTransfer {
                kind: if raw & 0x0800 != 0 {
                    ThumbHalfwordTransferKind::Load
                } else {
                    ThumbHalfwordTransferKind::Store
                },
                offset: (((raw >> 6) & 0x1F) as u8) << 1,
                base_register: ((raw >> 3) & 7) as u8,
                destination: (raw & 7) as u8,
            },
        );
    }
    if raw & 0xF000 == 0x9000 {
        return Ok(
            ThumbInstruction::SpRelativeTransfer {
                kind: if raw & 0x0800 != 0 {
                    ThumbSpRelativeTransferKind::Load
                } else {
                    ThumbSpRelativeTransferKind::Store
                },
                destination: ((raw >> 8) & 7) as u8,
                offset: (raw & 0xFF) << 2,
            },
        );
    }
    if raw & 0xF000 == 0xA000 {
        return Ok(
            ThumbInstruction::LoadAddress {
                base: if raw & 0x0800 != 0 {
                    ThumbLoadAddressBase::StackPointer
                } else {
                    ThumbLoadAddressBase::ProgramCounter
                },
                destination: ((raw >> 8) & 7) as u8,
                offset: (raw & 0xFF) << 2,
            },
        );
    }
    if raw & 0xFF00 == 0xB000 {
        return Ok(
            ThumbInstruction::AdjustStackPointer {
                operation: if raw & 0x0080 != 0 {
                    ThumbStackPointerOperation::Subtract
                } else {
                    ThumbStackPointerOperation::Add
                },
                offset: (raw & 0x7F) << 2,
            },
        );
    }
    if raw & 0xFE00 == 0xB400 {
        return Ok(
            ThumbInstruction::Push {
                registers: (raw & 0xFF) as u8,
                include_link_register: raw & 0x0100 != 0,
            },
        );
    }
    if raw & 0xFE00 == 0xBC00 {
        return Ok(
            ThumbInstruction::Pop {
                registers: (raw & 0xFF) as u8,
                include_program_counter: raw & 0x0100 != 0,
            },
        );
    }
    if raw & 0xF000 == 0xC000 {
        return Ok(
            ThumbInstruction::MultipleTransfer {
                load: raw & 0x0800 != 0,
                base_register: ((raw >> 8) & 7) as u8,
                registers: (raw & 0xFF) as u8,
            },
        );
    }
    if raw & 0xF000 == 0xD000 {
        let bits = ((raw >> 8) & 0xF) as u8;
        let immediate = (raw & 0xFF) as u8;
        if bits == 0xF {
            return Ok(ThumbInstruction::SoftwareInterrupt { comment: immediate });
        }
        if bits == 0xE {
            return Err(ThumbDecodeError::UndefinedConditionalBranch);
        }
        return Ok(
            ThumbInstruction::ConditionalBranch {
                condition: condition_of(bits),
                offset: sign_extend_8(immediate) * 2,
            },
        );
    }
    if raw & 0xF800 == 0xE000 {
        return Ok(ThumbInstruction::UnconditionalBranch { offset: sign_extend_11(raw) * 2 });
    }
    if raw & 0xF800 == 0xF000 {
        return Ok(
            ThumbInstruction::LongBranchWithLink {
                half: ThumbLongBranchHalf::First,
                offset: sign_extend_11(raw) * 0x1000,
            },
        );
    }
    if raw & 0xF800 == 0xF800 {
        return Ok(
            ThumbInstruction::LongBranchWithLink {
                half: ThumbLongBranchHalf::Second,
                offset: ((raw & 0x07FF) as i32) * 2,
            },
        );
    }
    Err(ThumbDecodeError::UnsupportedInstruction { raw })
}

/// The format-4 operations in the order of the ARM7TDMI's opcode field.
pub open spec fn format4_table() -> Seq<ThumbAluOperation> {
    seq![
        ThumbAluOperation::And,
        ThumbAluOperation::ExclusiveOr,
        ThumbAluOperation::LogicalShiftLeft,
        ThumbAluOperation::LogicalShiftRight,
        ThumbAluOperation::ArithmeticShiftRight,
        ThumbAluOperation::AddWithCarry,
        ThumbAluOperation::SubtractWithCarry,
        ThumbAluOperation::RotateRight,
        ThumbAluOperation::Test,
        ThumbAluOperation::Negate,
        ThumbAluOperation::Compare,
        ThumbAluOperation::CompareNegative,
        ThumbAluOperation::Or,
        ThumbAluOperation::Multiply,
        ThumbAluOperation::BitClear,
        ThumbAluOperation::MoveNot,
    ]
}

/// Every format-4 halfword `010000 oooo sss ddd` decodes to the ALU
/// operation that the ARM7TDMI's table gives its opcode field `oooo`
/// (0xE is BIC, 0xF is MVN, 0xC is ORR, ...), with Rs = `sss` and
/// Rd = `ddd`; and distinct fields give distinct operations.
pub proof fn law_format4_decodes_by_table(field: u16, source: u16, destination: u16)
    requires
        field < 16,
        source < 8,
        destination < 8,
    ensures
        spec_decode_thumb(0x4000u16 | (field << 6u16) | (source << 3u16) | destination) == Ok::<
            ThumbInstruction,
            ThumbDecodeError,
        >(
            ThumbInstruction::Alu {
                operation: format4_table()[field as int],
                source: source as u8,
                destination: destination as u8,
            },
        ),
        forall|a: int, b: int|
            0 <= a < 16 && 0 <= b < 16 && a != b ==> #[trigger] format4_table()[a]
                != #[trigger] format4_table()[b],
{
    let raw: u16 = 0x4000u16 | (field << 6u16) | (source << 3u16) | destination;
    assert(raw & 0xE000 == 0x4000 && raw & 0xF800 != 0x1800 && raw & 0xFC00 == 0x4000 && (raw >> 6u16)
        & 0x0F == field && (raw >> 3u16) & 7 == source && raw & 7 == destination) by (bit_vector)
        requires
            raw == 0x4000u16 | (field << 6u16) | (source << 3u16) | destination,
            field < 16,
            source < 8,
            destination < 8,
    ;
    assert(alu_operation_from(field) == format4_table()[field as int]);
}

/// Format 1 (`000 oo fffff sss ddd`, `oo` not 3) decodes to LSL, LSR or
/// ASR by `oo` with the five-bit offset, Rs and Rd.
pub proof fn law_format1_decodes_by_table(op: u16, offset: u16, source: u16, destination: u16)
    requires
        op < 3,
        offset < 32,
        source < 8,
        destination < 8,
    ensures
        spec_decode_thumb((op << 11u16) | (offset << 6u16) | (source << 3u16) | destination) == Ok::<
            ThumbInstruction,
            ThumbDecodeError,
        >(
            ThumbInstruction::MoveShiftedRegister {
                operation: seq![
                    ThumbShiftOperation::LogicalLeft,
                    ThumbShiftOperation::LogicalRight,
                    ThumbShiftOperation::ArithmeticRight,
                ][op as int],
                offset: offset as u8,
                source: source as u8,
                destination: destination as u8,
            },
        ),
{
    let raw: u16 = (op << 11u16) | (offset << 6u16) | (source << 3u16) | destination;
    assert(raw & 0xE000 == 0 && (raw >> 11u16) & 3 == op && (raw >> 6u16) & 0x1F == offset && (raw
        >> 3u16) & 7 == source && raw & 7 == destination) by (bit_vector)
        requires
            raw == (op << 11u16) | (offset << 6u16) | (source << 3u16) | destination,
            op < 3,
            offset < 32,
            source < 8,
            destination < 8,
    ;
}

/// Format 3 (`001 oo ddd iiiiiiii`) decodes to MOV, CMP, ADD or SUB by
/// `oo` with Rd and the eight-bit immediate.
pub proof fn law_format3_decodes_by_table(op: u16, destination: u16, immediate: u16)
    requires
        op < 4,
        destination < 8,
        immediate < 256,
    ensures
        spec_decode_thumb(0x2000u16 | (op << 11u16) | (destination << 8u16) | immediate) == Ok::<
            ThumbInstruction,
            ThumbDecodeError,
        >(
            ThumbInstruction::Immediate {
                operation: seq![
                    ThumbImmediateOperation::Move,
                    ThumbImmediateOperation::Compare,
                    ThumbImmediateOperation::Add,
                    ThumbImmediateOperation::Subtract,
                ][op as int],
                destination: destination as u8,
                immediate: immediate as u8,
            },
        ),
{
    let raw: u16 = 0x2000u16 | (op << 11u16) | (destination << 8u16) | immediate;
    assert(raw & 0xE000 == 0x2000 && raw & 0xF800 != 0x1800 && (raw >> 11u16) & 3 == op && (raw
        >> 8u16) & 7 == destination && raw & 0xFF == immediate) by (bit_vector)
        requires
            raw == 0x2000u16 | (op << 11u16) | (destination << 8u16) | immediate,
            op < 4,
            destination < 8,
            immediate < 256,
    ;
}

/// Format 5 (`010001 oo h H sss ddd`) decodes to ADD, CMP, MOV or BX by
/// `oo`, with Rs = `sss` + 8·H and Rd = `ddd` + 8·h.
pub proof fn law_format5_decodes_by_table(op: u16, h1: u16, h2: u16, source: u16, destination: u16)
    requires
        op < 4,
        h1 < 2,
        h2 < 2,
        source < 8,
        destination < 8,
    ensures
        spec_decode_thumb(
            0x4400u16 | (op << 8u16) | (h1 << 7u16) | (h2 << 6u16) | (source << 3u16) | destination,
        ) == Ok::<ThumbInstruction, ThumbDecodeError>(
            ThumbInstruction::HighRegister {
                operation: seq![
                    ThumbHighRegisterOperation::Add,
                    ThumbHighRegisterOperation::Compare,
                    ThumbHighRegisterOperation::Move,
                    ThumbHighRegisterOperation::BranchExchange,
                ][op as int],
                source: (source + 8 * h2) as u8,
                destination: (destination + 8 * h1) as u8,
            },
        ),
{
    let raw: u16 = 0x4400u16 | (op << 8u16) | (h1 << 7u16) | (h2 << 6u16) | (source << 3u16)
        | destination;
    assert(raw & 0xE000 == 0x4000 && raw & 0xF800 != 0x1800 && raw & 0xFC00 == 0x4400 && (raw
        >> 8u16) & 3 == op && ((raw >> 3u16) & 7) | (((raw >> 6u16) & 1) << 3u16) == source + 8 * h2
        && (raw & 7) | (((raw >> 7u16) & 1) << 3u16) == destination + 8 * h1) by (bit_vector)
        requires
            raw == 0x4400u16 | (op << 8u16) | (h1 << 7u16) | (h2 << 6u16) | (source << 3u16)
                | destination,
            op < 4,
            h1 < 2,
            h2 < 2,
            source < 8,
            destination < 8,
    ;
}

} // verus!
