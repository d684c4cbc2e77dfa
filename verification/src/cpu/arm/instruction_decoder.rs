use vstd::prelude::*;

use super::branch::{decode_branch, spec_decode_branch, BranchDecodeError};
use super::branch_exchange::{decode_branch_exchange, BranchExchangeDecodeError, BranchExchangeInstruction};
use super::data_processing::{
    decode_data_processing, spec_decode_data_processing, DataProcessingDecodeError,
};
use super::decoder::{classify, condition, spec_classify, spec_condition, ArmInstructionKind};
use super::instruction::{instruction_registers_in_range, ArmInstruction};
use super::multiply::{decode_multiply, spec_decode_multiply, MultiplyDecodeError};
use super::single_data_transfer::{
    decode_single_data_transfer, spec_decode_single_data_transfer, SingleDataTransferDecodeError,
};

verus! {

/// Why a word of a typed family does not decode.
#[derive(Debug, Clone, Copy, PartialEq, Eq, Structural)]
pub enum ArmDecodeError {
    DataProcessing(DataProcessingDecodeError),
    Branch(BranchDecodeError),
    BranchExchange(BranchExchangeDecodeError),
    Multiply(MultiplyDecodeError),
    SingleDataTransfer(SingleDataTransferDecodeError),
}

/// The decoding of an instruction word: classified by family, then
/// decoded by the family's own decoder where there is one.
pub open spec fn spec_decode_arm(i: u32) -> Result<ArmInstruction, ArmDecodeError> {
    let condition = spec_condition(i);
    match spec_classify(i) {
        ArmInstructionKind::DataProcessing => match spec_decode_data_processing(i) {
            Ok(d) => Ok(ArmInstruction::DataProcessing(d)),
            Err(e) => Err(ArmDecodeError::DataProcessing(e)),
        },
        ArmInstructionKind::Branch => match spec_decode_branch(i) {
            Ok(b) => Ok(ArmInstruction::Branch(b)),
            Err(e) => Err(ArmDecodeError::Branch(e)),
        },
        ArmInstructionKind::BranchExchange => Ok(
            ArmInstruction::BranchExchange(
                BranchExchangeInstruction { condition, register: (i & 0x0F) as u8 },
            ),
        ),
        ArmInstructionKind::Multiply => match spec_decode_multiply(i) {
            Ok(m) => Ok(ArmInstruction::Multiply(m)),
            Err(e) => Err(ArmDecodeError::Multiply(e)),
        },
        ArmInstructionKind::SingleDataTransfer => match spec_decode_single_data_transfer(i) {
            Ok(s) => Ok(ArmInstruction::SingleDataTransfer(s)),
            Err(e) => Err(ArmDecodeError::SingleDataTransfer(e)),
        },
        ArmInstructionKind::MultiplyLong => Ok(ArmInstruction::MultiplyLong { condition, raw: i }),
        ArmInstructionKind::SingleDataSwap => Ok(
            ArmInstruction::SingleDataSwap { condition, raw: i },
        ),
        ArmInstructionKind::HalfwordDataTransfer => Ok(
            ArmInstruction::HalfwordDataTransfer { condition, raw: i },
        ),
        ArmInstructionKind::BlockDataTransfer => Ok(
            ArmInstruction::BlockDataTransfer { condition, raw: i },
        ),
        ArmInstructionKind::CoprocessorDataTransfer => Ok(
            ArmInstruction::CoprocessorDataTransfer { condition, raw: i },
        ),
        ArmInstructionKind::CoprocessorDataOperation => Ok(
            ArmInstruction::CoprocessorDataOperation { condition, raw: i },
        ),
        ArmInstructionKind::CoprocessorRegisterTransfer => Ok(
            ArmInstruction::CoprocessorRegisterTransfer { condition, raw: i },
        ),
        ArmInstructionKind::SoftwareInterrupt => Ok(
            ArmInstruction::SoftwareInterrupt { condition, comment: i & 0x00FF_FFFF },
        ),
        ArmInstructionKind::Undefined => Ok(ArmInstruction::Undefined { condition, raw: i }),
    }
}

/// Decodes an ARM instruction word.
pub fn decode_arm(instruction: u32) -> (r: Result<ArmInstruction, ArmDecodeError>)
    ensures
        r == spec_decode_arm(instruction),
        r matches Ok(decoded) ==> instruction_registers_in_range(decoded),
{
    let condition = condition(instruction);
    match classify(instruction) {
        ArmInstructionKind::DataProcessing => match decode_data_processing(instruction) {
            Ok(decoded) => Ok(ArmInstruction::DataProcessing(decoded)),
            Err(error) => Err(ArmDecodeError::DataProcessing(error)),
        },
        ArmInstructionKind::Branch => match decode_branch(instruction) {
            Ok(decoded) => Ok(ArmInstruction::Branch(decoded)),
            Err(error) => Err(ArmDecodeError::Branch(error)),
        },
        ArmInstructionKind::BranchExchange => match decode_branch_exchange(instruction) {
            Ok(decoded) => Ok(ArmInstruction::BranchExchange(decoded)),
            Err(error) => Err(ArmDecodeError::BranchExchange(error)),
        },
        ArmInstructionKind::Multiply => match decode_multiply(instruction) {
            Ok(decoded) => Ok(ArmInstruction::Multiply(decoded)),
            Err(error) => Err(ArmDecodeError::Multiply(error)),
        },
        ArmInstructionKind::SingleDataTransfer => match decode_single_data_transfer(instruction) {
            Ok(decoded) => Ok(ArmInstruction::SingleDataTransfer(decoded)),
            Err(error) => Err(ArmDecodeError::SingleDataTransfer(error)),
        },
        ArmInstructionKind::MultiplyLong => Ok(
            ArmInstruction::MultiplyLong { condition, raw: instruction },
        ),
        ArmInstructionKind::SingleDataSwap => Ok(
            ArmInstruction::SingleDataSwap { condition, raw: instruction },
        ),
        ArmInstructionKind::HalfwordDataTransfer => Ok(
            ArmInstruction::HalfwordDataTransfer { condition, raw: instruction },
        ),
        ArmInstructionKind::BlockDataTransfer => Ok(
            ArmInstruction::BlockDataTransfer { condition, raw: instruction },
        ),
        ArmInstructionKind::CoprocessorDataTransfer => Ok(
            ArmInstruction::CoprocessorDataTransfer { condition, raw: instruction },
        ),
        ArmInstructionKind::CoprocessorDataOperation => Ok(
            ArmInstruction::CoprocessorDataOperation { condition, raw: instruction },
        ),
        ArmInstructionKind::CoprocessorRegisterTransfer => Ok(
            ArmInstruction::CoprocessorRegisterTransfer { condition, raw: instruction },
        ),
        ArmInstructionKind::SoftwareInterrupt => Ok(
            ArmInstruction::SoftwareInterrupt { condition, comment: instruction & 0x00FF_FFFF },
        ),
        ArmInstructionKind::Undefined => Ok(
            ArmInstruction::Undefined { condition, raw: instruction },
        ),
    }
}

} // verus!

verus! {

/// Decoding keeps the condition field: every decoded instruction carries
/// the condition of bits 31..28.
pub proof fn law_decoding_keeps_condition(i: u32)
    ensures
        spec_decode_arm(i) matches Ok(decoded) ==> crate::cpu::arm::instruction::spec_instruction_condition(
            decoded,
        ) == spec_condition(i),
{
}

} // verus!
