use vstd::prelude::*;

use super::branch::BranchInstruction;
use super::branch_exchange::BranchExchangeInstruction;
use super::data_processing::{operand2_registers_in_range, DataProcessingInstruction};
use super::decoder::ArmCondition;
use super::multiply::MultiplyInstruction;
use super::single_data_transfer::{SingleDataTransferInstruction, TransferOffset};

verus! {

/// A decoded ARM instruction. Families with a typed decoding carry it;
/// the others carry their condition and the raw word.
#[derive(Debug, Clone, Copy, PartialEq, Eq, Structural)]
pub enum ArmInstruction {
    DataProcessing(DataProcessingInstruction),
    BranchExchange(BranchExchangeInstruction),
    Multiply(MultiplyInstruction),
    SingleDataTransfer(SingleDataTransferInstruction),
    MultiplyLong { condition: ArmCondition, raw: u32 },
    SingleDataSwap { condition: ArmCondition, raw: u32 },
    HalfwordDataTransfer { condition: ArmCondition, raw: u32 },
    BlockDataTransfer { condition: ArmCondition, raw: u32 },
    Branch(BranchInstruction),
    CoprocessorDataTransfer { condition: ArmCondition, raw: u32 },
    CoprocessorDataOperation { condition: ArmCondition, raw: u32 },
    CoprocessorRegisterTransfer { condition: ArmCondition, raw: u32 },
    SoftwareInterrupt { condition: ArmCondition, comment: u32 },
    Undefined { condition: ArmCondition, raw: u32 },
}

/// The condition field an instruction carries.
pub open spec fn spec_instruction_condition(instruction: ArmInstruction) -> ArmCondition {
    match instruction {
        ArmInstruction::DataProcessing(i) => i.condition,
        ArmInstruction::Branch(i) => i.condition,
        ArmInstruction::BranchExchange(i) => i.condition,
        ArmInstruction::Multiply(i) => i.condition,
        ArmInstruction::SingleDataTransfer(i) => i.condition,
        ArmInstruction::MultiplyLong { condition, .. } => condition,
        ArmInstruction::SingleDataSwap { condition, .. } => condition,
        ArmInstruction::HalfwordDataTransfer { condition, .. } => condition,
        ArmInstruction::BlockDataTransfer { condition, .. } => condition,
        ArmInstruction::CoprocessorDataTransfer { condition, .. } => condition,
        ArmInstruction::CoprocessorDataOperation { condition, .. } => condition,
        ArmInstruction::CoprocessorRegisterTransfer { condition, .. } => condition,
        ArmInstruction::SoftwareInterrupt { condition, .. } => condition,
        ArmInstruction::Undefined { condition, .. } => condition,
    }
}

/// Every register number a typed instruction names is below 16, as it is
/// for every decoded instruction.
pub open spec fn instruction_registers_in_range(instruction: ArmInstruction) -> bool {
    match instruction {
        ArmInstruction::DataProcessing(d) => d.rn < 16 && d.rd < 16
            && operand2_registers_in_range(d.operand2),
        ArmInstruction::BranchExchange(b) => b.register < 16,
        ArmInstruction::Multiply(m) => m.rd < 16 && m.rn < 16 && m.rs < 16 && m.rm < 16,
        ArmInstruction::SingleDataTransfer(s) => s.rn < 16 && s.rd < 16 && (
        s.offset matches TransferOffset::ShiftedRegister { rm, .. } ==> rm < 16),
        _ => true,
    }
}

impl ArmInstruction {
    pub fn condition(self) -> (r: ArmCondition)
        ensures
            r == spec_instruction_condition(self),
    {
        match self {
            ArmInstruction::DataProcessing(instruction) => instruction.condition,
            ArmInstruction::Branch(instruction) => instruction.condition,
            ArmInstruction::BranchExchange(instruction) => instruction.condition,
            ArmInstruction::Multiply(instruction) => instruction.condition,
            ArmInstruction::SingleDataTransfer(instruction) => instruction.condition,
            ArmInstruction::MultiplyLong { condition, .. } => condition,
            ArmInstruction::SingleDataSwap { condition, .. } => condition,
            ArmInstruction::HalfwordDataTransfer { condition, .. } => condition,
            ArmInstruction::BlockDataTransfer { condition, .. } => condition,
            ArmInstruction::CoprocessorDataTransfer { condition, .. } => condition,
            ArmInstruction::CoprocessorDataOperation { condition, .. } => condition,
            ArmInstruction::CoprocessorRegisterTransfer { condition, .. } => condition,
            ArmInstruction::SoftwareInterrupt { condition, .. } => condition,
            ArmInstruction::Undefined { condition, .. } => condition,
        }
    }
}

} // verus!
