pub mod alu;
pub mod barrel_shifter;
pub mod data_processing;
pub mod decoder;

pub use self::alu::{add_with_carry, arithmetic_shift_flags, logical_flags, AddResult, AluFlags};
pub use self::barrel_shifter::{expand_rotated_immediate, shift_immediate, shift_register, ShiftResult};
pub use self::data_processing::{
    decode_data_processing, DataProcessingDecodeError, DataProcessingInstruction,
    DataProcessingOpcode, Operand2, RegisterShift, ShiftAmount, ShiftType,
};
pub use self::decoder::{classify, condition, condition_passed, ArmCondition, ArmInstructionKind};
pub mod data_processing_executor;
pub use self::data_processing_executor::{
    execute_data_processing, DataProcessingExecutionError, DataProcessingExecutionResult,
};
pub mod branch;
pub mod branch_exchange;
pub mod branch_exchange_executor;
pub mod branch_executor;
pub use self::branch::{decode_branch, BranchDecodeError, BranchInstruction};
pub use self::branch_exchange::{
    decode_branch_exchange, BranchExchangeDecodeError, BranchExchangeInstruction,
};
pub use self::branch_exchange_executor::{
    execute_branch_exchange, BranchExchangeExecutionError, BranchExchangeExecutionResult,
};
pub use self::branch_executor::{execute_branch, BranchExecutionResult};
pub mod multiply;
pub mod multiply_executor;
pub mod multiply_long;
pub mod multiply_long_executor;
pub use self::multiply::{decode_multiply, MultiplyDecodeError, MultiplyInstruction};
pub use self::multiply_executor::{execute_multiply, multiply_iteration_count, MultiplyExecutionResult};
pub use self::multiply_long::{decode_multiply_long, MultiplyLongDecodeError, MultiplyLongInstruction};
pub use self::multiply_long_executor::{execute_multiply_long, MultiplyLongExecutionResult};
pub mod software_interrupt;
pub mod software_interrupt_executor;
pub mod status_register;
pub mod status_register_executor;
pub use self::software_interrupt::{
    decode_software_interrupt, SoftwareInterruptDecodeError, SoftwareInterruptInstruction,
};
pub use self::software_interrupt_executor::execute_software_interrupt;
pub use self::status_register::{
    decode_status_register, ProgramStatusRegister, StatusRegisterDecodeError,
    StatusRegisterInstruction, StatusRegisterMask, StatusRegisterOperand,
};
pub use self::status_register_executor::{execute_status_register, StatusRegisterExecutionError};
pub mod block_data_transfer;
pub use self::block_data_transfer::{
    decode_block_data_transfer, BlockAddressingMode, BlockDataTransferDecodeError,
    BlockDataTransferInstruction, RegisterList,
};
pub mod halfword_data_transfer;
pub mod single_data_transfer;
pub use self::halfword_data_transfer::{
    decode_halfword_data_transfer, HalfwordDataTransferDecodeError,
    HalfwordDataTransferInstruction, HalfwordTransferKind, HalfwordTransferOffset,
};
pub use self::single_data_transfer::{
    decode_single_data_transfer, SingleDataTransferDecodeError, SingleDataTransferInstruction,
    TransferOffset,
};
pub mod block_data_transfer_executor;
pub use self::block_data_transfer_executor::{
    calculate_addresses, execute_block_data_transfer, BlockDataTransferExecutionError,
    BlockDataTransferExecutionResult,
};
pub mod halfword_data_transfer_executor;
pub use self::halfword_data_transfer_executor::{
    execute_halfword_data_transfer, HalfwordDataTransferExecutionError,
    HalfwordDataTransferExecutionResult,
};
pub mod single_data_transfer_executor;
pub use self::single_data_transfer_executor::{
    execute_single_data_transfer, SingleDataTransferExecutionError,
    SingleDataTransferExecutionResult,
};
pub mod instruction;
pub mod instruction_decoder;
pub use self::instruction::ArmInstruction;
pub use self::instruction_decoder::{decode_arm, ArmDecodeError};
pub mod executor;
pub use self::executor::{execute_arm, ArmExecutionError};
