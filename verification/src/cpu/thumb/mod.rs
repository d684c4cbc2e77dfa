pub mod decoder;
pub mod instruction;

pub use self::decoder::{decode_thumb, ThumbDecodeError};
pub use self::instruction::{
    ThumbAddSubtractOperand, ThumbAddSubtractOperation, ThumbAluOperation, ThumbCondition,
    ThumbHalfwordTransferKind, ThumbHighRegisterOperation, ThumbImmediateOperation,
    ThumbImmediateTransferKind, ThumbInstruction, ThumbLoadAddressBase, ThumbLongBranchHalf,
    ThumbRegisterOffsetTransferKind, ThumbShiftOperation, ThumbSpRelativeTransferKind,
    ThumbStackPointerOperation,
};
pub mod executor;
pub use self::executor::{execute_thumb, ThumbExecutionError, ThumbExecutionResult};
pub mod stack;
