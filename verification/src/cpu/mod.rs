pub mod cpsr;
pub mod exception;
pub mod mode;
pub mod registers;

pub use self::cpsr::Cpsr;
pub use self::exception::Exception;
pub use self::mode::{CpuMode, InvalidCpuMode};
pub use self::registers::{Registers, SpsrAccessError};
pub mod exception_handler;
pub use self::exception_handler::{
    enter_exception, return_from_exception, ExceptionEntryResult, ExceptionError,
    ExceptionReturnResult,
};
pub mod arm;
pub mod thumb;
pub mod state;
pub use self::state::CpuState;
pub mod processor;
pub use self::processor::{Cpu, CpuView};
