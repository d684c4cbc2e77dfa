use vstd::prelude::*;

use crate::cpu::exception::{exception_mode, exception_vector, Exception};
use crate::cpu::exception_handler::{
    entered, enter_exception, ExceptionEntryResult, ExceptionError,
};
use crate::cpu::registers::Registers;

use super::software_interrupt::SoftwareInterruptInstruction;

verus! {

/// Executes SWI at `instruction_address`: enters Supervisor mode with the
/// following instruction (address + 4) as return address.
pub fn execute_software_interrupt(
    registers: &mut Registers,
    instruction: SoftwareInterruptInstruction,
    instruction_address: u32,
) -> (r: Result<ExceptionEntryResult, ExceptionError>)
    requires
        old(registers)@.valid(),
    ensures
        final(registers)@.valid(),
        final(registers)@ == entered(
            old(registers)@,
            Exception::SoftwareInterrupt,
            instruction_address.wrapping_add(4),
        ),
        r == Ok::<ExceptionEntryResult, ExceptionError>(
            ExceptionEntryResult {
                exception: Exception::SoftwareInterrupt,
                previous_mode: old(registers)@.current_mode(),
                new_mode: exception_mode(Exception::SoftwareInterrupt),
                return_address: instruction_address.wrapping_add(4),
                vector: exception_vector(Exception::SoftwareInterrupt),
            },
        ),
{
    let return_address = instruction_address.wrapping_add(4);
    enter_exception(registers, Exception::SoftwareInterrupt, return_address)
}

} // verus!
