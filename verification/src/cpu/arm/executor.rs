use vstd::prelude::*;

use crate::bus::{bus_written16, bus_written32, bus_written8, Bus};
use crate::cpu::exception::Exception;
use crate::cpu::exception_handler::entered;
use crate::cpu::registers::{RegisterFile, Registers};

use super::block_data_transfer::{
    decode_block_data_transfer, list_count_below, spec_decode_block_data_transfer,
    BlockDataTransferDecodeError, BlockDataTransferInstruction,
};
use super::block_data_transfer_executor::{
    block_addresses, block_transfer_error, execute_block_data_transfer, loaded, stored,
    BlockDataTransferExecutionError,
};
use super::branch_exchange_executor::{
    execute_branch_exchange, spec_exchanged, BranchExchangeExecutionError,
};
use super::branch_executor::{execute_branch, spec_execute_branch};
use super::data_processing_executor::{
    execute_data_processing, spec_execute_data_processing, DataProcessingExecutionError,
};
use super::halfword_data_transfer::{
    decode_halfword_data_transfer, spec_decode_halfword_data_transfer,
    HalfwordDataTransferDecodeError, HalfwordDataTransferInstruction,
};
use super::halfword_data_transfer_executor::{
    execute_halfword_data_transfer, halfword_address, halfword_error, halfword_loaded,
    halfword_modified_base, halfword_store_value, with_loaded, HalfwordDataTransferExecutionError,
};
use super::instruction::{instruction_registers_in_range, ArmInstruction};
use super::multiply_executor::{execute_multiply, spec_execute_multiply};
use super::multiply_long::{decode_multiply_long, spec_decode_multiply_long, MultiplyLongDecodeError};
use super::multiply_long_executor::{execute_multiply_long, spec_execute_multiply_long};
use super::single_data_transfer::SingleDataTransferInstruction;
use super::single_data_transfer_executor::{
    execute_single_data_transfer, single_transfer_error, transfer_address, transfer_loaded,
    transfer_offset_address, SingleDataTransferExecutionError,
};
use super::software_interrupt::SoftwareInterruptInstruction;
use super::software_interrupt_executor::execute_software_interrupt;

verus! {

/// Why an instruction was not carried out.
#[derive(Debug, Clone, Copy, PartialEq, Eq, Structural)]
pub enum ArmExecutionError {
    DataProcessing(DataProcessingExecutionError),
    BranchExchange(BranchExchangeExecutionError),
    MultiplyLongDecode(MultiplyLongDecodeError),
    SingleDataTransfer(SingleDataTransferExecutionError),
    HalfwordDataTransferDecode(HalfwordDataTransferDecodeError),
    HalfwordDataTransfer(HalfwordDataTransferExecutionError),
    BlockDataTransferDecode(BlockDataTransferDecodeError),
    BlockDataTransfer(BlockDataTransferExecutionError),
    UnimplementedInstruction,
}

/// The registers and bus after a single data transfer, or the refusal.
pub open spec fn single_transfer_effect(
    old_registers: RegisterFile,
    old_bus: Bus,
    new_registers: RegisterFile,
    new_bus: Bus,
    instruction: SingleDataTransferInstruction,
    instruction_address: u32,
    r: Result<(), ArmExecutionError>,
) -> bool {
    match single_transfer_error(instruction) {
        Some(e) => r == Err::<(), ArmExecutionError>(ArmExecutionError::SingleDataTransfer(e))
            && new_registers == old_registers && new_bus == old_bus,
        None => {
            let address = transfer_address(old_registers, instruction, instruction_address);
            let modified = transfer_offset_address(old_registers, instruction, instruction_address);
            let value = transfer_loaded(old_bus, instruction.byte, address);
            let stored_value = if instruction.rd == 15 {
                instruction_address.wrapping_add(12)
            } else {
                old_registers.read(instruction.rd as int)
            };
            let after_transfer = if instruction.load {
                with_loaded(old_registers, instruction.rd, value)
            } else {
                old_registers
            };
            &&& r is Ok
            &&& new_registers == if instruction.write_back {
                after_transfer.write(instruction.rn as int, modified)
            } else {
                after_transfer
            }
            &&& instruction.load ==> new_bus == old_bus
            &&& (!instruction.load && instruction.byte) ==> bus_written8(
                old_bus,
                new_bus,
                address,
                stored_value as u8,
            )
            &&& (!instruction.load && !instruction.byte) ==> bus_written32(
                old_bus,
                new_bus,
                address & !3u32,
                stored_value,
            )
        },
    }
}

/// The registers and bus after a halfword or signed transfer, or the
/// refusal.
pub open spec fn halfword_transfer_effect(
    old_registers: RegisterFile,
    old_bus: Bus,
    new_registers: RegisterFile,
    new_bus: Bus,
    instruction: HalfwordDataTransferInstruction,
    instruction_address: u32,
    r: Result<(), ArmExecutionError>,
) -> bool {
    match halfword_error(old_registers, instruction, instruction_address) {
        Some(e) => r == Err::<(), ArmExecutionError>(ArmExecutionError::HalfwordDataTransfer(e))
            && new_registers == old_registers && new_bus == old_bus,
        None => {
            let address = halfword_address(old_registers, instruction, instruction_address);
            let modified = halfword_modified_base(old_registers, instruction, instruction_address);
            let load = instruction.kind.spec_is_load();
            let value = halfword_loaded(old_bus, instruction.kind, address);
            let after_transfer = if load {
                with_loaded(old_registers, instruction.rd, value)
            } else {
                old_registers
            };
            &&& r is Ok
            &&& new_registers == if instruction.write_back {
                after_transfer.write(instruction.rn as int, modified)
            } else {
                after_transfer
            }
            &&& load ==> new_bus == old_bus
            &&& !load ==> bus_written16(
                old_bus,
                new_bus,
                address,
                halfword_store_value(old_registers, instruction.rd, instruction_address) as u16,
            )
        },
    }
}

/// The registers and bus after a block transfer, or the refusal.
pub open spec fn block_transfer_effect(
    old_registers: RegisterFile,
    old_bus: Bus,
    new_registers: RegisterFile,
    new_bus: Bus,
    instruction: BlockDataTransferInstruction,
    instruction_address: u32,
    r: Result<(), ArmExecutionError>,
) -> bool {
    match block_transfer_error(instruction) {
        Some(e) => r == Err::<(), ArmExecutionError>(ArmExecutionError::BlockDataTransfer(e))
            && new_registers == old_registers && new_bus == old_bus,
        None => {
            let bits = instruction.registers@;
            let count = list_count_below(bits, 16);
            let base = old_registers.read(instruction.rn as int);
            let (first, written_back) = block_addresses(base, (count * 4) as u32, instruction.addressing_mode);
            let after_transfer = if instruction.load {
                loaded(old_registers, old_bus, bits, first, 16)
            } else {
                old_registers
            };
            &&& r is Ok
            &&& new_registers == if instruction.write_back {
                after_transfer.write(instruction.rn as int, written_back)
            } else {
                after_transfer
            }
            &&& instruction.load ==> new_bus == old_bus
            &&& !instruction.load ==> stored(
                old_bus,
                new_bus,
                old_registers,
                bits,
                first,
                instruction_address,
                16,
            )
        },
    }
}

/// What executing `instruction` at `instruction_address` does to the
/// registers and the bus, and what it reports. Families without an
/// executor leave both unchanged and report `UnimplementedInstruction`.
pub open spec fn arm_executed(
    old_registers: RegisterFile,
    old_bus: Bus,
    new_registers: RegisterFile,
    new_bus: Bus,
    instruction: ArmInstruction,
    instruction_address: u32,
    r: Result<(), ArmExecutionError>,
) -> bool {
    let unchanged = new_registers == old_registers && new_bus == old_bus;
    match instruction {
        ArmInstruction::DataProcessing(d) => {
            let (registers, outcome) = spec_execute_data_processing(old_registers, d, instruction_address);
            &&& new_registers == registers
            &&& new_bus == old_bus
            &&& r == match outcome {
                Ok(_) => Ok::<(), ArmExecutionError>(()),
                Err(e) => Err(ArmExecutionError::DataProcessing(e)),
            }
        },
        ArmInstruction::Branch(b) => new_registers == spec_execute_branch(old_registers, b, instruction_address)
            && new_bus == old_bus && r is Ok,
        ArmInstruction::BranchExchange(b) => if b.register == 15 {
            unchanged && r == Err::<(), ArmExecutionError>(
                ArmExecutionError::BranchExchange(BranchExchangeExecutionError::ProgramCounterAsSourceNotSupported),
            )
        } else {
            new_registers == spec_exchanged(old_registers, old_registers.read(b.register as int))
                && new_bus == old_bus && r is Ok
        },
        ArmInstruction::Multiply(m) => new_registers == spec_execute_multiply(old_registers, m)
            && new_bus == old_bus && r is Ok,
        ArmInstruction::MultiplyLong { raw, .. } => match spec_decode_multiply_long(raw) {
            Ok(m) => new_registers == spec_execute_multiply_long(old_registers, m) && new_bus == old_bus
                && r is Ok,
            Err(e) => unchanged && r == Err::<(), ArmExecutionError>(ArmExecutionError::MultiplyLongDecode(e)),
        },
        ArmInstruction::SingleDataTransfer(s) => single_transfer_effect(
            old_registers,
            old_bus,
            new_registers,
            new_bus,
            s,
            instruction_address,
            r,
        ),
        ArmInstruction::HalfwordDataTransfer { raw, .. } => match spec_decode_halfword_data_transfer(raw) {
            Ok(h) => halfword_transfer_effect(
                old_registers,
                old_bus,
                new_registers,
                new_bus,
                h,
                instruction_address,
                r,
            ),
            Err(e) => unchanged && r == Err::<(), ArmExecutionError>(
                ArmExecutionError::HalfwordDataTransferDecode(e),
            ),
        },
        ArmInstruction::BlockDataTransfer { raw, .. } => match spec_decode_block_data_transfer(raw) {
            Ok(b) => block_transfer_effect(
                old_registers,
                old_bus,
                new_registers,
                new_bus,
                b,
                instruction_address,
                r,
            ),
            Err(e) => unchanged && r == Err::<(), ArmExecutionError>(
                ArmExecutionError::BlockDataTransferDecode(e),
            ),
        },
        ArmInstruction::SoftwareInterrupt { .. } => new_registers == entered(
            old_registers,
            Exception::SoftwareInterrupt,
            instruction_address.wrapping_add(4),
        ) && new_bus == old_bus && r is Ok,
        _ => unchanged && r == Err::<(), ArmExecutionError>(ArmExecutionError::UnimplementedInstruction),
    }
}

/// Executes a decoded ARM instruction whose condition has passed.
pub fn execute_arm(
    registers: &mut Registers,
    bus: &mut Bus,
    instruction: &ArmInstruction,
    instruction_address: u32,
) -> (r: Result<(), ArmExecutionError>)
    requires
        old(registers)@.valid(),
        old(bus).wf(),
        instruction_registers_in_range(*instruction),
    ensures
        final(bus).wf(),
        final(registers)@.valid(),
        arm_executed(
            old(registers)@,
            *old(bus),
            final(registers)@,
            *final(bus),
            *instruction,
            instruction_address,
            r,
        ),
{
    match *instruction {
        ArmInstruction::DataProcessing(decoded) => {
            match execute_data_processing(registers, decoded, instruction_address) {
                Ok(_) => Ok(()),
                Err(error) => Err(ArmExecutionError::DataProcessing(error)),
            }
        },
        ArmInstruction::Branch(decoded) => {
            execute_branch(registers, decoded, instruction_address);
            Ok(())
        },
        ArmInstruction::BranchExchange(decoded) => {
            match execute_branch_exchange(registers, decoded) {
                Ok(_) => Ok(()),
                Err(error) => Err(ArmExecutionError::BranchExchange(error)),
            }
        },
        ArmInstruction::Multiply(decoded) => {
            execute_multiply(registers, decoded);
            Ok(())
        },
        ArmInstruction::MultiplyLong { raw, .. } => match decode_multiply_long(raw) {
            Ok(decoded) => {
                execute_multiply_long(registers, decoded);
                Ok(())
            },
            Err(error) => Err(ArmExecutionError::MultiplyLongDecode(error)),
        },
        ArmInstruction::SingleDataTransfer(decoded) => {
            match execute_single_data_transfer(registers, bus, decoded, instruction_address) {
                Ok(_) => Ok(()),
                Err(error) => Err(ArmExecutionError::SingleDataTransfer(error)),
            }
        },
        ArmInstruction::HalfwordDataTransfer { raw, .. } => match decode_halfword_data_transfer(raw) {
            Ok(decoded) => {
                match execute_halfword_data_transfer(registers, bus, decoded, instruction_address) {
                    Ok(_) => Ok(()),
                    Err(error) => Err(ArmExecutionError::HalfwordDataTransfer(error)),
                }
            },
            Err(error) => Err(ArmExecutionError::HalfwordDataTransferDecode(error)),
        },
        ArmInstruction::BlockDataTransfer { raw, .. } => match decode_block_data_transfer(raw) {
            Ok(decoded) => {
                match execute_block_data_transfer(registers, bus, decoded, instruction_address) {
                    Ok(_) => Ok(()),
                    Err(error) => Err(ArmExecutionError::BlockDataTransfer(error)),
                }
            },
            Err(error) => Err(ArmExecutionError::BlockDataTransferDecode(error)),
        },
        ArmInstruction::SoftwareInterrupt { condition, comment } => {
            let _ = execute_software_interrupt(
                registers,
                SoftwareInterruptInstruction { condition, comment },
                instruction_address,
            );
            Ok(())
        },
        _ => Err(ArmExecutionError::UnimplementedInstruction),
    }
}

} // verus!
