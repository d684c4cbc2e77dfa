use vstd::prelude::*;

use crate::bus::{bus_written32, bus_written8, Bus};
use crate::cpu::cpsr::{bit_set, carry_mask};
use crate::cpu::registers::{RegisterFile, Registers};

use super::barrel_shifter::{rotate_right, rotate_right_spec, shift_immediate, spec_shift_immediate};
use super::halfword_data_transfer_executor::{base_value, with_loaded};
use super::single_data_transfer::{SingleDataTransferInstruction, TransferOffset};

verus! {

#[derive(Debug, Clone, Copy, PartialEq, Eq, Structural)]
pub struct SingleDataTransferExecutionResult {
    pub address: u32,
    pub loaded_value: Option<u32>,
    pub written_back_value: Option<u32>,
    pub branch: bool,
}

/// The refusals: LDRT/STRT, write-back to PC, LDR with write-back into its
/// own base, and LDRB into PC.
#[derive(Debug, Clone, Copy, PartialEq, Eq, Structural)]
pub enum SingleDataTransferExecutionError {
    ForceUserModeNotImplemented,
    WriteBackToProgramCounter,
    LoadWriteBackBaseEqualsDestination,
    ByteLoadToProgramCounter,
}

/// The offset: an immediate, or a register shifted by an immediate with
/// the current carry.
pub open spec fn transfer_offset_value(registers: RegisterFile, offset: TransferOffset) -> u32 {
    match offset {
        TransferOffset::Immediate(value) => value as u32,
        TransferOffset::ShiftedRegister { rm, shift_type, shift_amount } => spec_shift_immediate(
            registers.read(rm as int),
            shift_type,
            shift_amount,
            bit_set(registers.cpsr, carry_mask()),
        ).value,
    }
}

pub open spec fn transfer_offset_address(registers: RegisterFile, instruction: SingleDataTransferInstruction, instruction_address: u32) -> u32 {
    let base = base_value(registers, instruction.rn, instruction_address);
    let offset = transfer_offset_value(registers, instruction.offset);
    if instruction.add_offset {
        base.wrapping_add(offset)
    } else {
        base.wrapping_sub(offset)
    }
}

pub open spec fn transfer_address(registers: RegisterFile, instruction: SingleDataTransferInstruction, instruction_address: u32) -> u32 {
    if instruction.pre_index {
        transfer_offset_address(registers, instruction, instruction_address)
    } else {
        base_value(registers, instruction.rn, instruction_address)
    }
}

pub open spec fn single_transfer_error(instruction: SingleDataTransferInstruction) -> Option<SingleDataTransferExecutionError> {
    if instruction.force_user_mode {
        Some(SingleDataTransferExecutionError::ForceUserModeNotImplemented)
    } else if instruction.write_back && instruction.rn == 15 {
        Some(SingleDataTransferExecutionError::WriteBackToProgramCounter)
    } else if instruction.load && instruction.write_back && instruction.rn == instruction.rd {
        Some(SingleDataTransferExecutionError::LoadWriteBackBaseEqualsDestination)
    } else if instruction.load && instruction.byte && instruction.rd == 15 {
        Some(SingleDataTransferExecutionError::ByteLoadToProgramCounter)
    } else {
        None
    }
}

/// A word load from an unaligned address reads the aligned word and
/// rotates it right by eight bits per byte of misalignment.
pub open spec fn unaligned_word(bus: Bus, address: u32) -> u32 {
    rotate_right_spec(bus.spec_read32(address & !3u32), ((address & 3) * 8) as u32)
}

pub open spec fn transfer_loaded(bus: Bus, byte: bool, address: u32) -> u32 {
    if byte {
        bus.spec_read8(address) as u32
    } else {
        unaligned_word(bus, address)
    }
}

fn read_unaligned_word(bus: &Bus, address: u32) -> (r: u32)
    requires
        bus.wf(),
    ensures
        r == unaligned_word(*bus, address),
{
    proof {
        crate::bits::lemma_u32_fields();
    }
    let aligned_value = bus.read32(address & !3u32);
    let rotation = (address & 3) * 8;
    rotate_right(aligned_value, rotation)
}

fn evaluate_offset(registers: &Registers, offset: TransferOffset, old_carry: bool) -> (r: u32)
    requires
        registers@.valid(),
        offset matches TransferOffset::ShiftedRegister { rm, .. } ==> rm < 16,
        old_carry == bit_set(registers@.cpsr, carry_mask()),
    ensures
        r == transfer_offset_value(registers@, offset),
{
    match offset {
        TransferOffset::Immediate(value) => value as u32,
        TransferOffset::ShiftedRegister { rm, shift_type, shift_amount } => {
            let value = registers.read(rm as usize);
            shift_immediate(value, shift_type, shift_amount, old_carry).value
        },
    }
}

/// LDR, STR, LDRB, STRB: computes the address, refuses the cases above
/// (changing nothing), moves the value (an unaligned word load rotates,
/// an unaligned word store is forced down to the word), then writes the
/// base back if asked.
pub fn execute_single_data_transfer(
    registers: &mut Registers,
    bus: &mut Bus,
    instruction: SingleDataTransferInstruction,
    instruction_address: u32,
) -> (r: Result<SingleDataTransferExecutionResult, SingleDataTransferExecutionError>)
    requires
        old(registers)@.valid(),
        old(bus).wf(),
        instruction.rn < 16,
        instruction.rd < 16,
        instruction.offset matches TransferOffset::ShiftedRegister { rm, .. } ==> rm < 16,
    ensures
        final(registers)@.valid(),
        final(bus).wf(),
        single_transfer_error(instruction) matches Some(e) ==> r == Err::<
            SingleDataTransferExecutionResult,
            SingleDataTransferExecutionError,
        >(e) && final(registers)@ == old(registers)@ && *final(bus) == *old(bus),
        single_transfer_error(instruction) is None ==> {
            let address = transfer_address(old(registers)@, instruction, instruction_address);
            let modified = transfer_offset_address(old(registers)@, instruction, instruction_address);
            let value = transfer_loaded(*old(bus), instruction.byte, address);
            let stored = if instruction.rd == 15 {
                instruction_address.wrapping_add(12)
            } else {
                old(registers)@.read(instruction.rd as int)
            };
            let after_transfer = if instruction.load {
                with_loaded(old(registers)@, instruction.rd, value)
            } else {
                old(registers)@
            };
            &&& r matches Ok(result)
            &&& result.address == address
            &&& result.loaded_value == if instruction.load {
                Some(value)
            } else {
                None
            }
            &&& result.written_back_value == if instruction.write_back {
                Some(modified)
            } else {
                None
            }
            &&& result.branch == (instruction.load && instruction.rd == 15)
            &&& final(registers)@ == if instruction.write_back {
                after_transfer.write(instruction.rn as int, modified)
            } else {
                after_transfer
            }
            &&& instruction.load ==> *final(bus) == *old(bus)
            &&& (!instruction.load && instruction.byte) ==> bus_written8(
                *old(bus),
                *final(bus),
                address,
                stored as u8,
            )
            &&& (!instruction.load && !instruction.byte) ==> bus_written32(
                *old(bus),
                *final(bus),
                address & !3u32,
                stored,
            )
        },
{
    if instruction.force_user_mode {
        return Err(SingleDataTransferExecutionError::ForceUserModeNotImplemented);
    }
    let effective_write_back = instruction.write_back;
    if effective_write_back && instruction.rn as usize == Registers::PC {
        return Err(SingleDataTransferExecutionError::WriteBackToProgramCounter);
    }
    if instruction.load && effective_write_back && instruction.rn == instruction.rd {
        return Err(SingleDataTransferExecutionError::LoadWriteBackBaseEqualsDestination);
    }
    if instruction.load && instruction.byte && instruction.rd as usize == Registers::PC {
        return Err(SingleDataTransferExecutionError::ByteLoadToProgramCounter);
    }
    let base = if instruction.rn as usize == Registers::PC {
        instruction_address.wrapping_add(8)
    } else {
        registers.read(instruction.rn as usize)
    };
    let offset = evaluate_offset(registers, instruction.offset, registers.cpsr().carry());
    let offset_address = if instruction.add_offset {
        base.wrapping_add(offset)
    } else {
        base.wrapping_sub(offset)
    };
    let transfer_address = if instruction.pre_index {
        offset_address
    } else {
        base
    };
    let mut loaded_value: Option<u32> = None;
    let mut branch = false;
    if instruction.load {
        let value = if instruction.byte {
            bus.read8(transfer_address) as u32
        } else {
            read_unaligned_word(bus, transfer_address)
        };
        loaded_value = Some(value);
        if instruction.rd as usize == Registers::PC {
            registers.set_pc(value & !3u32);
            branch = true;
        } else {
            registers.write(instruction.rd as usize, value);
        }
    } else {
        let value = if instruction.rd as usize == Registers::PC {
            instruction_address.wrapping_add(12)
        } else {
            registers.read(instruction.rd as usize)
        };
        if instruction.byte {
            bus.write8(transfer_address, value as u8);
        } else {
            bus.write32(transfer_address & !3u32, value);
        }
    }
    let written_back_value = if effective_write_back {
        registers.write(instruction.rn as usize, offset_address);
        Some(offset_address)
    } else {
        None
    };
    Ok(
        SingleDataTransferExecutionResult {
            address: transfer_address,
            loaded_value,
            written_back_value,
            branch,
        },
    )
}

} // verus!
