use vstd::prelude::*;

use crate::bus::{bus_written16, Bus};
use crate::cpu::registers::{RegisterFile, Registers};

use super::halfword_data_transfer::{
    HalfwordDataTransferInstruction, HalfwordTransferKind, HalfwordTransferOffset,
};

verus! {

#[derive(Debug, Clone, Copy, PartialEq, Eq, Structural)]
pub struct HalfwordDataTransferExecutionResult {
    pub address: u32,
    pub loaded_value: Option<u32>,
    pub written_back_value: Option<u32>,
    pub branch: bool,
}

/// The refusals. A halfword access at an odd address is unpredictable on
/// the ARM7TDMI and is refused.
#[derive(Debug, Clone, Copy, PartialEq, Eq, Structural)]
pub enum HalfwordDataTransferExecutionError {
    WriteBackToProgramCounter,
    LoadWriteBackBaseEqualsDestination,
    MisalignedHalfwordAccess,
}

/// The base register's value; PC reads as the instruction's address
/// plus 8.
pub open spec fn base_value(registers: RegisterFile, rn: u8, instruction_address: u32) -> u32 {
    if rn == 15 {
        instruction_address.wrapping_add(8)
    } else {
        registers.read(rn as int)
    }
}

pub open spec fn offset_value(registers: RegisterFile, offset: HalfwordTransferOffset) -> u32 {
    match offset {
        HalfwordTransferOffset::Immediate(value) => value as u32,
        HalfwordTransferOffset::Register(rm) => registers.read(rm as int),
    }
}

/// The base after the offset is applied.
pub open spec fn halfword_modified_base(registers: RegisterFile, instruction: HalfwordDataTransferInstruction, instruction_address: u32) -> u32 {
    let base = base_value(registers, instruction.rn, instruction_address);
    let offset = offset_value(registers, instruction.offset);
    if instruction.add_offset {
        base.wrapping_add(offset)
    } else {
        base.wrapping_sub(offset)
    }
}

/// The transfer address: the modified base when pre-indexed, else the
/// base.
pub open spec fn halfword_address(registers: RegisterFile, instruction: HalfwordDataTransferInstruction, instruction_address: u32) -> u32 {
    if instruction.pre_index {
        halfword_modified_base(registers, instruction, instruction_address)
    } else {
        base_value(registers, instruction.rn, instruction_address)
    }
}

pub open spec fn halfword_error(registers: RegisterFile, instruction: HalfwordDataTransferInstruction, instruction_address: u32) -> Option<HalfwordDataTransferExecutionError> {
    if instruction.write_back && instruction.rn == 15 {
        Some(HalfwordDataTransferExecutionError::WriteBackToProgramCounter)
    } else if instruction.kind.spec_is_load() && instruction.write_back && instruction.rn
        == instruction.rd {
        Some(HalfwordDataTransferExecutionError::LoadWriteBackBaseEqualsDestination)
    } else if instruction.kind.spec_uses_halfword() && halfword_address(
        registers,
        instruction,
        instruction_address,
    ) & 1 != 0 {
        Some(HalfwordDataTransferExecutionError::MisalignedHalfwordAccess)
    } else {
        None
    }
}

/// The value a load produces: LDRH zero-extends, LDRSB and LDRSH
/// sign-extend.
pub open spec fn halfword_loaded(bus: Bus, kind: HalfwordTransferKind, address: u32) -> u32 {
    match kind {
        HalfwordTransferKind::LoadHalfword => bus.spec_read16(address) as u32,
        HalfwordTransferKind::LoadSignedByte => ((bus.spec_read8(address) as i8) as i32) as u32,
        HalfwordTransferKind::LoadSignedHalfword => ((bus.spec_read16(address) as i16) as i32) as u32,
        HalfwordTransferKind::StoreHalfword => 0,
    }
}

/// The registers after a loaded value reaches `rd`; PC is word-aligned.
pub open spec fn with_loaded(registers: RegisterFile, rd: u8, value: u32) -> RegisterFile {
    if rd == 15 {
        registers.with_pc(value & !3u32)
    } else {
        registers.write(rd as int, value)
    }
}

/// What STRH stores: the register, or for PC the instruction's address
/// plus 12.
pub open spec fn halfword_store_value(registers: RegisterFile, rd: u8, instruction_address: u32) -> u32 {
    if rd == 15 {
        instruction_address.wrapping_add(12)
    } else {
        registers.read(rd as int)
    }
}

fn evaluate_offset(registers: &Registers, offset: HalfwordTransferOffset) -> (r: u32)
    requires
        registers@.valid(),
        offset matches HalfwordTransferOffset::Register(rm) ==> rm < 16,
    ensures
        r == offset_value(registers@, offset),
{
    match offset {
        HalfwordTransferOffset::Immediate(value) => value as u32,
        HalfwordTransferOffset::Register(rm) => registers.read(rm as usize),
    }
}

fn read_base_register(registers: &Registers, register: u8, instruction_address: u32) -> (r: u32)
    requires
        registers@.valid(),
        register < 16,
    ensures
        r == base_value(registers@, register, instruction_address),
{
    if register as usize == Registers::PC {
        instruction_address.wrapping_add(8)
    } else {
        registers.read(register as usize)
    }
}

fn write_loaded_value(registers: &mut Registers, destination: u8, value: u32, branch: &mut bool)
    requires
        old(registers)@.valid(),
        destination < 16,
    ensures
        final(registers)@ == with_loaded(old(registers)@, destination, value),
        *final(branch) == (*old(branch) || destination == 15),
        final(registers)@.valid(),
{
    if destination as usize == Registers::PC {
        registers.set_pc(value & !3u32);
        *branch = true;
    } else {
        registers.write(destination as usize, value);
    }
}

/// LDRH, STRH, LDRSB, LDRSH: computes the address, refuses the cases
/// above (changing nothing), moves the value, then writes the base back
/// if asked.
pub fn execute_halfword_data_transfer(
    registers: &mut Registers,
    bus: &mut Bus,
    instruction: HalfwordDataTransferInstruction,
    instruction_address: u32,
) -> (r: Result<HalfwordDataTransferExecutionResult, HalfwordDataTransferExecutionError>)
    requires
        old(registers)@.valid(),
        old(bus).wf(),
        instruction.rn < 16,
        instruction.rd < 16,
        instruction.offset matches HalfwordTransferOffset::Register(rm) ==> rm < 16,
    ensures
        final(registers)@.valid(),
        final(bus).wf(),
        halfword_error(old(registers)@, instruction, instruction_address) matches Some(e) ==> r
            == Err::<HalfwordDataTransferExecutionResult, HalfwordDataTransferExecutionError>(e)
            && final(registers)@ == old(registers)@ && *final(bus) == *old(bus),
        halfword_error(old(registers)@, instruction, instruction_address) is None ==> {
            let address = halfword_address(old(registers)@, instruction, instruction_address);
            let modified = halfword_modified_base(old(registers)@, instruction, instruction_address);
            let load = instruction.kind.spec_is_load();
            let value = halfword_loaded(*old(bus), instruction.kind, address);
            let after_transfer = if load {
                with_loaded(old(registers)@, instruction.rd, value)
            } else {
                old(registers)@
            };
            &&& r matches Ok(result)
            &&& result.address == address
            &&& result.loaded_value == if load {
                Some(value)
            } else {
                None
            }
            &&& result.written_back_value == if instruction.write_back {
                Some(modified)
            } else {
                None
            }
            &&& result.branch == (load && instruction.rd == 15)
            &&& final(registers)@ == if instruction.write_back {
                after_transfer.write(instruction.rn as int, modified)
            } else {
                after_transfer
            }
            &&& load ==> *final(bus) == *old(bus)
            &&& !load ==> bus_written16(
                *old(bus),
                *final(bus),
                address,
                halfword_store_value(old(registers)@, instruction.rd, instruction_address) as u16,
            )
        },
{
    if instruction.write_back && instruction.rn as usize == Registers::PC {
        return Err(HalfwordDataTransferExecutionError::WriteBackToProgramCounter);
    }
    if instruction.kind.is_load() && instruction.write_back && instruction.rn == instruction.rd {
        return Err(HalfwordDataTransferExecutionError::LoadWriteBackBaseEqualsDestination);
    }
    let base = read_base_register(registers, instruction.rn, instruction_address);
    let offset = evaluate_offset(registers, instruction.offset);
    let modified_base = if instruction.add_offset {
        base.wrapping_add(offset)
    } else {
        base.wrapping_sub(offset)
    };
    let transfer_address = if instruction.pre_index {
        modified_base
    } else {
        base
    };
    if instruction.kind.uses_halfword() && transfer_address & 1 != 0 {
        return Err(HalfwordDataTransferExecutionError::MisalignedHalfwordAccess);
    }
    let mut loaded_value: Option<u32> = None;
    let mut branch = false;
    match instruction.kind {
        HalfwordTransferKind::StoreHalfword => {
            let store_value = if instruction.rd as usize == Registers::PC {
                instruction_address.wrapping_add(12)
            } else {
                registers.read(instruction.rd as usize)
            };
            bus.write16(transfer_address, store_value as u16);
        },
        HalfwordTransferKind::LoadHalfword => {
            let value = bus.read16(transfer_address) as u32;
            loaded_value = Some(value);
            write_loaded_value(registers, instruction.rd, value, &mut branch);
        },
        HalfwordTransferKind::LoadSignedByte => {
            let value = ((bus.read8(transfer_address) as i8) as i32) as u32;
            loaded_value = Some(value);
            write_loaded_value(registers, instruction.rd, value, &mut branch);
        },
        HalfwordTransferKind::LoadSignedHalfword => {
            let value = ((bus.read16(transfer_address) as i16) as i32) as u32;
            loaded_value = Some(value);
            write_loaded_value(registers, instruction.rd, value, &mut branch);
        },
    }
    let written_back_value = if instruction.write_back {
        registers.write(instruction.rn as usize, modified_base);
        Some(modified_base)
    } else {
        None
    };
    Ok(
        HalfwordDataTransferExecutionResult {
            address: transfer_address,
            loaded_value,
            written_back_value,
            branch,
        },
    )
}

} // verus!
