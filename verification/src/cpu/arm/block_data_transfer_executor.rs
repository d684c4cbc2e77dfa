use vstd::prelude::*;

use crate::bus::{bus_written32, Bus};
use crate::cpu::registers::{RegisterFile, Registers};

use super::block_data_transfer::{
    list_contains, list_count_below, BlockAddressingMode, BlockDataTransferInstruction,
};

verus! {

#[derive(Debug, Clone, Copy, PartialEq, Eq, Structural)]
pub struct BlockDataTransferExecutionResult {
    pub first_address: u32,
    pub final_address: u32,
    pub written_back_value: Option<u32>,
    pub register_count: u32,
    pub branch: bool,
}

#[derive(Debug, Clone, Copy, PartialEq, Eq, Structural)]
pub enum BlockDataTransferExecutionError {
    PsrOrUserModeNotImplemented,
    ProgramCounterAsBase,
    WriteBackBaseInRegisterList,
}

/// The lowest address and the written-back base of a block transfer of
/// `size` bytes from `base`.
pub open spec fn block_addresses(base: u32, size: u32, mode: BlockAddressingMode) -> (u32, u32) {
    match mode {
        BlockAddressingMode::IncrementAfter => (base, base.wrapping_add(size)),
        BlockAddressingMode::IncrementBefore => (base.wrapping_add(4), base.wrapping_add(size)),
        BlockAddressingMode::DecrementAfter => (
            base.wrapping_sub(size).wrapping_add(4),
            base.wrapping_sub(size),
        ),
        BlockAddressingMode::DecrementBefore => (base.wrapping_sub(size), base.wrapping_sub(size)),
    }
}

pub fn calculate_addresses(base: u32, transfer_size: u32, mode: BlockAddressingMode) -> (r: (u32, u32))
    ensures
        r == block_addresses(base, transfer_size, mode),
{
    match mode {
        BlockAddressingMode::IncrementAfter => (base, base.wrapping_add(transfer_size)),
        BlockAddressingMode::IncrementBefore => (base.wrapping_add(4), base.wrapping_add(transfer_size)),
        BlockAddressingMode::DecrementAfter => (
            base.wrapping_sub(transfer_size).wrapping_add(4),
            base.wrapping_sub(transfer_size),
        ),
        BlockAddressingMode::DecrementBefore => (
            base.wrapping_sub(transfer_size),
            base.wrapping_sub(transfer_size),
        ),
    }
}

/// The address of register `r`'s slot: registers are stored in
/// ascending order from the lowest address, one word each.
pub open spec fn slot_address(first: u32, bits: u16, r: int) -> u32 {
    ((first as int + 4 * list_count_below(bits, r)) % 0x1_0000_0000) as u32
}

/// What STM stores for register `r`: its value, or for PC the
/// instruction's address plus 12.
pub open spec fn store_value(registers: RegisterFile, r: int, instruction_address: u32) -> u32 {
    if r == 15 {
        instruction_address.wrapping_add(12)
    } else {
        registers.read(r)
    }
}

/// The registers after LDM has loaded the listed registers below `r`; a
/// loaded PC is word-aligned.
pub open spec fn loaded(registers: RegisterFile, bus: Bus, bits: u16, first: u32, r: int) -> RegisterFile
    decreases r,
{
    if r <= 0 {
        registers
    } else {
        let before = loaded(registers, bus, bits, first, r - 1);
        if list_contains(bits, r - 1) {
            let value = bus.spec_read32(slot_address(first, bits, r - 1));
            if r - 1 == 15 {
                before.with_pc(value & !3u32)
            } else {
                before.write(r - 1, value)
            }
        } else {
            before
        }
    }
}

pub open spec fn store_step(before: Bus, after: Bus, address: u32, value: u32) -> bool {
    after.wf() && bus_written32(before, after, address, value)
}

/// `end` is `start` after STM has stored the listed registers below `r`.
pub open spec fn stored(
    start: Bus,
    end: Bus,
    registers: RegisterFile,
    bits: u16,
    first: u32,
    instruction_address: u32,
    r: int,
) -> bool
    decreases r,
{
    if r <= 0 {
        end == start
    } else if !list_contains(bits, r - 1) {
        stored(start, end, registers, bits, first, instruction_address, r - 1)
    } else {
        exists|middle: Bus|
            #[trigger] store_step(
                middle,
                end,
                slot_address(first, bits, r - 1),
                store_value(registers, r - 1, instruction_address),
            ) && stored(start, middle, registers, bits, first, instruction_address, r - 1)
    }
}

/// The refusals: the S bit, PC as base, and write-back of a base that is
/// also in the list.
pub open spec fn block_transfer_error(instruction: BlockDataTransferInstruction) -> Option<BlockDataTransferExecutionError> {
    if instruction.psr_or_user_mode {
        Some(BlockDataTransferExecutionError::PsrOrUserModeNotImplemented)
    } else if instruction.rn == 15 {
        Some(BlockDataTransferExecutionError::ProgramCounterAsBase)
    } else if instruction.write_back && list_contains(instruction.registers@, instruction.rn as int) {
        Some(BlockDataTransferExecutionError::WriteBackBaseInRegisterList)
    } else {
        None
    }
}

pub(crate) proof fn lemma_slot_step(first: u32, bits: u16, r: int)
    requires
        0 <= r < 16,
    ensures
        slot_address(first, bits, r + 1) == if list_contains(bits, r) {
            slot_address(first, bits, r).wrapping_add(4)
        } else {
            slot_address(first, bits, r)
        },
{
    let c = list_count_below(bits, r);
    assert(list_count_below(bits, r + 1) == c + if list_contains(bits, r) {
        1int
    } else {
        0
    });
    if list_contains(bits, r) {
        vstd::arithmetic::div_mod::lemma_add_mod_noop(first as int + 4 * c, 4, 0x1_0000_0000);
        vstd::arithmetic::div_mod::lemma_mod_twice(4int, 0x1_0000_0000);
    }
}

pub(crate) proof fn lemma_stored_step(
    start: Bus,
    middle: Bus,
    end: Bus,
    registers: RegisterFile,
    bits: u16,
    first: u32,
    instruction_address: u32,
    r: int,
)
    requires
        0 <= r,
        list_contains(bits, r),
        stored(start, middle, registers, bits, first, instruction_address, r),
        store_step(middle, end, slot_address(first, bits, r), store_value(registers, r, instruction_address)),
    ensures
        stored(start, end, registers, bits, first, instruction_address, r + 1),
{
    assert((r + 1) - 1 == r);
}

/// LDM/STM: moves the listed registers to or from consecutive words, the
/// lowest register at the lowest address, then writes the base back if
/// asked. The S bit, PC as base and write-back of a listed base are
/// refused and change nothing.
pub fn execute_block_data_transfer(
    registers: &mut Registers,
    bus: &mut Bus,
    instruction: BlockDataTransferInstruction,
    instruction_address: u32,
) -> (r: Result<BlockDataTransferExecutionResult, BlockDataTransferExecutionError>)
    requires
        old(registers)@.valid(),
        old(bus).wf(),
        instruction.rn < 16,
    ensures
        final(registers)@.valid(),
        final(bus).wf(),
        block_transfer_error(instruction) matches Some(e) ==> r == Err::<
            BlockDataTransferExecutionResult,
            BlockDataTransferExecutionError,
        >(e) && final(registers)@ == old(registers)@ && *final(bus) == *old(bus),
        block_transfer_error(instruction) is None ==> {
            let bits = instruction.registers@;
            let count = list_count_below(bits, 16);
            let base = old(registers)@.read(instruction.rn as int);
            let (first, written_back) = block_addresses(base, (count * 4) as u32, instruction.addressing_mode);
            let after_transfer = if instruction.load {
                loaded(old(registers)@, *old(bus), bits, first, 16)
            } else {
                old(registers)@
            };
            &&& r matches Ok(result)
            &&& result.first_address == first
            &&& result.final_address == slot_address(first, bits, 16).wrapping_sub(4)
            &&& result.written_back_value == if instruction.write_back {
                Some(written_back)
            } else {
                None
            }
            &&& result.register_count == count
            &&& result.branch == (instruction.load && list_contains(bits, 15))
            &&& final(registers)@ == if instruction.write_back {
                after_transfer.write(instruction.rn as int, written_back)
            } else {
                after_transfer
            }
            &&& instruction.load ==> *final(bus) == *old(bus)
            &&& !instruction.load ==> stored(
                *old(bus),
                *final(bus),
                old(registers)@,
                bits,
                first,
                instruction_address,
                16,
            )
        },
{
    if instruction.psr_or_user_mode {
        return Err(BlockDataTransferExecutionError::PsrOrUserModeNotImplemented);
    }
    if instruction.rn as usize == Registers::PC {
        return Err(BlockDataTransferExecutionError::ProgramCounterAsBase);
    }
    if instruction.write_back && instruction.registers.contains(instruction.rn) {
        return Err(BlockDataTransferExecutionError::WriteBackBaseInRegisterList);
    }
    let base = registers.read(instruction.rn as usize);
    let register_count = instruction.registers.count();
    let transfer_size = register_count * 4;
    let (first_address, write_back_value) = calculate_addresses(
        base,
        transfer_size,
        instruction.addressing_mode,
    );
    let ghost start_registers = registers@;
    let ghost start_bus = *bus;
    let mut address = first_address;
    let mut branch = false;
    let mut register: u8 = 0;
    proof {
        assert(((first_address as int + 4 * 0) % 0x1_0000_0000) as u32 == first_address);
    }
    while register < 16
        invariant
            register <= 16,
            start_registers.valid(),
            start_registers == old(registers)@,
            start_bus == *old(bus),
            bus.wf(),
            address == slot_address(first_address, instruction.registers@, register as int),
            registers@.valid(),
            instruction.load ==> registers@ == loaded(
                start_registers,
                start_bus,
                instruction.registers@,
                first_address,
                register as int,
            ),
            instruction.load ==> *bus == start_bus,
            !instruction.load ==> registers@ == start_registers,
            !instruction.load ==> stored(
                start_bus,
                *bus,
                start_registers,
                instruction.registers@,
                first_address,
                instruction_address,
                register as int,
            ),
            branch == (instruction.load && register > 15 && list_contains(instruction.registers@, 15)),
        decreases 16 - register,
    {
        proof {
            lemma_slot_step(first_address, instruction.registers@, register as int);
        }
        if instruction.registers.contains(register) {
            if instruction.load {
                let value = bus.read32(address);
                if register as usize == Registers::PC {
                    registers.set_pc(value & !3u32);
                    branch = true;
                } else {
                    registers.write(register as usize, value);
                }
            } else {
                let ghost before = *bus;
                let value = if register as usize == Registers::PC {
                    instruction_address.wrapping_add(12)
                } else {
                    registers.read(register as usize)
                };
                bus.write32(address, value);
                proof {
                    lemma_stored_step(
                        start_bus,
                        before,
                        *bus,
                        start_registers,
                        instruction.registers@,
                        first_address,
                        instruction_address,
                        register as int,
                    );
                }
            }
            address = address.wrapping_add(4);
        }
        register = register + 1;
    }
    if instruction.write_back {
        registers.write(instruction.rn as usize, write_back_value);
    }
    Ok(
        BlockDataTransferExecutionResult {
            first_address,
            final_address: address.wrapping_sub(4),
            written_back_value: if instruction.write_back {
                Some(write_back_value)
            } else {
                None
            },
            register_count,
            branch,
        },
    )
}

} // verus!
