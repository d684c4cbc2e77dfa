use vstd::prelude::*;

use crate::cpu::registers::{RegisterFile, Registers};

use super::branch::BranchInstruction;

verus! {

#[derive(Debug, Clone, Copy, PartialEq, Eq, Structural)]
pub struct BranchExecutionResult {
    pub target: u32,
    pub link_register: Option<u32>,
}

/// The destination of a branch at `address`: the ARM PC (address + 8)
/// plus the displacement, modulo 2^32.
pub open spec fn branch_target(address: u32, offset: i32) -> u32 {
    address.wrapping_add(8).wrapping_add_signed(offset)
}

/// The register file after B or BL at `address`.
pub open spec fn spec_execute_branch(registers: RegisterFile, instruction: BranchInstruction, address: u32) -> RegisterFile {
    let linked = if instruction.link {
        registers.write(14, address.wrapping_add(4))
    } else {
        registers
    };
    linked.with_pc(branch_target(address, instruction.offset))
}

/// Executes B or BL located at `instruction_address`.
pub fn execute_branch(
    registers: &mut Registers,
    instruction: BranchInstruction,
    instruction_address: u32,
) -> (r: BranchExecutionResult)
    requires
        old(registers)@.valid(),
    ensures
        final(registers)@.valid(),
        final(registers)@ == spec_execute_branch(old(registers)@, instruction, instruction_address),
        r.target == branch_target(instruction_address, instruction.offset),
        r.link_register == (if instruction.link {
            Some(instruction_address.wrapping_add(4))
        } else {
            None
        }),
{
    let branch_base = instruction_address.wrapping_add(8);
    let target = branch_base.wrapping_add_signed(instruction.offset);
    let link_register = if instruction.link {
        let return_address = instruction_address.wrapping_add(4);
        registers.write(Registers::LR, return_address);
        Some(return_address)
    } else {
        None
    };
    registers.set_pc(target);
    BranchExecutionResult { target, link_register }
}

} // verus!
