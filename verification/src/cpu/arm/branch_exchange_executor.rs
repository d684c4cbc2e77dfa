use vstd::prelude::*;

use crate::cpu::cpsr::{thumb_mask, with_bits};
use crate::cpu::registers::{RegisterFile, Registers};
use crate::cpu::state::CpuState;

use super::branch_exchange::BranchExchangeInstruction;

verus! {

#[derive(Debug, Clone, Copy, PartialEq, Eq, Structural)]
pub struct BranchExchangeExecutionResult {
    pub target: u32,
    pub state: CpuState,
}

#[derive(Debug, Clone, Copy, PartialEq, Eq, Structural)]
pub enum BranchExchangeExecutionError {
    ProgramCounterAsSourceNotSupported,
}

/// The address BX jumps to: bit 0 selects Thumb, and the target is
/// halfword aligned in Thumb state and word aligned in ARM state.
pub open spec fn exchange_target(raw: u32) -> u32 {
    if raw & 1 != 0 {
        raw & !1u32
    } else {
        raw & !3u32
    }
}

/// The register file after `BX Rm` with `Rm` holding `raw`.
pub open spec fn spec_exchanged(registers: RegisterFile, raw: u32) -> RegisterFile {
    registers.with_cpsr(with_bits(registers.cpsr, thumb_mask(), raw & 1 != 0)).with_pc(
        exchange_target(raw),
    )
}

/// Executes `BX Rm`: bit 0 of Rm selects the instruction set.
pub fn execute_branch_exchange(registers: &mut Registers, instruction: BranchExchangeInstruction) -> (r:
    Result<BranchExchangeExecutionResult, BranchExchangeExecutionError>)
    requires
        old(registers)@.valid(),
        instruction.register < 16,
    ensures
        final(registers)@.valid(),
        instruction.register == 15 ==> r == Err::<
            BranchExchangeExecutionResult,
            BranchExchangeExecutionError,
        >(BranchExchangeExecutionError::ProgramCounterAsSourceNotSupported) && final(registers)@
            == old(registers)@,
        instruction.register != 15 ==> {
            let raw = old(registers)@.read(instruction.register as int);
            &&& final(registers)@ == spec_exchanged(old(registers)@, raw)
            &&& r == Ok::<BranchExchangeExecutionResult, BranchExchangeExecutionError>(
                BranchExchangeExecutionResult {
                    target: exchange_target(raw),
                    state: if raw & 1 != 0 {
                        CpuState::Thumb
                    } else {
                        CpuState::Arm
                    },
                },
            )
        },
{
    if instruction.register == 15 {
        return Err(BranchExchangeExecutionError::ProgramCounterAsSourceNotSupported);
    }
    let raw_target = registers.read(instruction.register as usize);
    let thumb_state = raw_target & 1 != 0;
    let (target, state) = if thumb_state {
        (raw_target & !1u32, CpuState::Thumb)
    } else {
        (raw_target & !3u32, CpuState::Arm)
    };
    let mut psr = registers.cpsr();
    psr.set_thumb_state(thumb_state);
    registers.set_cpsr(psr);
    registers.set_pc(target);
    Ok(BranchExchangeExecutionResult { target, state })
}

} // verus!
