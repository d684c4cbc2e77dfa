use vstd::prelude::*;

use crate::cpu::cpsr::Cpsr;
use crate::cpu::mode::{mode_from_field, CpuMode};
use crate::cpu::registers::{RegisterFile, Registers, SpsrAccessError};

use super::barrel_shifter::{expand_rotated_immediate, spec_expand_rotated_immediate};
use super::status_register::{
    spec_bit_mask, ProgramStatusRegister, StatusRegisterInstruction, StatusRegisterMask,
    StatusRegisterOperand,
};

verus! {

#[derive(Debug, Clone, Copy, PartialEq, Eq, Structural)]
pub enum StatusRegisterExecutionError {
    SpsrUnavailable(SpsrAccessError),
    InvalidMode(u8),
}

/// The value an MSR operand supplies.
pub open spec fn spec_msr_operand(registers: RegisterFile, operand: StatusRegisterOperand) -> u32 {
    match operand {
        StatusRegisterOperand::Register(rm) => registers.read(rm as int),
        StatusRegisterOperand::Immediate { value, rotate } => spec_expand_rotated_immediate(
            value,
            rotate,
            registers.cpsr & 0x2000_0000 != 0,
        ).value,
    }
}

/// The CPSR bits an MSR may write: the selected bytes, only the flags
/// byte in User mode, and never the Thumb bit.
pub open spec fn cpsr_write_mask(registers: RegisterFile, mask: StatusRegisterMask) -> u32 {
    let selected = spec_bit_mask(mask);
    let permitted = if registers.current_mode() == CpuMode::User {
        selected & 0xFF00_0000
    } else {
        selected
    };
    permitted & !0x20u32
}

pub open spec fn merged(current: u32, operand: u32, mask: u32) -> u32 {
    (current & !mask) | (operand & mask)
}

pub open spec fn no_spsr_error(registers: RegisterFile) -> StatusRegisterExecutionError {
    StatusRegisterExecutionError::SpsrUnavailable(
        SpsrAccessError::CurrentModeHasNoSpsr(registers.current_mode()),
    )
}

/// The register file and result of MRS or MSR.
pub open spec fn spec_execute_status_register(registers: RegisterFile, instruction: StatusRegisterInstruction) -> (RegisterFile, Result<(), StatusRegisterExecutionError>) {
    match instruction {
        StatusRegisterInstruction::Mrs { source, rd, .. } => match source {
            ProgramStatusRegister::Cpsr => (registers.write(rd as int, registers.cpsr), Ok(())),
            ProgramStatusRegister::Spsr => match registers.spsr_value() {
                None => (registers, Err(no_spsr_error(registers))),
                Some(v) => (registers.write(rd as int, v), Ok(())),
            },
        },
        StatusRegisterInstruction::Msr { destination, mask, operand, .. } => {
            let value = spec_msr_operand(registers, operand);
            match destination {
                ProgramStatusRegister::Cpsr => {
                    let m = cpsr_write_mask(registers, mask);
                    let candidate = merged(registers.cpsr, value, m);
                    if m & 0x1F != 0 && mode_from_field(candidate & 0x1F) is None {
                        (
                            registers,
                            Err(StatusRegisterExecutionError::InvalidMode((candidate & 0x1F) as u8)),
                        )
                    } else {
                        (registers.with_cpsr(candidate), Ok(()))
                    }
                },
                ProgramStatusRegister::Spsr => match registers.spsr_value() {
                    None => (registers, Err(no_spsr_error(registers))),
                    Some(current) => (
                        registers.with_spsr(merged(current, value, spec_bit_mask(mask))),
                        Ok(()),
                    ),
                },
            }
        },
    }
}

/// Two outcomes without a value agree: both succeed, or both fail with
/// the same error.
pub open spec fn same_outcome<E>(r: Result<(), E>, expected: Result<(), E>) -> bool {
    match expected {
        Ok(_) => r is Ok,
        Err(e) => r matches Err(x) && x == e,
    }
}

/// The registers an instruction names exist.
pub open spec fn status_registers_in_range(instruction: StatusRegisterInstruction) -> bool {
    match instruction {
        StatusRegisterInstruction::Mrs { rd, .. } => rd < 16,
        StatusRegisterInstruction::Msr { operand, .. } => match operand {
            StatusRegisterOperand::Register(rm) => rm < 16,
            StatusRegisterOperand::Immediate { .. } => true,
        },
    }
}

/// Executes MRS or MSR.
pub fn execute_status_register(registers: &mut Registers, instruction: StatusRegisterInstruction) -> (r:
    Result<(), StatusRegisterExecutionError>)
    requires
        old(registers)@.valid(),
        status_registers_in_range(instruction),
    ensures
        final(registers)@.valid(),
        final(registers)@ == spec_execute_status_register(old(registers)@, instruction).0,
        same_outcome(r, spec_execute_status_register(old(registers)@, instruction).1),
{
    match instruction {
        StatusRegisterInstruction::Mrs { source, rd, .. } => {
            let value = match source {
                ProgramStatusRegister::Cpsr => registers.cpsr().raw(),
                ProgramStatusRegister::Spsr => match registers.spsr() {
                    Ok(psr) => psr.raw(),
                    Err(e) => {
                        return Err(StatusRegisterExecutionError::SpsrUnavailable(e));
                    },
                },
            };
            registers.write(rd as usize, value);
            Ok(())
        },
        StatusRegisterInstruction::Msr { destination, mask, operand, .. } => {
            let value = match operand {
                StatusRegisterOperand::Register(rm) => registers.read(rm as usize),
                StatusRegisterOperand::Immediate { value, rotate } => expand_rotated_immediate(
                    value,
                    rotate,
                    registers.cpsr().carry(),
                ).value,
            };
            match destination {
                ProgramStatusRegister::Cpsr => write_cpsr(registers, mask, value),
                ProgramStatusRegister::Spsr => write_spsr(registers, mask, value),
            }
        },
    }
}

fn write_cpsr(registers: &mut Registers, fields: StatusRegisterMask, operand: u32) -> (r: Result<
    (),
    StatusRegisterExecutionError,
>)
    requires
        old(registers)@.valid(),
    ensures
        final(registers)@.valid(),
        ({
            let m = cpsr_write_mask(old(registers)@, fields);
            let candidate = merged(old(registers)@.cpsr, operand, m);
            if m & 0x1F != 0 && mode_from_field(candidate & 0x1F) is None {
                final(registers)@ == old(registers)@ && r == Err::<(), StatusRegisterExecutionError>(
                    StatusRegisterExecutionError::InvalidMode((candidate & 0x1F) as u8),
                )
            } else {
                final(registers)@ == old(registers)@.with_cpsr(candidate) && r is Ok
            }
        }),
{
    let current = registers.cpsr().raw();
    let current_mode = registers.mode();
    let mut writable_mask = fields.bit_mask();
    if !current_mode.is_privileged() {
        writable_mask = writable_mask & 0xFF00_0000;
    }
    writable_mask = writable_mask & !0x20u32;
    let candidate: u32 = (current & !writable_mask) | (operand & writable_mask);
    proof {
        crate::bits::lemma_u32_masked_merge(current, operand, writable_mask);
    }
    if writable_mask & 0x1F != 0 {
        let mode_bits: u8 = (candidate & 0x1F) as u8;
        proof {
            crate::bits::lemma_u32_fields();
        }
        match CpuMode::from_bits(mode_bits) {
            Ok(_) => {},
            Err(_) => {
                return Err(StatusRegisterExecutionError::InvalidMode(mode_bits));
            },
        }
    }
    registers.set_cpsr_raw(candidate);
    Ok(())
}

fn write_spsr(registers: &mut Registers, fields: StatusRegisterMask, operand: u32) -> (r: Result<
    (),
    StatusRegisterExecutionError,
>)
    requires
        old(registers)@.valid(),
    ensures
        match old(registers)@.spsr_value() {
            None => final(registers)@ == old(registers)@ && r == Err::<
                (),
                StatusRegisterExecutionError,
            >(no_spsr_error(old(registers)@)),
            Some(current) => final(registers)@ == old(registers)@.with_spsr(
                merged(current, operand, spec_bit_mask(fields)),
            ) && r is Ok,
        },
{
    let current = match registers.spsr() {
        Ok(psr) => psr.raw(),
        Err(e) => {
            return Err(StatusRegisterExecutionError::SpsrUnavailable(e));
        },
    };
    let mask = fields.bit_mask();
    let candidate: u32 = (current & !mask) | (operand & mask);
    match registers.set_spsr_raw(candidate) {
        Ok(()) => Ok(()),
        Err(e) => Err(StatusRegisterExecutionError::SpsrUnavailable(e)),
    }
}

/// MSR never changes the Thumb bit, and a CPSR that names a mode still
/// names a mode after any MSR, successful or not.
pub proof fn law_msr_keeps_state_and_mode(registers: RegisterFile, instruction: StatusRegisterInstruction)
    requires
        registers.valid(),
        instruction matches StatusRegisterInstruction::Msr { destination, .. } && destination
            == ProgramStatusRegister::Cpsr,
    ensures
        spec_execute_status_register(registers, instruction).0.cpsr & 0x20 == registers.cpsr & 0x20,
        spec_execute_status_register(registers, instruction).0.valid(),
{
    if let StatusRegisterInstruction::Msr { mask, operand, .. } = instruction {
        let value = spec_msr_operand(registers, operand);
        let selected = spec_bit_mask(mask);
        let permitted = if registers.current_mode() == CpuMode::User {
            selected & 0xFF00_0000
        } else {
            selected
        };
        let m = cpsr_write_mask(registers, mask);
        crate::bits::lemma_u32_masked_merge(registers.cpsr, value, permitted);
        crate::bits::lemma_u32_masked_merge(registers.cpsr, value, m);
    }
}

} // verus!
