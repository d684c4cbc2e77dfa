use vstd::prelude::*;

use super::cpsr::{fiq_mask, irq_mask, thumb_mask, with_bits, with_mode};
use super::exception::{exception_disables_fiq, exception_mode, exception_vector, Exception};
use super::mode::{mode_from_field, CpuMode, InvalidCpuMode};
use super::registers::{RegisterFile, Registers, SpsrAccessError};

verus! {

#[derive(Debug, Clone, Copy, PartialEq, Eq, Structural)]
pub struct ExceptionEntryResult {
    pub exception: Exception,
    pub previous_mode: CpuMode,
    pub new_mode: CpuMode,
    pub return_address: u32,
    pub vector: u32,
}

#[derive(Debug, Clone, Copy, PartialEq, Eq, Structural)]
pub struct ExceptionReturnResult {
    pub previous_mode: CpuMode,
    pub restored_mode: CpuMode,
    pub target: u32,
}

#[derive(Debug, Clone, Copy, PartialEq, Eq, Structural)]
pub enum ExceptionError {
    SpsrUnavailable(SpsrAccessError),
    InvalidRestoredMode(InvalidCpuMode),
}

/// The CPSR after entering `exception` from `old_cpsr`: the exception's
/// mode, ARM state, IRQ disabled, and FIQ disabled for Reset and FIQ.
pub open spec fn entry_cpsr(old_cpsr: u32, exception: Exception) -> u32 {
    let with_new_mode = with_mode(old_cpsr, exception_mode(exception));
    let arm = with_bits(with_new_mode, thumb_mask(), false);
    let irq_off = with_bits(arm, irq_mask(), true);
    if exception_disables_fiq(exception) {
        with_bits(irq_off, fiq_mask(), true)
    } else {
        irq_off
    }
}

/// The register file after entering `exception`: the new mode's SPSR
/// holds the old CPSR, its LR holds `return_address`, and the PC holds
/// the vector.
pub open spec fn entered(old: RegisterFile, exception: Exception, return_address: u32) -> RegisterFile {
    let switched = old.with_cpsr(with_mode(old.cpsr, exception_mode(exception)));
    switched.with_spsr(old.cpsr).write(14, return_address).with_cpsr(
        entry_cpsr(old.cpsr, exception),
    ).with_pc(exception_vector(exception))
}

/// The address an exception return continues at: halfword aligned when
/// the restored state is Thumb, word aligned otherwise.
pub open spec fn return_target(restored_cpsr: u32, raw_target: u32) -> u32 {
    if restored_cpsr & 0x20 != 0 {
        raw_target & !1u32
    } else {
        raw_target & !3u32
    }
}

proof fn lemma_entry_cpsr_mode(old_cpsr: u32, exception: Exception)
    ensures
        entry_cpsr(old_cpsr, exception) & 0x1F == with_mode(old_cpsr, exception_mode(exception))
            & 0x1F,
        mode_from_field(entry_cpsr(old_cpsr, exception) & 0x1F) == Some(exception_mode(exception)),
{
    let m = with_mode(old_cpsr, exception_mode(exception));
    crate::cpu::cpsr::lemma_with_mode(old_cpsr, exception_mode(exception));
    crate::cpu::mode::lemma_mode_bits_round_trip(exception_mode(exception));
    let a = with_bits(m, 0x20, false);
    let b = with_bits(a, 0x80, true);
    let c = with_bits(b, 0x40, true);
    crate::bits::lemma_u32_set_clear();
    crate::cpu::cpsr::lemma_with_bits(m, 0x20, false, 0x1F);
    crate::cpu::cpsr::lemma_with_bits(a, 0x80, true, 0x1F);
    crate::cpu::cpsr::lemma_with_bits(b, 0x40, true, 0x1F);
}

/// Enters `exception`: saves the CPSR into the new mode's SPSR, writes
/// `return_address` to the new mode's LR, switches to ARM state with IRQ
/// (and for Reset and FIQ also FIQ) disabled, and jumps to the vector.
pub fn enter_exception(
    registers: &mut Registers,
    exception: Exception,
    return_address: u32,
) -> (r: Result<ExceptionEntryResult, ExceptionError>)
    requires
        old(registers)@.valid(),
    ensures
        r == Ok::<ExceptionEntryResult, ExceptionError>(
            ExceptionEntryResult {
                exception,
                previous_mode: old(registers)@.current_mode(),
                new_mode: exception_mode(exception),
                return_address,
                vector: exception_vector(exception),
            },
        ),
        final(registers)@ == entered(old(registers)@, exception, return_address),
        final(registers)@.valid(),
        final(registers)@.current_mode() == exception_mode(exception),
{
    let old_cpsr = registers.cpsr();
    let previous_mode = registers.mode();
    let new_mode = exception.mode();
    registers.cpsr_mut().set_mode(new_mode);
    let spsr_result = registers.set_spsr(old_cpsr);
    match spsr_result {
        Ok(()) => {},
        Err(error) => {
            return Err(ExceptionError::SpsrUnavailable(error));
        },
    }
    registers.write(Registers::LR, return_address);
    let mut cpsr = registers.cpsr();
    cpsr.set_thumb_state(false);
    if exception.disables_irq() {
        cpsr.set_irq_disabled(true);
    }
    if exception.disables_fiq() {
        cpsr.set_fiq_disabled(true);
    }
    registers.set_cpsr(cpsr);
    let vector = exception.vector();
    registers.set_pc(vector);
    proof {
        lemma_entry_cpsr_mode(old_cpsr@, exception);
    }
    Ok(ExceptionEntryResult { exception, previous_mode, new_mode, return_address, vector })
}

/// The register file and result of an exception return: the current
/// mode's SPSR becomes the CPSR and the PC the aligned target; without an
/// SPSR, or with an SPSR that names no mode, nothing changes and the
/// matching error is returned.
pub open spec fn spec_return_from_exception(old: RegisterFile, raw_target: u32) -> (RegisterFile, Result<ExceptionReturnResult, ExceptionError>) {
    match old.spsr_value() {
        None => (
            old,
            Err(ExceptionError::SpsrUnavailable(SpsrAccessError::CurrentModeHasNoSpsr(old.current_mode()))),
        ),
        Some(spsr) => match mode_from_field(spsr & 0x1F) {
            None => (old, Err(ExceptionError::InvalidRestoredMode(InvalidCpuMode((spsr & 0x1F) as u8)))),
            Some(mode) => (
                old.with_cpsr(spsr).with_pc(return_target(spsr, raw_target)),
                Ok(ExceptionReturnResult {
                    previous_mode: old.current_mode(),
                    restored_mode: mode,
                    target: return_target(spsr, raw_target),
                }),
            ),
        },
    }
}

/// Returns from an exception: restores the CPSR from the current mode's
/// SPSR and continues at `raw_target`, aligned for the restored state.
pub fn return_from_exception(registers: &mut Registers, raw_target: u32) -> (r: Result<
    ExceptionReturnResult,
    ExceptionError,
>)
    requires
        old(registers)@.valid(),
    ensures
        (final(registers)@, r) == spec_return_from_exception(old(registers)@, raw_target),
{
    let previous_mode = registers.mode();
    let restored_cpsr = match registers.spsr() {
        Ok(psr) => psr,
        Err(error) => {
            return Err(ExceptionError::SpsrUnavailable(error));
        },
    };
    let restored_mode = match restored_cpsr.mode() {
        Ok(mode) => mode,
        Err(error) => {
            return Err(ExceptionError::InvalidRestoredMode(error));
        },
    };
    let raw: u32 = restored_cpsr.raw();
    let target: u32 = if restored_cpsr.thumb_state() {
        raw_target & !1u32
    } else {
        raw_target & !3u32
    };
    registers.set_cpsr_raw(raw);
    registers.set_pc(target);
    Ok(ExceptionReturnResult { previous_mode, restored_mode, target })
}

/// Entering an exception and then returning from it restores the CPSR
/// that was current before the exception, including flags, masks, state
/// and mode, and continues at the aligned return address. (Every
/// register file of a `Registers` is well sized: `lemma_well_sized`.)
pub proof fn law_exception_round_trip(
    file: RegisterFile,
    exception: Exception,
    return_address: u32,
    raw_target: u32,
)
    requires
        file.well_sized(),
        file.valid(),
    ensures
        ({
            let (after, r) = spec_return_from_exception(
                entered(file, exception, return_address),
                raw_target,
            );
            &&& r matches Ok(result) && Some(result.restored_mode) == mode_from_field(file.cpsr & 0x1F)
                && result.target == return_target(file.cpsr, raw_target)
            &&& after.cpsr == file.cpsr
            &&& after.pc == return_target(file.cpsr, raw_target)
        }),
        entered(file, exception, return_address).valid(),
        entered(file, exception, return_address).spsr_value() == Some(file.cpsr),
        mode_from_field(file.cpsr & 0x1F) is Some,
        entered(file, exception, return_address).with_cpsr(file.cpsr).with_pc(
            return_target(file.cpsr, raw_target),
        ).cpsr == file.cpsr,
{
    lemma_entry_cpsr_mode(file.cpsr, exception);
    crate::cpu::cpsr::lemma_with_mode(file.cpsr, exception_mode(exception));
}

} // verus!
