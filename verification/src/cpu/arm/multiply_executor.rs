use vstd::prelude::*;

use crate::cpu::cpsr::{negative_mask, with_bits, zero_mask};
use crate::cpu::registers::{RegisterFile, Registers};
use super::alu::signed32;
use super::multiply::MultiplyInstruction;

verus! {

#[derive(Debug, Clone, Copy, PartialEq, Eq, Structural)]
pub struct MultiplyExecutionResult {
    pub value: u32,
    /// Internal multiplier iterations of ARM7TDMI's early termination.
    pub multiplier_cycles: u32,
}

/// ARM7TDMI's multiplier iteration count `m`: 1, 2 or 3 when the
/// multiplier, read as signed, fits in 8, 16 or 24 bits, and 4 otherwise.
pub open spec fn spec_multiply_iteration_count(multiplier: u32) -> u32 {
    let s = signed32(multiplier);
    if -0x80 <= s < 0x80 {
        1
    } else if -0x8000 <= s < 0x8000 {
        2
    } else if -0x80_0000 <= s < 0x80_0000 {
        3
    } else {
        4
    }
}

/// The result of MUL/MLA: the low 32 bits of `rm * rs (+ rn)`.
pub open spec fn multiply_value(rm: u32, rs: u32, accumulator: u32, accumulate: bool) -> u32 {
    ((rm as int * rs as int + if accumulate {
        accumulator as int
    } else {
        0
    }) % 0x1_0000_0000) as u32
}

/// The register file after MUL/MLA: Rd receives the value and, with S,
/// N and Z follow the value while C and V are kept.
pub open spec fn spec_execute_multiply(registers: RegisterFile, instruction: MultiplyInstruction) -> RegisterFile {
    let value = multiply_value(
        registers.read(instruction.rm as int),
        registers.read(instruction.rs as int),
        registers.read(instruction.rn as int),
        instruction.accumulate,
    );
    let written = registers.write(instruction.rd as int, value);
    if instruction.set_flags {
        written.with_cpsr(
            with_bits(
                with_bits(written.cpsr, negative_mask(), value >= 0x8000_0000),
                zero_mask(),
                value == 0,
            ),
        )
    } else {
        written
    }
}

/// Executes MUL or MLA.
pub fn execute_multiply(registers: &mut Registers, instruction: MultiplyInstruction) -> (r:
    MultiplyExecutionResult)
    requires
        old(registers)@.valid(),
        instruction.rd < 16,
        instruction.rn < 16,
        instruction.rs < 16,
        instruction.rm < 16,
    ensures
        final(registers)@.valid(),
        final(registers)@ == spec_execute_multiply(old(registers)@, instruction),
        r.value == multiply_value(
            old(registers)@.read(instruction.rm as int),
            old(registers)@.read(instruction.rs as int),
            old(registers)@.read(instruction.rn as int),
            instruction.accumulate,
        ),
        r.multiplier_cycles == spec_multiply_iteration_count(
            old(registers)@.read(instruction.rs as int),
        ),
{
    let rm_value = registers.read(instruction.rm as usize);
    let rs_value = registers.read(instruction.rs as usize);
    let accumulator = registers.read(instruction.rn as usize);
    proof {
        vstd::arithmetic::mul::lemma_mul_upper_bound(
            rm_value as int,
            0xFFFF_FFFF,
            rs_value as int,
            0xFFFF_FFFF,
        );
    }
    let product: u64 = (rm_value as u64) * (rs_value as u64);
    let sum: u64 = if instruction.accumulate {
        (product % 0x1_0000_0000) + accumulator as u64
    } else {
        product
    };
    let value: u32 = (sum % 0x1_0000_0000) as u32;
    proof {
        let p = rm_value as int * rs_value as int;
        vstd::arithmetic::div_mod::lemma_add_mod_noop_right(accumulator as int, p, 0x1_0000_0000);
    }
    registers.write(instruction.rd as usize, value);
    if instruction.set_flags {
        let mut psr = registers.cpsr();
        psr.set_negative(value >= 0x8000_0000);
        psr.set_zero(value == 0);
        registers.set_cpsr(psr);
    }
    MultiplyExecutionResult { value, multiplier_cycles: multiply_iteration_count(rs_value) }
}

/// ARM7TDMI's multiplier iteration count for MUL/MLA timing.
pub fn multiply_iteration_count(multiplier: u32) -> (r: u32)
    ensures
        r == spec_multiply_iteration_count(multiplier),
{
    if multiplier < 0x80 || multiplier >= 0xFFFF_FF80 {
        1
    } else if multiplier < 0x8000 || multiplier >= 0xFFFF_8000 {
        2
    } else if multiplier < 0x80_0000 || multiplier >= 0xFF80_0000 {
        3
    } else {
        4
    }
}

} // verus!
