use vstd::prelude::*;

use crate::cpu::cpsr::{negative_mask, with_bits, zero_mask};
use crate::cpu::registers::{RegisterFile, Registers};
use super::alu::signed32;
use super::multiply_executor::{multiply_iteration_count, spec_multiply_iteration_count};
use super::multiply_long::MultiplyLongInstruction;

verus! {

#[derive(Debug, Clone, Copy, PartialEq, Eq, Structural)]
pub struct MultiplyLongExecutionResult {
    pub value: u64,
    /// ARM7TDMI multiplier iteration count based on Rs.
    pub multiplier_cycles: u32,
}

/// The 64-bit result of a long multiply: the product of Rm and Rs, read
/// as signed or unsigned, plus RdHi:RdLo when accumulating, modulo 2^64.
pub open spec fn multiply_long_value(
    rm: u32,
    rs: u32,
    hi: u32,
    lo: u32,
    signed: bool,
    accumulate: bool,
) -> u64 {
    let product = if signed {
        signed32(rm) * signed32(rs)
    } else {
        rm as int * rs as int
    };
    let accumulator = if accumulate {
        hi as int * 0x1_0000_0000 + lo as int
    } else {
        0
    };
    ((product + accumulator) % 0x1_0000_0000_0000_0000) as u64
}

/// The register file after a long multiply: RdLo then RdHi receive the
/// low and high words and, with S, N is bit 63 and Z tells a zero value.
pub open spec fn spec_execute_multiply_long(registers: RegisterFile, instruction: MultiplyLongInstruction) -> RegisterFile {
    let value = multiply_long_value(
        registers.read(instruction.rm as int),
        registers.read(instruction.rs as int),
        registers.read(instruction.rd_hi as int),
        registers.read(instruction.rd_lo as int),
        instruction.signed,
        instruction.accumulate,
    );
    let written = registers.write(instruction.rd_lo as int, (value % 0x1_0000_0000) as u32).write(
        instruction.rd_hi as int,
        (value / 0x1_0000_0000) as u32,
    );
    if instruction.set_flags {
        written.with_cpsr(
            with_bits(
                with_bits(written.cpsr, negative_mask(), value >= 0x8000_0000_0000_0000),
                zero_mask(),
                value == 0,
            ),
        )
    } else {
        written
    }
}

/// Executes UMULL, UMLAL, SMULL or SMLAL.
pub fn execute_multiply_long(registers: &mut Registers, instruction: MultiplyLongInstruction) -> (r:
    MultiplyLongExecutionResult)
    requires
        old(registers)@.valid(),
        instruction.rd_hi < 16,
        instruction.rd_lo < 16,
        instruction.rs < 16,
        instruction.rm < 16,
    ensures
        final(registers)@.valid(),
        final(registers)@ == spec_execute_multiply_long(old(registers)@, instruction),
        r.value == multiply_long_value(
            old(registers)@.read(instruction.rm as int),
            old(registers)@.read(instruction.rs as int),
            old(registers)@.read(instruction.rd_hi as int),
            old(registers)@.read(instruction.rd_lo as int),
            instruction.signed,
            instruction.accumulate,
        ),
        r.multiplier_cycles == spec_multiply_iteration_count(
            old(registers)@.read(instruction.rs as int),
        ),
{
    let rm_value = registers.read(instruction.rm as usize);
    let rs_value = registers.read(instruction.rs as usize);
    let hi = registers.read(instruction.rd_hi as usize);
    let lo = registers.read(instruction.rd_lo as usize);
    let product: u64 = if instruction.signed {
        signed_product(rm_value, rs_value)
    } else {
        unsigned_product(rm_value, rs_value)
    };
    let value: u64 = if instruction.accumulate {
        let accumulator: u64 = join_u64(hi, lo);
        let sum: u128 = product as u128 + accumulator as u128;
        (sum % 0x1_0000_0000_0000_0000) as u64
    } else {
        product
    };
    proof {
        let p = if instruction.signed {
            signed32(rm_value) * signed32(rs_value)
        } else {
            rm_value as int * rs_value as int
        };
        let m: int = 0x1_0000_0000_0000_0000;
        let acc = hi as int * 0x1_0000_0000 + lo as int;
        vstd::arithmetic::div_mod::lemma_add_mod_noop_right(acc, p, m);
    }
    let rd_lo_value: u32 = (value % 0x1_0000_0000) as u32;
    let rd_hi_value: u32 = (value / 0x1_0000_0000) as u32;
    registers.write(instruction.rd_lo as usize, rd_lo_value);
    registers.write(instruction.rd_hi as usize, rd_hi_value);
    if instruction.set_flags {
        let mut psr = registers.cpsr();
        psr.set_negative(value >= 0x8000_0000_0000_0000);
        psr.set_zero(value == 0);
        registers.set_cpsr(psr);
    }
    MultiplyLongExecutionResult { value, multiplier_cycles: multiply_iteration_count(rs_value) }
}

fn unsigned_product(rm: u32, rs: u32) -> (r: u64)
    ensures
        r as int == (rm as int * rs as int) % 0x1_0000_0000_0000_0000,
{
    proof {
        vstd::arithmetic::mul::lemma_mul_upper_bound(rm as int, 0xFFFF_FFFF, rs as int, 0xFFFF_FFFF);
        vstd::arithmetic::mul::lemma_mul_nonnegative(rm as int, rs as int);
    }
    (rm as u64) * (rs as u64)
}

fn to_signed(x: u32) -> (r: i64)
    ensures
        r as int == signed32(x),
{
    if x >= 0x8000_0000 {
        x as i64 - 0x1_0000_0000
    } else {
        x as i64
    }
}

fn signed_product(rm: u32, rs: u32) -> (r: u64)
    ensures
        r as int == (signed32(rm) * signed32(rs)) % 0x1_0000_0000_0000_0000,
{
    let a = to_signed(rm);
    let b = to_signed(rs);
    proof {
        assert(-0x8000_0000 * 0x8000_0000 <= a * b <= 0x8000_0000 * 0x8000_0000) by (nonlinear_arith)
            requires
                -0x8000_0000 <= a <= 0x7FFF_FFFF,
                -0x8000_0000 <= b <= 0x7FFF_FFFF,
        ;
    }
    let p: i64 = a * b;
    if p >= 0 {
        p as u64
    } else {
        0xFFFF_FFFF_FFFF_FFFFu64 - ((-(p + 1)) as u64)
    }
}

fn join_u64(high: u32, low: u32) -> (r: u64)
    ensures
        r as int == high as int * 0x1_0000_0000 + low as int,
{
    (high as u64) * 0x1_0000_0000 + low as u64
}

} // verus!
