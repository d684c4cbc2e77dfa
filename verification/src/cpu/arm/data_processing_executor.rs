use vstd::prelude::*;

use crate::bits::bit_set_at;
use crate::cpu::cpsr::with_nzcv;
use crate::cpu::exception_handler::{
    return_from_exception, spec_return_from_exception, ExceptionError,
};
use crate::cpu::registers::{RegisterFile, Registers};

use super::alu::{add_with_carry, logical_flags, spec_add_with_carry, AddResult, AluFlags};
use super::barrel_shifter::{
    expand_rotated_immediate, shift_immediate, shift_register, spec_expand_rotated_immediate,
    spec_shift_immediate, spec_shift_register, ShiftResult,
};
use super::data_processing::{
    opcode_is_test, opcode_uses_rn, operand2_registers_in_range, DataProcessingInstruction,
    DataProcessingOpcode, Operand2, ShiftAmount,
};

verus! {

#[derive(Debug, Clone, Copy, PartialEq, Eq, Structural)]
pub enum DataProcessingExecutionError {
    ExceptionReturn(ExceptionError),
}

#[derive(Debug, Clone, Copy, PartialEq, Eq, Structural)]
pub struct DataProcessingExecutionResult {
    pub cycles: u32,
    pub branch: bool,
}

impl DataProcessingExecutionResult {
    pub fn sequential(cycles: u32) -> (r: Self)
        ensures
            r == (DataProcessingExecutionResult { cycles, branch: false }),
    {
        DataProcessingExecutionResult { cycles, branch: false }
    }

    pub fn branched(cycles: u32) -> (r: Self)
        ensures
            r == (DataProcessingExecutionResult { cycles, branch: true }),
    {
        DataProcessingExecutionResult { cycles, branch: true }
    }
}

/// A register as an ARM operand: R15 reads as the instruction address
/// plus `pc_offset`.
pub open spec fn operand_register(registers: RegisterFile, index: int, address: u32, pc_offset: u32) -> u32 {
    if index == 15 {
        address.wrapping_add(pc_offset)
    } else {
        registers.read(index)
    }
}

/// Operand2 as the executor sees it: R15 reads as address + 8, or + 12
/// when it is the shifted register of a register-controlled shift.
pub open spec fn executed_operand2(
    registers: RegisterFile,
    operand2: Operand2,
    old_carry: bool,
    address: u32,
) -> ShiftResult {
    match operand2 {
        Operand2::Immediate { value, rotate } => spec_expand_rotated_immediate(
            value,
            rotate,
            old_carry,
        ),
        Operand2::Register(shift) => match shift.amount {
            ShiftAmount::Immediate(amount) => spec_shift_immediate(
                operand_register(registers, shift.rm as int, address, 8),
                shift.shift_type,
                amount,
                old_carry,
            ),
            ShiftAmount::Register(rs) => spec_shift_register(
                operand_register(registers, shift.rm as int, address, 12),
                shift.shift_type,
                operand_register(registers, rs as int, address, 8),
                old_carry,
            ),
        },
    }
}

/// The value and flags of a data-processing operation. Logical
/// operations take C from the shifter and keep V; arithmetic ones use
/// the adder.
pub open spec fn spec_operation(
    opcode: DataProcessingOpcode,
    rn: u32,
    op2: ShiftResult,
    old_carry: bool,
    old_overflow: bool,
) -> AddResult {
    let logical = |value: u32|
        AddResult {
            value,
            flags: AluFlags {
                negative: value >= 0x8000_0000,
                zero: value == 0,
                carry: op2.carry,
                overflow: old_overflow,
            },
        };
    match opcode {
        DataProcessingOpcode::And | DataProcessingOpcode::Tst => logical(rn & op2.value),
        DataProcessingOpcode::Eor | DataProcessingOpcode::Teq => logical(rn ^ op2.value),
        DataProcessingOpcode::Orr => logical(rn | op2.value),
        DataProcessingOpcode::Mov => logical(op2.value),
        DataProcessingOpcode::Bic => logical(rn & !op2.value),
        DataProcessingOpcode::Mvn => logical(!op2.value),
        DataProcessingOpcode::Sub | DataProcessingOpcode::Cmp => spec_add_with_carry(
            rn,
            !op2.value,
            true,
        ),
        DataProcessingOpcode::Rsb => spec_add_with_carry(op2.value, !rn, true),
        DataProcessingOpcode::Add | DataProcessingOpcode::Cmn => spec_add_with_carry(
            rn,
            op2.value,
            false,
        ),
        DataProcessingOpcode::Adc => spec_add_with_carry(rn, op2.value, old_carry),
        DataProcessingOpcode::Sbc => spec_add_with_carry(rn, !op2.value, old_carry),
        DataProcessingOpcode::Rsc => spec_add_with_carry(op2.value, !rn, old_carry),
    }
}

/// The logical operations bit by bit, for every input: AND keeps a bit
/// set in both operands, EOR one set in exactly one, ORR one set in
/// either, BIC one set in Rn and clear in Operand2, MOV copies Operand2
/// and MVN inverts it. N is bit 31 of the result, Z says it is zero, C
/// comes from the shifter and V is kept.
pub proof fn law_logical_operations_are_bitwise(
    rn: u32,
    op2: ShiftResult,
    old_carry: bool,
    old_overflow: bool,
    i: u32,
)
    requires
        i < 32,
    ensures
        bit_set_at(spec_operation(DataProcessingOpcode::And, rn, op2, old_carry, old_overflow).value, i)
            == (bit_set_at(rn, i) && bit_set_at(op2.value, i)),
        bit_set_at(spec_operation(DataProcessingOpcode::Tst, rn, op2, old_carry, old_overflow).value, i)
            == (bit_set_at(rn, i) && bit_set_at(op2.value, i)),
        bit_set_at(spec_operation(DataProcessingOpcode::Eor, rn, op2, old_carry, old_overflow).value, i)
            == (bit_set_at(rn, i) != bit_set_at(op2.value, i)),
        bit_set_at(spec_operation(DataProcessingOpcode::Teq, rn, op2, old_carry, old_overflow).value, i)
            == (bit_set_at(rn, i) != bit_set_at(op2.value, i)),
        bit_set_at(spec_operation(DataProcessingOpcode::Orr, rn, op2, old_carry, old_overflow).value, i)
            == (bit_set_at(rn, i) || bit_set_at(op2.value, i)),
        bit_set_at(spec_operation(DataProcessingOpcode::Bic, rn, op2, old_carry, old_overflow).value, i)
            == (bit_set_at(rn, i) && !bit_set_at(op2.value, i)),
        spec_operation(DataProcessingOpcode::Mov, rn, op2, old_carry, old_overflow).value == op2.value,
        bit_set_at(spec_operation(DataProcessingOpcode::Mvn, rn, op2, old_carry, old_overflow).value, i)
            == !bit_set_at(op2.value, i),
        forall|opcode: DataProcessingOpcode|
            #![trigger spec_operation(opcode, rn, op2, old_carry, old_overflow)]
            is_logical(opcode) ==> {
                let r = spec_operation(opcode, rn, op2, old_carry, old_overflow);
                &&& r.flags.negative == bit_set_at(r.value, 31)
                &&& r.flags.zero == (r.value == 0)
                &&& r.flags.carry == op2.carry
                &&& r.flags.overflow == old_overflow
            },
{
    crate::bits::lemma_bitwise_bits(rn, op2.value, i);
    assert forall|value: u32| #![trigger bit_set_at(value, 31)] bit_set_at(value, 31) == (value >= 0x8000_0000) by {
        assert(((value >> 31u32) & 1 == 1) == (value >= 0x8000_0000)) by (bit_vector);
    }
}

/// The arithmetic operations for every input, modulo 2^32: ADD, ADC, SUB,
/// SBC, RSB and RSC, with the carry meaning no unsigned overflow for
/// additions and no borrow for subtractions.
pub proof fn law_arithmetic_operations(rn: u32, op2: ShiftResult, old_carry: bool, old_overflow: bool)
    ensures
        ({
            let c: int = if old_carry {
                1
            } else {
                0
            };
            &&& spec_operation(DataProcessingOpcode::Add, rn, op2, old_carry, old_overflow).value as int
                == (rn as int + op2.value as int) % 0x1_0000_0000
            &&& spec_operation(DataProcessingOpcode::Add, rn, op2, old_carry, old_overflow).flags.carry
                == (rn as int + op2.value as int >= 0x1_0000_0000)
            &&& spec_operation(DataProcessingOpcode::Cmn, rn, op2, old_carry, old_overflow).value as int
                == (rn as int + op2.value as int) % 0x1_0000_0000
            &&& spec_operation(DataProcessingOpcode::Adc, rn, op2, old_carry, old_overflow).value as int
                == (rn as int + op2.value as int + c) % 0x1_0000_0000
            &&& spec_operation(DataProcessingOpcode::Sub, rn, op2, old_carry, old_overflow).value as int
                == (rn as int - op2.value as int) % 0x1_0000_0000
            &&& spec_operation(DataProcessingOpcode::Sub, rn, op2, old_carry, old_overflow).flags.carry
                == (rn >= op2.value)
            &&& spec_operation(DataProcessingOpcode::Cmp, rn, op2, old_carry, old_overflow).value as int
                == (rn as int - op2.value as int) % 0x1_0000_0000
            &&& spec_operation(DataProcessingOpcode::Cmp, rn, op2, old_carry, old_overflow).flags.zero
                == (rn == op2.value)
            &&& spec_operation(DataProcessingOpcode::Sbc, rn, op2, old_carry, old_overflow).value as int
                == (rn as int - op2.value as int - (1 - c)) % 0x1_0000_0000
            &&& spec_operation(DataProcessingOpcode::Rsb, rn, op2, old_carry, old_overflow).value as int
                == (op2.value as int - rn as int) % 0x1_0000_0000
            &&& spec_operation(DataProcessingOpcode::Rsc, rn, op2, old_carry, old_overflow).value as int
                == (op2.value as int - rn as int - (1 - c)) % 0x1_0000_0000
        }),
{
    super::alu::law_subtraction_through_adder(rn, op2.value);
    super::alu::law_subtraction_through_adder(op2.value, rn);
    super::alu::law_subtraction_with_carry(rn, op2.value, old_carry);
    super::alu::law_subtraction_with_carry(op2.value, rn, old_carry);
}

/// The opcodes whose result is bitwise.
pub open spec fn is_logical(opcode: DataProcessingOpcode) -> bool {
    match opcode {
        DataProcessingOpcode::And | DataProcessingOpcode::Tst | DataProcessingOpcode::Eor
        | DataProcessingOpcode::Teq | DataProcessingOpcode::Orr | DataProcessingOpcode::Mov
        | DataProcessingOpcode::Bic | DataProcessingOpcode::Mvn => true,
        _ => false,
    }
}

/// The outcome of an instruction before any register is written.
pub open spec fn dp_outcome(registers: RegisterFile, instruction: DataProcessingInstruction, address: u32) -> AddResult {
    let psr = registers.cpsr;
    let old_carry = psr & 0x2000_0000 != 0;
    let old_overflow = psr & 0x1000_0000 != 0;
    let op2 = executed_operand2(registers, instruction.operand2, old_carry, address);
    let rn = if opcode_uses_rn(instruction.opcode) {
        operand_register(registers, instruction.rn as int, address, 8)
    } else {
        0
    };
    spec_operation(instruction.opcode, rn, op2, old_carry, old_overflow)
}

/// The register file and result after a data-processing instruction.
pub open spec fn spec_execute_data_processing(
    registers: RegisterFile,
    instruction: DataProcessingInstruction,
    address: u32,
) -> (RegisterFile, Result<DataProcessingExecutionResult, DataProcessingExecutionError>) {
    let outcome = dp_outcome(registers, instruction, address);
    let writes = !opcode_is_test(instruction.opcode);
    if writes && instruction.rd == 15 {
        if instruction.set_flags {
            let (after, result) = spec_return_from_exception(registers, outcome.value);
            match result {
                Ok(_) => (after, Ok(DataProcessingExecutionResult { cycles: 1, branch: true })),
                Err(e) => (after, Err(DataProcessingExecutionError::ExceptionReturn(e))),
            }
        } else {
            let target = if registers.cpsr & 0x20 != 0 {
                outcome.value & !1u32
            } else {
                outcome.value & !3u32
            };
            (registers.with_pc(target), Ok(DataProcessingExecutionResult { cycles: 1, branch: true }))
        }
    } else {
        let written = if writes {
            registers.write(instruction.rd as int, outcome.value)
        } else {
            registers
        };
        let flagged = if instruction.set_flags || opcode_is_test(instruction.opcode) {
            written.with_cpsr(
                with_nzcv(
                    written.cpsr,
                    outcome.flags.negative,
                    outcome.flags.zero,
                    outcome.flags.carry,
                    outcome.flags.overflow,
                ),
            )
        } else {
            written
        };
        (flagged, Ok(DataProcessingExecutionResult { cycles: 1, branch: false }))
    }
}

/// Executes a decoded data-processing instruction located at
/// `instruction_address`.
pub fn execute_data_processing(
    registers: &mut Registers,
    instruction: DataProcessingInstruction,
    instruction_address: u32,
) -> (r: Result<DataProcessingExecutionResult, DataProcessingExecutionError>)
    requires
        old(registers)@.valid(),
        instruction.rn < 16,
        instruction.rd < 16,
        operand2_registers_in_range(instruction.operand2),
    ensures
        final(registers)@.valid(),
        (final(registers)@, r) == spec_execute_data_processing(
            old(registers)@,
            instruction,
            instruction_address,
        ),
{
    let old_cpsr = registers.cpsr();
    let old_carry = old_cpsr.carry();
    let operand2 = evaluate_operand2(registers, instruction.operand2, old_carry, instruction_address);
    let rn_value = if instruction.opcode.uses_rn() {
        read_arm_operand_register(registers, instruction.rn, instruction_address, 8)
    } else {
        0
    };
    let outcome = execute_operation(
        instruction.opcode,
        rn_value,
        operand2,
        old_carry,
        old_cpsr.overflow(),
    );
    proof {
        assert((old_cpsr@ & 0x2000_0000u32 != 0) == old_cpsr.spec_carry());
        assert((old_cpsr@ & 0x1000_0000u32 != 0) == old_cpsr.spec_overflow());
        assert(outcome == dp_outcome(old(registers)@, instruction, instruction_address));
    }
    if instruction.opcode.writes_result() {
        if instruction.rd == 15 {
            if instruction.set_flags {
                return match return_from_exception(registers, outcome.value) {
                    Ok(_) => Ok(DataProcessingExecutionResult::branched(1)),
                    Err(e) => Err(DataProcessingExecutionError::ExceptionReturn(e)),
                };
            }
            let target: u32 = if registers.cpsr().thumb_state() {
                outcome.value & !1u32
            } else {
                outcome.value & !3u32
            };
            registers.set_pc(target);
            return Ok(DataProcessingExecutionResult::branched(1));
        }
        registers.write(instruction.rd as usize, outcome.value);
    }
    if instruction.set_flags || instruction.opcode.is_test() {
        let flags = outcome.flags;
        let mut psr = registers.cpsr();
        psr.set_nzcv(flags.negative, flags.zero, flags.carry, flags.overflow);
        registers.set_cpsr(psr);
    }
    Ok(DataProcessingExecutionResult::sequential(1))
}

fn execute_operation(
    opcode: DataProcessingOpcode,
    rn: u32,
    operand2: ShiftResult,
    old_carry: bool,
    old_overflow: bool,
) -> (r: AddResult)
    ensures
        r == spec_operation(opcode, rn, operand2, old_carry, old_overflow),
{
    match opcode {
        DataProcessingOpcode::And | DataProcessingOpcode::Tst => logical_outcome(
            rn & operand2.value,
            operand2.carry,
            old_overflow,
        ),
        DataProcessingOpcode::Eor | DataProcessingOpcode::Teq => logical_outcome(
            rn ^ operand2.value,
            operand2.carry,
            old_overflow,
        ),
        DataProcessingOpcode::Orr => logical_outcome(
            rn | operand2.value,
            operand2.carry,
            old_overflow,
        ),
        DataProcessingOpcode::Mov => logical_outcome(operand2.value, operand2.carry, old_overflow),
        DataProcessingOpcode::Bic => logical_outcome(
            rn & !operand2.value,
            operand2.carry,
            old_overflow,
        ),
        DataProcessingOpcode::Mvn => logical_outcome(!operand2.value, operand2.carry, old_overflow),
        DataProcessingOpcode::Sub | DataProcessingOpcode::Cmp => add_with_carry(
            rn,
            !operand2.value,
            true,
        ),
        DataProcessingOpcode::Rsb => add_with_carry(operand2.value, !rn, true),
        DataProcessingOpcode::Add | DataProcessingOpcode::Cmn => add_with_carry(
            rn,
            operand2.value,
            false,
        ),
        DataProcessingOpcode::Adc => add_with_carry(rn, operand2.value, old_carry),
        DataProcessingOpcode::Sbc => add_with_carry(rn, !operand2.value, old_carry),
        DataProcessingOpcode::Rsc => add_with_carry(operand2.value, !rn, old_carry),
    }
}

fn logical_outcome(value: u32, shifter_carry: bool, old_overflow: bool) -> (r: AddResult)
    ensures
        r == (AddResult {
            value,
            flags: AluFlags {
                negative: value >= 0x8000_0000,
                zero: value == 0,
                carry: shifter_carry,
                overflow: old_overflow,
            },
        }),
{
    AddResult { value, flags: logical_flags(value, shifter_carry, old_overflow) }
}

fn evaluate_operand2(registers: &Registers, operand2: Operand2, old_carry: bool, address: u32) -> (r:
    ShiftResult)
    requires
        registers@.valid(),
        operand2_registers_in_range(operand2),
    ensures
        r == executed_operand2(registers@, operand2, old_carry, address),
{
    match operand2 {
        Operand2::Immediate { value, rotate } => expand_rotated_immediate(value, rotate, old_carry),
        Operand2::Register(shift) => match shift.amount {
            ShiftAmount::Immediate(amount) => {
                let value = read_arm_operand_register(registers, shift.rm, address, 8);
                shift_immediate(value, shift.shift_type, amount, old_carry)
            },
            ShiftAmount::Register(rs) => {
                let value = read_arm_operand_register(registers, shift.rm, address, 12);
                let rs_value = read_arm_operand_register(registers, rs, address, 8);
                shift_register(value, shift.shift_type, rs_value, old_carry)
            },
        },
    }
}

/// Reads register `index` as an operand: R15 reads as the instruction
/// address plus `pc_offset`.
pub fn read_arm_operand_register(registers: &Registers, index: u8, address: u32, pc_offset: u32) -> (r:
    u32)
    requires
        registers@.valid(),
        index < 16,
    ensures
        r == operand_register(registers@, index as int, address, pc_offset),
{
    if index == 15 {
        address.wrapping_add(pc_offset)
    } else {
        registers.read(index as usize)
    }
}

} // verus!
