use vstd::prelude::*;

use crate::bits::bit_set_at;
use crate::bus::{bus_written16, bus_written32, bus_written8, is_io, AccessKind, AccessWidth, Bus};
use crate::cpu::arm::alu::{add_with_carry, spec_add_with_carry, AddResult};
use crate::cpu::arm::barrel_shifter::{
    rotate_right, rotate_right_spec, shift_immediate, shift_register, spec_shift_immediate,
    spec_shift_register,
};
use crate::cpu::arm::block_data_transfer::{list_contains, list_count_below, RegisterList};
use crate::cpu::arm::block_data_transfer_executor::{
    lemma_slot_step, lemma_stored_step, slot_address, store_step, store_value, stored,
};
use crate::cpu::arm::data_processing::ShiftType;
use crate::cpu::arm::single_data_transfer_executor::unaligned_word;
use crate::cpu::cpsr::{bit_set, carry_mask, negative_mask, overflow_mask, thumb_mask, with_bits, with_nzcv, zero_mask};
use crate::cpu::exception::Exception;
use crate::cpu::exception_handler::{enter_exception, entered, ExceptionError};
use crate::cpu::registers::{RegisterFile, Registers};

use super::decoder::thumb_registers_in_range;
use super::instruction::{
    ThumbAddSubtractOperand, ThumbAddSubtractOperation, ThumbAluOperation, ThumbCondition,
    ThumbHalfwordTransferKind, ThumbHighRegisterOperation, ThumbImmediateOperation,
    ThumbImmediateTransferKind, ThumbInstruction, ThumbLoadAddressBase, ThumbLongBranchHalf,
    ThumbRegisterOffsetTransferKind, ThumbShiftOperation, ThumbSpRelativeTransferKind,
    ThumbStackPointerOperation,
};

verus! {

/// The timing of an executed instruction.
#[derive(Debug, Clone, Copy, PartialEq, Eq, Structural)]
pub struct ThumbExecutionResult {
    /// Execution cycles after the fetch.
    pub cycles: u32,
    /// The next fetch starts a new bus sequence.
    pub branch: bool,
}

impl ThumbExecutionResult {
    pub fn sequential(cycles: u32) -> (r: Self)
        ensures
            r == (ThumbExecutionResult { cycles, branch: false }),
    {
        ThumbExecutionResult { cycles, branch: false }
    }

    pub fn branched(cycles: u32) -> (r: Self)
        ensures
            r == (ThumbExecutionResult { cycles, branch: true }),
    {
        ThumbExecutionResult { cycles, branch: true }
    }
}

#[derive(Debug, Clone, Copy, PartialEq, Eq, Structural)]
pub enum ThumbExecutionError {
    Exception(ExceptionError),
}

// ---------------------------------------------------------------------
// The model.

pub open spec fn carry_of(registers: RegisterFile) -> bool {
    bit_set(registers.cpsr, carry_mask())
}

pub open spec fn overflow_of(registers: RegisterFile) -> bool {
    bit_set(registers.cpsr, overflow_mask())
}

/// A register operand; PC reads as the instruction's address plus 4.
pub open spec fn read_thumb(registers: RegisterFile, register: u8, instruction_address: u32) -> u32 {
    if register == 15 {
        instruction_address.wrapping_add(4)
    } else {
        registers.read(register as int)
    }
}

/// N and Z from `value`, C and V as given.
pub open spec fn with_flags(registers: RegisterFile, value: u32, carry: bool, overflow: bool) -> RegisterFile {
    registers.with_cpsr(with_nzcv(registers.cpsr, value >= 0x8000_0000, value == 0, carry, overflow))
}

/// The four flags of an adder result.
pub open spec fn with_result_flags(registers: RegisterFile, result: AddResult) -> RegisterFile {
    registers.with_cpsr(
        with_nzcv(
            registers.cpsr,
            result.flags.negative,
            result.flags.zero,
            result.flags.carry,
            result.flags.overflow,
        ),
    )
}

/// `left + right` with the adder's flags.
pub open spec fn sum_of(left: u32, right: u32) -> AddResult {
    spec_add_with_carry(left, right, false)
}

/// `left - right` with the adder's flags; C means no borrow.
pub open spec fn difference_of(left: u32, right: u32) -> AddResult {
    spec_add_with_carry(left, !right, true)
}

pub open spec fn shift_type_of(operation: ThumbShiftOperation) -> ShiftType {
    match operation {
        ThumbShiftOperation::LogicalLeft => ShiftType::LogicalLeft,
        ThumbShiftOperation::LogicalRight => ShiftType::LogicalRight,
        ThumbShiftOperation::ArithmeticRight => ShiftType::ArithmeticRight,
    }
}

/// Whether a branch condition holds for the flags of `psr`.
pub open spec fn thumb_condition_holds(condition: ThumbCondition, psr: u32) -> bool {
    let n = bit_set(psr, negative_mask());
    let z = bit_set(psr, zero_mask());
    let c = bit_set(psr, carry_mask());
    let v = bit_set(psr, overflow_mask());
    match condition {
        ThumbCondition::Equal => z,
        ThumbCondition::NotEqual => !z,
        ThumbCondition::CarrySet => c,
        ThumbCondition::CarryClear => !c,
        ThumbCondition::Minus => n,
        ThumbCondition::Plus => !n,
        ThumbCondition::Overflow => v,
        ThumbCondition::NoOverflow => !v,
        ThumbCondition::UnsignedHigher => c && !z,
        ThumbCondition::UnsignedLowerOrSame => !c || z,
        ThumbCondition::SignedGreaterOrEqual => n == v,
        ThumbCondition::SignedLessThan => n != v,
        ThumbCondition::SignedGreaterThan => !z && n == v,
        ThumbCondition::SignedLessOrEqual => z || n != v,
    }
}

/// ARM7TDMI multiplier iterations for MUL: 1 to 4 by how many upper
/// bytes of the multiplier are all zeros or all ones.
pub open spec fn spec_multiply_internal_cycles(multiplier: u32) -> u32 {
    if multiplier & 0xFFFF_FF00 == 0 || multiplier & 0xFFFF_FF00 == 0xFFFF_FF00 {
        1
    } else if multiplier & 0xFFFF_0000 == 0 || multiplier & 0xFFFF_0000 == 0xFFFF_0000 {
        2
    } else if multiplier & 0xFF00_0000 == 0 || multiplier & 0xFF00_0000 == 0xFF00_0000 {
        3
    } else {
        4
    }
}

/// A halfword load: an odd address rotates the aligned halfword right by
/// eight bits.
pub open spec fn loaded_halfword(bus: Bus, address: u32) -> u32 {
    let value = bus.spec_read16(address & !1u32) as u32;
    if address & 1 == 0 {
        value
    } else {
        rotate_right_spec(value, 8)
    }
}

/// A signed halfword load: an odd address loads the sign-extended byte.
pub open spec fn loaded_signed_halfword(bus: Bus, address: u32) -> u32 {
    if address & 1 != 0 {
        ((bus.spec_read8(address) as i8) as i32) as u32
    } else {
        ((bus.spec_read16(address) as i16) as i32) as u32
    }
}

/// The ALU format (format 4): registers after and cycles.
pub open spec fn spec_alu(registers: RegisterFile, operation: ThumbAluOperation, source: u8, destination: u8) -> (RegisterFile, u32) {
    let left = registers.read(destination as int);
    let right = registers.read(source as int);
    let c = carry_of(registers);
    let v = overflow_of(registers);
    let d = destination as int;
    let logical = |value: u32| with_flags(registers.write(d, value), value, c, v);
    let shifted = |kind: ShiftType| {
        let s = spec_shift_register(left, kind, right, c);
        with_flags(registers.write(d, s.value), s.value, s.carry, v)
    };
    let arithmetic = |result: AddResult| with_result_flags(registers.write(d, result.value), result);
    match operation {
        ThumbAluOperation::And => (logical(left & right), 1),
        ThumbAluOperation::ExclusiveOr => (logical(left ^ right), 1),
        ThumbAluOperation::LogicalShiftLeft => (shifted(ShiftType::LogicalLeft), 1),
        ThumbAluOperation::LogicalShiftRight => (shifted(ShiftType::LogicalRight), 1),
        ThumbAluOperation::ArithmeticShiftRight => (shifted(ShiftType::ArithmeticRight), 1),
        ThumbAluOperation::AddWithCarry => (arithmetic(spec_add_with_carry(left, right, c)), 1),
        ThumbAluOperation::SubtractWithCarry => (arithmetic(spec_add_with_carry(left, !right, c)), 1),
        ThumbAluOperation::RotateRight => (shifted(ShiftType::RotateRight), 1),
        ThumbAluOperation::Test => (with_flags(registers, left & right, c, v), 1),
        ThumbAluOperation::Negate => (arithmetic(difference_of(0, right)), 1),
        ThumbAluOperation::Compare => (with_result_flags(registers, difference_of(left, right)), 1),
        ThumbAluOperation::CompareNegative => (with_result_flags(registers, sum_of(left, right)), 1),
        ThumbAluOperation::Or => (logical(left | right), 1),
        ThumbAluOperation::Multiply => (
            logical(((left as int * right as int) % 0x1_0000_0000) as u32),
            spec_multiply_internal_cycles(right),
        ),
        ThumbAluOperation::BitClear => (logical(left & !right), 1),
        ThumbAluOperation::MoveNot => (logical(!right), 1),
    }
}

/// What each format-4 ALU operation leaves in its destination, for every
/// register file and pair of low registers (Rd = `destination` as the
/// left operand, Rs = `source` as the right): AND, EOR, ORR and BIC bit by
/// bit, MVN inverts Rs, NEG, ADC, SBC and MUL modulo 2^32, and TST, CMP
/// and CMN leave Rd as it was. Only the destination among the low
/// registers changes.
pub proof fn law_thumb_alu_results(registers: RegisterFile, source: u8, destination: u8, i: u32)
    requires
        registers.well_sized(),
        source < 8,
        destination < 8,
        i < 32,
    ensures
        ({
            let d = destination as int;
            let left = registers.read(d);
            let right = registers.read(source as int);
            let c: int = if carry_of(registers) {
                1
            } else {
                0
            };
            let result = |operation: ThumbAluOperation| spec_alu(registers, operation, source, destination).0.read(d);
            &&& bit_set_at(result(ThumbAluOperation::And), i) == (bit_set_at(left, i) && bit_set_at(right, i))
            &&& bit_set_at(result(ThumbAluOperation::ExclusiveOr), i) == (bit_set_at(left, i) != bit_set_at(right, i))
            &&& bit_set_at(result(ThumbAluOperation::Or), i) == (bit_set_at(left, i) || bit_set_at(right, i))
            &&& bit_set_at(result(ThumbAluOperation::BitClear), i) == (bit_set_at(left, i) && !bit_set_at(right, i))
            &&& bit_set_at(result(ThumbAluOperation::MoveNot), i) == !bit_set_at(right, i)
            &&& result(ThumbAluOperation::Negate) as int == (0 - right as int) % 0x1_0000_0000
            &&& result(ThumbAluOperation::AddWithCarry) as int == (left as int + right as int + c) % 0x1_0000_0000
            &&& result(ThumbAluOperation::SubtractWithCarry) as int == (left as int - right as int - (1 - c))
                % 0x1_0000_0000
            &&& result(ThumbAluOperation::Multiply) as int == (left as int * right as int) % 0x1_0000_0000
            &&& result(ThumbAluOperation::Test) == left
            &&& result(ThumbAluOperation::Compare) == left
            &&& result(ThumbAluOperation::CompareNegative) == left
            &&& forall|operation: ThumbAluOperation, k: int|
                0 <= k < 8 && k != d ==> #[trigger] spec_alu(registers, operation, source, destination).0.read(k)
                    == registers.read(k)
        }),
{
    crate::bits::lemma_bitwise_bits(registers.read(destination as int), registers.read(source as int), i);
    crate::cpu::arm::alu::law_subtraction_through_adder(0, registers.read(source as int));
    crate::cpu::arm::alu::law_subtraction_with_carry(
        registers.read(destination as int),
        registers.read(source as int),
        carry_of(registers),
    );
}

/// Formats 5 (hi-register operations and BX): registers after and
/// whether the PC was written.
pub open spec fn spec_high_register(
    registers: RegisterFile,
    operation: ThumbHighRegisterOperation,
    source: u8,
    destination: u8,
    instruction_address: u32,
) -> (RegisterFile, bool) {
    let source_value = read_thumb(registers, source, instruction_address);
    let destination_value = read_thumb(registers, destination, instruction_address);
    match operation {
        ThumbHighRegisterOperation::Add => {
            let value = destination_value.wrapping_add(source_value);
            if destination == 15 {
                (registers.with_pc(value & !1u32), true)
            } else {
                (registers.write(destination as int, value), false)
            }
        },
        ThumbHighRegisterOperation::Compare => (
            with_result_flags(registers, difference_of(destination_value, source_value)),
            false,
        ),
        ThumbHighRegisterOperation::Move => if destination == 15 {
            (registers.with_pc(source_value & !1u32), true)
        } else {
            (registers.write(destination as int, source_value), false)
        },
        ThumbHighRegisterOperation::BranchExchange => {
            let thumb = source_value & 1 != 0;
            let switched = registers.with_cpsr(with_bits(registers.cpsr, thumb_mask(), thumb));
            (
                switched.with_pc(
                    if thumb {
                        source_value & !1u32
                    } else {
                        source_value & !3u32
                    },
                ),
                true,
            )
        },
    }
}

/// The instructions that touch only registers: the registers after and
/// the result.
pub open spec fn spec_thumb_register_operation(
    registers: RegisterFile,
    instruction: ThumbInstruction,
    instruction_address: u32,
) -> (RegisterFile, ThumbExecutionResult) {
    let c = carry_of(registers);
    let v = overflow_of(registers);
    let sequential = ThumbExecutionResult { cycles: 1, branch: false };
    let branched = ThumbExecutionResult { cycles: 1, branch: true };
    match instruction {
        ThumbInstruction::MoveShiftedRegister { operation, offset, source, destination } => {
            let s = spec_shift_immediate(registers.read(source as int), shift_type_of(operation), offset, c);
            (with_flags(registers.write(destination as int, s.value), s.value, s.carry, v), sequential)
        },
        ThumbInstruction::AddSubtract { operation, operand, source, destination } => {
            let left = registers.read(source as int);
            let right = match operand {
                ThumbAddSubtractOperand::Register(r) => registers.read(r as int),
                ThumbAddSubtractOperand::Immediate(value) => value as u32,
            };
            let result = match operation {
                ThumbAddSubtractOperation::Add => sum_of(left, right),
                ThumbAddSubtractOperation::Subtract => difference_of(left, right),
            };
            (with_result_flags(registers.write(destination as int, result.value), result), sequential)
        },
        ThumbInstruction::Immediate { operation, destination, immediate } => {
            let value = immediate as u32;
            let current = registers.read(destination as int);
            let d = destination as int;
            (
                match operation {
                    ThumbImmediateOperation::Move => with_flags(registers.write(d, value), value, c, v),
                    ThumbImmediateOperation::Compare => with_result_flags(registers, difference_of(current, value)),
                    ThumbImmediateOperation::Add => {
                        let result = sum_of(current, value);
                        with_result_flags(registers.write(d, result.value), result)
                    },
                    ThumbImmediateOperation::Subtract => {
                        let result = difference_of(current, value);
                        with_result_flags(registers.write(d, result.value), result)
                    },
                },
                sequential,
            )
        },
        ThumbInstruction::Alu { operation, source, destination } => {
            let (after, cycles) = spec_alu(registers, operation, source, destination);
            (after, ThumbExecutionResult { cycles, branch: false })
        },
        ThumbInstruction::HighRegister { operation, source, destination } => {
            let (after, branch) = spec_high_register(registers, operation, source, destination, instruction_address);
            (after, ThumbExecutionResult { cycles: 1, branch })
        },
        ThumbInstruction::LoadAddress { base, destination, offset } => {
            let base_value = match base {
                ThumbLoadAddressBase::ProgramCounter => instruction_address.wrapping_add(4) & !3u32,
                ThumbLoadAddressBase::StackPointer => registers.read(13),
            };
            (registers.write(destination as int, base_value.wrapping_add(offset as u32)), sequential)
        },
        ThumbInstruction::AdjustStackPointer { operation, offset } => {
            let sp = registers.read(13);
            let value = match operation {
                ThumbStackPointerOperation::Add => sp.wrapping_add(offset as u32),
                ThumbStackPointerOperation::Subtract => sp.wrapping_sub(offset as u32),
            };
            (registers.write(13, value), sequential)
        },
        ThumbInstruction::ConditionalBranch { condition, offset } => if thumb_condition_holds(
            condition,
            registers.cpsr,
        ) {
            (
                registers.with_pc(
                    instruction_address.wrapping_add(4).wrapping_add_signed(offset as i32) & !1u32,
                ),
                branched,
            )
        } else {
            (registers, sequential)
        },
        ThumbInstruction::UnconditionalBranch { offset } => (
            registers.with_pc(instruction_address.wrapping_add(4).wrapping_add_signed(offset) & !1u32),
            branched,
        ),
        ThumbInstruction::LongBranchWithLink { half, offset } => match half {
            ThumbLongBranchHalf::First => (
                registers.write(14, instruction_address.wrapping_add(4).wrapping_add_signed(offset)),
                sequential,
            ),
            ThumbLongBranchHalf::Second => {
                let target = registers.read(14).wrapping_add_signed(offset);
                (
                    registers.write(14, instruction_address.wrapping_add(2) | 1).with_pc(
                        target & !1u32,
                    ),
                    branched,
                )
            },
        },
        ThumbInstruction::SoftwareInterrupt { .. } => (
            entered(registers, Exception::SoftwareInterrupt, instruction_address.wrapping_add(2)),
            branched,
        ),
        _ => (registers, sequential),
    }
}

/// Whether an instruction accesses memory.
pub open spec fn is_transfer(instruction: ThumbInstruction) -> bool {
    match instruction {
        ThumbInstruction::LiteralLoad { .. } | ThumbInstruction::RegisterOffsetTransfer { .. }
        | ThumbInstruction::ImmediateOffsetTransfer { .. }
        | ThumbInstruction::HalfwordImmediateTransfer { .. }
        | ThumbInstruction::SpRelativeTransfer { .. } | ThumbInstruction::Push { .. }
        | ThumbInstruction::Pop { .. } | ThumbInstruction::MultipleTransfer { .. } => true,
        _ => false,
    }
}

/// The cycles of one non-sequential access.
pub open spec fn access_time(bus: Bus, address: u32, width: AccessWidth) -> u32 {
    bus.io.wait_control.spec_access_cycles(address, width, AccessKind::NonSequential)
}

/// A load of `value` into `destination`: the bus is kept and the cycles
/// are the access plus one internal cycle.
pub open spec fn load_effect(
    registers: RegisterFile,
    bus: Bus,
    new_registers: RegisterFile,
    new_bus: Bus,
    destination: u8,
    value: u32,
    access_cycles: u32,
    cycles: u32,
) -> bool {
    new_registers == registers.write(destination as int, value) && new_bus == bus && cycles
        == access_cycles.saturating_add(1)
}

/// The single-register transfers (formats 6 to 9 and 11).
pub open spec fn single_transfer_done(
    registers: RegisterFile,
    bus: Bus,
    new_registers: RegisterFile,
    new_bus: Bus,
    instruction: ThumbInstruction,
    instruction_address: u32,
    cycles: u32,
) -> bool {
    match instruction {
        ThumbInstruction::LiteralLoad { destination, offset } => {
            let address = (instruction_address.wrapping_add(4) & !3u32).wrapping_add(offset as u32);
            load_effect(
                registers,
                bus,
                new_registers,
                new_bus,
                destination,
                bus.spec_read32(address),
                access_time(bus, address, AccessWidth::Word),
                cycles,
            )
        },
        ThumbInstruction::RegisterOffsetTransfer { kind, offset_register, base_register, destination } => {
            let address = registers.read(base_register as int).wrapping_add(registers.read(offset_register as int));
            word_byte_halfword_transfer(registers, bus, new_registers, new_bus, kind, address, destination, cycles)
        },
        ThumbInstruction::ImmediateOffsetTransfer { kind, offset, base_register, destination } => {
            let address = registers.read(base_register as int).wrapping_add(offset as u32);
            let equivalent = match kind {
                ThumbImmediateTransferKind::StoreWord => ThumbRegisterOffsetTransferKind::StoreWord,
                ThumbImmediateTransferKind::LoadWord => ThumbRegisterOffsetTransferKind::LoadWord,
                ThumbImmediateTransferKind::StoreByte => ThumbRegisterOffsetTransferKind::StoreByte,
                ThumbImmediateTransferKind::LoadByte => ThumbRegisterOffsetTransferKind::LoadByte,
            };
            word_byte_halfword_transfer(registers, bus, new_registers, new_bus, equivalent, address, destination, cycles)
        },
        ThumbInstruction::HalfwordImmediateTransfer { kind, offset, base_register, destination } => {
            let address = registers.read(base_register as int).wrapping_add(offset as u32);
            let equivalent = match kind {
                ThumbHalfwordTransferKind::Store => ThumbRegisterOffsetTransferKind::StoreHalfword,
                ThumbHalfwordTransferKind::Load => ThumbRegisterOffsetTransferKind::LoadHalfword,
            };
            word_byte_halfword_transfer(registers, bus, new_registers, new_bus, equivalent, address, destination, cycles)
        },
        ThumbInstruction::SpRelativeTransfer { kind, destination, offset } => {
            let address = registers.read(13).wrapping_add(offset as u32);
            let equivalent = match kind {
                ThumbSpRelativeTransferKind::Store => ThumbRegisterOffsetTransferKind::StoreWord,
                ThumbSpRelativeTransferKind::Load => ThumbRegisterOffsetTransferKind::LoadWord,
            };
            word_byte_halfword_transfer(registers, bus, new_registers, new_bus, equivalent, address, destination, cycles)
        },
        _ => false,
    }
}

/// One load or store at `address`: stores keep the registers, force a
/// word down to the word and a halfword down to the halfword; loads
/// rotate an unaligned word or halfword and sign-extend the signed kinds.
pub open spec fn word_byte_halfword_transfer(
    registers: RegisterFile,
    bus: Bus,
    new_registers: RegisterFile,
    new_bus: Bus,
    kind: ThumbRegisterOffsetTransferKind,
    address: u32,
    destination: u8,
    cycles: u32,
) -> bool {
    let stored_value = registers.read(destination as int);
    match kind {
        ThumbRegisterOffsetTransferKind::StoreWord => new_registers == registers && bus_written32(
            bus,
            new_bus,
            address & !3u32,
            stored_value,
        ) && cycles == access_time(bus, address & !3u32, AccessWidth::Word),
        ThumbRegisterOffsetTransferKind::StoreHalfword => new_registers == registers && bus_written16(
            bus,
            new_bus,
            address & !1u32,
            stored_value as u16,
        ) && cycles == access_time(bus, address & !1u32, AccessWidth::Halfword),
        ThumbRegisterOffsetTransferKind::StoreByte => new_registers == registers && bus_written8(
            bus,
            new_bus,
            address,
            stored_value as u8,
        ) && cycles == access_time(bus, address, AccessWidth::Byte),
        ThumbRegisterOffsetTransferKind::LoadSignedByte => load_effect(
            registers,
            bus,
            new_registers,
            new_bus,
            destination,
            ((bus.spec_read8(address) as i8) as i32) as u32,
            access_time(bus, address, AccessWidth::Byte),
            cycles,
        ),
        ThumbRegisterOffsetTransferKind::LoadWord => load_effect(
            registers,
            bus,
            new_registers,
            new_bus,
            destination,
            unaligned_word(bus, address),
            access_time(bus, address & !3u32, AccessWidth::Word),
            cycles,
        ),
        ThumbRegisterOffsetTransferKind::LoadHalfword => load_effect(
            registers,
            bus,
            new_registers,
            new_bus,
            destination,
            loaded_halfword(bus, address),
            access_time(bus, address & !1u32, AccessWidth::Halfword),
            cycles,
        ),
        ThumbRegisterOffsetTransferKind::LoadByte => load_effect(
            registers,
            bus,
            new_registers,
            new_bus,
            destination,
            bus.spec_read8(address) as u32,
            access_time(bus, address, AccessWidth::Byte),
            cycles,
        ),
        ThumbRegisterOffsetTransferKind::LoadSignedHalfword => load_effect(
            registers,
            bus,
            new_registers,
            new_bus,
            destination,
            loaded_signed_halfword(bus, address),
            if address & 1 != 0 {
                access_time(bus, address, AccessWidth::Byte)
            } else {
                access_time(bus, address, AccessWidth::Halfword)
            },
            cycles,
        ),
    }
}

/// The registers after loading the listed registers below `r` from
/// consecutive words; a loaded PC is halfword-aligned.
pub open spec fn thumb_loaded(registers: RegisterFile, bus: Bus, bits: u16, first: u32, r: int) -> RegisterFile
    decreases r,
{
    if r <= 0 {
        registers
    } else {
        let before = thumb_loaded(registers, bus, bits, first, r - 1);
        if list_contains(bits, r - 1) {
            let value = bus.spec_read32(slot_address(first, bits, r - 1));
            if r - 1 == 15 {
                before.with_pc(value & !1u32)
            } else {
                before.write(r - 1, value)
            }
        } else {
            before
        }
    }
}

/// The register list of PUSH: the low registers, and LR as register 14.
pub open spec fn push_list(registers: u8, include_link_register: bool) -> u16 {
    (registers as u16) | if include_link_register {
        0x4000u16
    } else {
        0
    }
}

/// The register list of POP: the low registers, and PC as register 15.
pub open spec fn pop_list(registers: u8, include_program_counter: bool) -> u16 {
    (registers as u16) | if include_program_counter {
        0x8000u16
    } else {
        0
    }
}

/// The multiple-register transfers (PUSH, POP, LDMIA, STMIA): registers,
/// bus and whether the PC was loaded. Registers go in ascending order,
/// the lowest at the lowest address. PUSH stores below SP and lowers it;
/// POP loads from SP and raises it; LDMIA and STMIA move from the base and
/// write back the address after the last word, except that LDMIA keeps a
/// loaded base. An empty list changes nothing.
pub open spec fn multiple_transfer_done(
    registers: RegisterFile,
    bus: Bus,
    new_registers: RegisterFile,
    new_bus: Bus,
    instruction: ThumbInstruction,
    instruction_address: u32,
    branch: bool,
) -> bool {
    match instruction {
        ThumbInstruction::Push { registers: list, include_link_register } => {
            let bits = push_list(list, include_link_register);
            let count = list_count_below(bits, 16);
            let sp = registers.read(13);
            let first = sp.wrapping_sub((count * 4) as u32);
            !branch && if count == 0 {
                new_registers == registers && new_bus == bus
            } else {
                stored(bus, new_bus, registers, bits, first, instruction_address, 16) && new_registers
                    == registers.write(13, first)
            }
        },
        ThumbInstruction::Pop { registers: list, include_program_counter } => {
            let bits = pop_list(list, include_program_counter);
            let count = list_count_below(bits, 16);
            let sp = registers.read(13);
            if count == 0 {
                new_registers == registers && new_bus == bus && !branch
            } else {
                &&& new_bus == bus
                &&& branch == include_program_counter
                &&& new_registers == thumb_loaded(registers, bus, bits, sp, 16).write(
                    13,
                    sp.wrapping_add((count * 4) as u32),
                )
            }
        },
        ThumbInstruction::MultipleTransfer { load, base_register, registers: list } => {
            let bits = list as u16;
            let base = registers.read(base_register as int);
            let end = slot_address(base, bits, 16);
            !branch && if list == 0 {
                new_registers == registers && new_bus == bus
            } else if load {
                let after = thumb_loaded(registers, bus, bits, base, 16);
                new_bus == bus && new_registers == if list_contains(bits, base_register as int) {
                    after
                } else {
                    after.write(base_register as int, end)
                }
            } else {
                stored(bus, new_bus, registers, bits, base, instruction_address, 16) && new_registers
                    == registers.write(base_register as int, end)
            }
        },
        _ => false,
    }
}

/// The cycles of moving the listed registers below `r` to or from
/// consecutive words at `first` with the wait states of `bus`: the first
/// access non-sequential, the rest sequential, summed with saturation.
pub open spec fn transfer_cycles(bus: Bus, bits: u16, first: u32, r: int) -> u32
    decreases r,
{
    if r <= 0 {
        0
    } else {
        let before = transfer_cycles(bus, bits, first, r - 1);
        if list_contains(bits, r - 1) {
            let kind = if list_count_below(bits, r - 1) == 0 {
                AccessKind::NonSequential
            } else {
                AccessKind::Sequential
            };
            let spent = bus.io.wait_control.spec_access_cycles(
                slot_address(first, bits, r - 1),
                AccessWidth::Word,
                kind,
            );
            if before + spent > u32::MAX {
                u32::MAX
            } else {
                (before + spent) as u32
            }
        } else {
            before
        }
    }
}

/// `end` is `start` after the listed registers below `r` were stored to
/// consecutive words at `first`, and `cycles` is what the stores took:
/// each word at the wait states in force just before it, the first
/// non-sequential, summed with saturation.
pub open spec fn timed_stored(
    start: Bus,
    end: Bus,
    registers: RegisterFile,
    bits: u16,
    first: u32,
    instruction_address: u32,
    r: int,
    cycles: u32,
) -> bool
    decreases r,
{
    if r <= 0 {
        end == start && cycles == 0
    } else if !list_contains(bits, r - 1) {
        timed_stored(start, end, registers, bits, first, instruction_address, r - 1, cycles)
    } else {
        exists|step: (Bus, u32)|
            #[trigger] store_step(
                step.0,
                end,
                slot_address(first, bits, r - 1),
                store_value(registers, r - 1, instruction_address),
            ) && timed_stored(start, step.0, registers, bits, first, instruction_address, r - 1, step.1)
                && cycles == step.1.saturating_add(
                step.0.io.wait_control.spec_access_cycles(
                    slot_address(first, bits, r - 1),
                    AccessWidth::Word,
                    if list_count_below(bits, r - 1) == 0 {
                        AccessKind::NonSequential
                    } else {
                        AccessKind::Sequential
                    },
                ),
            )
    }
}

proof fn lemma_timed_store_step(
    start: Bus,
    middle: Bus,
    end: Bus,
    registers: RegisterFile,
    bits: u16,
    first: u32,
    instruction_address: u32,
    r: int,
    before: u32,
    cycles: u32,
)
    requires
        0 <= r,
        list_contains(bits, r),
        timed_stored(start, middle, registers, bits, first, instruction_address, r, before),
        store_step(middle, end, slot_address(first, bits, r), store_value(registers, r, instruction_address)),
        cycles == before.saturating_add(
            middle.io.wait_control.spec_access_cycles(
                slot_address(first, bits, r),
                AccessWidth::Word,
                if list_count_below(bits, r) == 0 {
                    AccessKind::NonSequential
                } else {
                    AccessKind::Sequential
                },
            ),
        ),
    ensures
        timed_stored(start, end, registers, bits, first, instruction_address, r + 1, cycles),
{
    let next = r + 1;
    assert(next - 1 == r);
    let step = (middle, before);
    assert(store_step(
        step.0,
        end,
        slot_address(first, bits, next - 1),
        store_value(registers, next - 1, instruction_address),
    ));
}

/// No listed register below `n` has its word in the I/O block, so the
/// transfer cannot change the wait states.
pub open spec fn slots_clear_of_io(bits: u16, first: u32, n: int) -> bool {
    forall|r: int|
        0 <= r < n && list_contains(bits, r) ==> !is_io(#[trigger] slot_address(first, bits, r) & !3u32)
}

/// The cycles of a multiple transfer: the accesses, plus one internal
/// cycle for a load, or one cycle for an empty list. A store takes each
/// word at the wait states in force when it is written (a word written
/// to the I/O block may change them); with no word in the I/O block that
/// is the accesses' cycles at the wait states it started with.
pub open spec fn multiple_transfer_cycles(
    registers: RegisterFile,
    bus: Bus,
    new_bus: Bus,
    instruction: ThumbInstruction,
    instruction_address: u32,
    cycles: u32,
) -> bool {
    match instruction {
        ThumbInstruction::Pop { registers: list, include_program_counter } => {
            let bits = pop_list(list, include_program_counter);
            if list_count_below(bits, 16) == 0 {
                cycles == 1
            } else {
                cycles == transfer_cycles(bus, bits, registers.read(13), 16).saturating_add(1)
            }
        },
        ThumbInstruction::MultipleTransfer { load, base_register, registers: list } => {
            let base = registers.read(base_register as int);
            if list == 0 {
                cycles == 1
            } else if load {
                cycles == transfer_cycles(bus, list as u16, base, 16).saturating_add(1)
            } else {
                &&& timed_stored(bus, new_bus, registers, list as u16, base, instruction_address, 16, cycles)
                &&& slots_clear_of_io(list as u16, base, 16) ==> cycles == transfer_cycles(
                    bus,
                    list as u16,
                    base,
                    16,
                )
            }
        },
        ThumbInstruction::Push { registers: list, include_link_register } => {
            let bits = push_list(list, include_link_register);
            let count = list_count_below(bits, 16);
            let first = registers.read(13).wrapping_sub((count * 4) as u32);
            if count == 0 {
                cycles == 1
            } else {
                &&& timed_stored(bus, new_bus, registers, bits, first, instruction_address, 16, cycles)
                &&& slots_clear_of_io(bits, first, 16) ==> cycles == transfer_cycles(bus, bits, first, 16)
            }
        },
        _ => false,
    }
}

/// What executing `instruction` at `instruction_address` does.
pub open spec fn thumb_executed(
    registers: RegisterFile,
    bus: Bus,
    new_registers: RegisterFile,
    new_bus: Bus,
    instruction: ThumbInstruction,
    instruction_address: u32,
    r: Result<ThumbExecutionResult, ThumbExecutionError>,
) -> bool {
    match instruction {
        ThumbInstruction::Push { .. } | ThumbInstruction::Pop { .. }
        | ThumbInstruction::MultipleTransfer { .. } => r matches Ok(result) && result.cycles >= 1
            && multiple_transfer_cycles(
            registers,
            bus,
            new_bus,
            instruction,
            instruction_address,
            result.cycles,
        )
            && multiple_transfer_done(
            registers,
            bus,
            new_registers,
            new_bus,
            instruction,
            instruction_address,
            result.branch,
        ),
        _ => if is_transfer(instruction) {
            r matches Ok(result) && !result.branch && single_transfer_done(
                registers,
                bus,
                new_registers,
                new_bus,
                instruction,
                instruction_address,
                result.cycles,
            )
        } else {
            let (after, result) = spec_thumb_register_operation(registers, instruction, instruction_address);
            new_registers == after && new_bus == bus && r == Ok::<
                ThumbExecutionResult,
                ThumbExecutionError,
            >(result)
        },
    }
}

} // verus!

verus! {

// ---------------------------------------------------------------------
// The executor.

fn apply_flags(registers: &mut Registers, value: u32, carry: bool, overflow: bool)
    requires
        old(registers)@.valid(),
    ensures
        final(registers)@ == with_flags(old(registers)@, value, carry, overflow),
        final(registers)@.valid(),
{
    let mut psr = registers.cpsr();
    psr.set_nzcv(value >= 0x8000_0000, value == 0, carry, overflow);
    registers.set_cpsr(psr);
}

fn apply_result_flags(registers: &mut Registers, result: AddResult)
    requires
        old(registers)@.valid(),
    ensures
        final(registers)@ == with_result_flags(old(registers)@, result),
        final(registers)@.valid(),
{
    let mut psr = registers.cpsr();
    psr.set_nzcv(result.flags.negative, result.flags.zero, result.flags.carry, result.flags.overflow);
    registers.set_cpsr(psr);
}

fn difference(left: u32, right: u32) -> (r: AddResult)
    ensures
        r == difference_of(left, right),
{
    add_with_carry(left, !right, true)
}

fn sum(left: u32, right: u32) -> (r: AddResult)
    ensures
        r == sum_of(left, right),
{
    add_with_carry(left, right, false)
}

fn read_thumb_register(registers: &Registers, register: u8, instruction_address: u32) -> (r: u32)
    requires
        registers@.valid(),
        register < 16,
    ensures
        r == read_thumb(registers@, register, instruction_address),
{
    if register == 15 {
        instruction_address.wrapping_add(4)
    } else {
        registers.read(register as usize)
    }
}

fn multiply_internal_cycles(multiplier: u32) -> (r: u32)
    ensures
        r == spec_multiply_internal_cycles(multiplier),
{
    if multiplier & 0xFFFF_FF00 == 0 || multiplier & 0xFFFF_FF00 == 0xFFFF_FF00 {
        1
    } else if multiplier & 0xFFFF_0000 == 0 || multiplier & 0xFFFF_0000 == 0xFFFF_0000 {
        2
    } else if multiplier & 0xFF00_0000 == 0 || multiplier & 0xFF00_0000 == 0xFF00_0000 {
        3
    } else {
        4
    }
}

fn condition_passes(condition: ThumbCondition, registers: &Registers) -> (r: bool)
    ensures
        r == thumb_condition_holds(condition, registers@.cpsr),
{
    let cpsr = registers.cpsr();
    let n = cpsr.negative();
    let z = cpsr.zero();
    let c = cpsr.carry();
    let v = cpsr.overflow();
    match condition {
        ThumbCondition::Equal => z,
        ThumbCondition::NotEqual => !z,
        ThumbCondition::CarrySet => c,
        ThumbCondition::CarryClear => !c,
        ThumbCondition::Minus => n,
        ThumbCondition::Plus => !n,
        ThumbCondition::Overflow => v,
        ThumbCondition::NoOverflow => !v,
        ThumbCondition::UnsignedHigher => c && !z,
        ThumbCondition::UnsignedLowerOrSame => !c || z,
        ThumbCondition::SignedGreaterOrEqual => n == v,
        ThumbCondition::SignedLessThan => n != v,
        ThumbCondition::SignedGreaterThan => !z && n == v,
        ThumbCondition::SignedLessOrEqual => z || n != v,
    }
}

fn execute_alu(registers: &mut Registers, operation: ThumbAluOperation, source: u8, destination: u8) -> (cycles: u32)
    requires
        old(registers)@.valid(),
        source < 8,
        destination < 8,
    ensures
        final(registers)@.valid(),
        (final(registers)@, cycles) == spec_alu(old(registers)@, operation, source, destination),
{
    let left = registers.read(destination as usize);
    let right = registers.read(source as usize);
    let c = registers.cpsr().carry();
    let v = registers.cpsr().overflow();
    let d = destination as usize;
    match operation {
        ThumbAluOperation::And => {
            registers.write(d, left & right);
            apply_flags(registers, left & right, c, v);
            1
        },
        ThumbAluOperation::ExclusiveOr => {
            registers.write(d, left ^ right);
            apply_flags(registers, left ^ right, c, v);
            1
        },
        ThumbAluOperation::LogicalShiftLeft => {
            let s = shift_register(left, ShiftType::LogicalLeft, right, c);
            registers.write(d, s.value);
            apply_flags(registers, s.value, s.carry, v);
            1
        },
        ThumbAluOperation::LogicalShiftRight => {
            let s = shift_register(left, ShiftType::LogicalRight, right, c);
            registers.write(d, s.value);
            apply_flags(registers, s.value, s.carry, v);
            1
        },
        ThumbAluOperation::ArithmeticShiftRight => {
            let s = shift_register(left, ShiftType::ArithmeticRight, right, c);
            registers.write(d, s.value);
            apply_flags(registers, s.value, s.carry, v);
            1
        },
        ThumbAluOperation::AddWithCarry => {
            let result = add_with_carry(left, right, c);
            registers.write(d, result.value);
            apply_result_flags(registers, result);
            1
        },
        ThumbAluOperation::SubtractWithCarry => {
            let result = add_with_carry(left, !right, c);
            registers.write(d, result.value);
            apply_result_flags(registers, result);
            1
        },
        ThumbAluOperation::RotateRight => {
            let s = shift_register(left, ShiftType::RotateRight, right, c);
            registers.write(d, s.value);
            apply_flags(registers, s.value, s.carry, v);
            1
        },
        ThumbAluOperation::Test => {
            apply_flags(registers, left & right, c, v);
            1
        },
        ThumbAluOperation::Negate => {
            let result = difference(0, right);
            registers.write(d, result.value);
            apply_result_flags(registers, result);
            1
        },
        ThumbAluOperation::Compare => {
            apply_result_flags(registers, difference(left, right));
            1
        },
        ThumbAluOperation::CompareNegative => {
            apply_result_flags(registers, sum(left, right));
            1
        },
        ThumbAluOperation::Or => {
            registers.write(d, left | right);
            apply_flags(registers, left | right, c, v);
            1
        },
        ThumbAluOperation::Multiply => {
            proof {
                vstd::arithmetic::mul::lemma_mul_upper_bound(left as int, 0xFFFF_FFFF, right as int, 0xFFFF_FFFF);
            }
            let value = ((left as u64 * right as u64) % 0x1_0000_0000) as u32;
            registers.write(d, value);
            apply_flags(registers, value, c, v);
            multiply_internal_cycles(right)
        },
        ThumbAluOperation::BitClear => {
            registers.write(d, left & !right);
            apply_flags(registers, left & !right, c, v);
            1
        },
        ThumbAluOperation::MoveNot => {
            registers.write(d, !right);
            apply_flags(registers, !right, c, v);
            1
        },
    }
}

fn execute_high_register(
    registers: &mut Registers,
    operation: ThumbHighRegisterOperation,
    source: u8,
    destination: u8,
    instruction_address: u32,
) -> (branch: bool)
    requires
        old(registers)@.valid(),
        source < 16,
        destination < 16,
    ensures
        final(registers)@.valid(),
        (final(registers)@, branch) == spec_high_register(
            old(registers)@,
            operation,
            source,
            destination,
            instruction_address,
        ),
{
    let source_value = read_thumb_register(registers, source, instruction_address);
    let destination_value = read_thumb_register(registers, destination, instruction_address);
    match operation {
        ThumbHighRegisterOperation::Add => {
            let value = destination_value.wrapping_add(source_value);
            if destination == 15 {
                registers.set_pc(value & !1u32);
                true
            } else {
                registers.write(destination as usize, value);
                false
            }
        },
        ThumbHighRegisterOperation::Compare => {
            apply_result_flags(registers, difference(destination_value, source_value));
            false
        },
        ThumbHighRegisterOperation::Move => {
            if destination == 15 {
                registers.set_pc(source_value & !1u32);
                true
            } else {
                registers.write(destination as usize, source_value);
                false
            }
        },
        ThumbHighRegisterOperation::BranchExchange => {
            let thumb = source_value & 1 != 0;
            registers.cpsr_mut().set_thumb_state(thumb);
            if thumb {
                registers.set_pc(source_value & !1u32);
            } else {
                registers.set_pc(source_value & !3u32);
            }
            true
        },
    }
}

fn read_word_rotated(bus: &Bus, address: u32) -> (r: (u32, u32))
    requires
        bus.wf(),
    ensures
        r.0 == unaligned_word(*bus, address),
        r.1 == access_time(*bus, address & !3u32, AccessWidth::Word),
{
    proof {
        crate::bits::lemma_u32_fields();
    }
    let access = bus.read32_timed(address & !3u32, AccessKind::NonSequential);
    (rotate_right(access.value, (address & 3) * 8), access.cycles)
}

fn read_halfword_rotated(bus: &Bus, address: u32) -> (r: (u32, u32))
    requires
        bus.wf(),
    ensures
        r.0 == loaded_halfword(*bus, address),
        r.1 == access_time(*bus, address & !1u32, AccessWidth::Halfword),
{
    let access = bus.read16_timed(address & !1u32, AccessKind::NonSequential);
    let value = access.value as u32;
    if address & 1 == 0 {
        (value, access.cycles)
    } else {
        (rotate_right(value, 8), access.cycles)
    }
}

/// One load or store at `address`; returns the cycles.
fn transfer(
    registers: &mut Registers,
    bus: &mut Bus,
    kind: ThumbRegisterOffsetTransferKind,
    address: u32,
    destination: u8,
) -> (cycles: u32)
    requires
        old(registers)@.valid(),
        old(bus).wf(),
        destination < 8,
    ensures
        final(registers)@.valid(),
        final(bus).wf(),
        word_byte_halfword_transfer(
            old(registers)@,
            *old(bus),
            final(registers)@,
            *final(bus),
            kind,
            address,
            destination,
            cycles,
        ),
{
    let d = destination as usize;
    match kind {
        ThumbRegisterOffsetTransferKind::StoreWord => {
            let value = registers.read(d);
            bus.write32_timed(address & !3u32, value, AccessKind::NonSequential)
        },
        ThumbRegisterOffsetTransferKind::StoreHalfword => {
            let value = registers.read(d);
            bus.write16_timed(address & !1u32, value as u16, AccessKind::NonSequential)
        },
        ThumbRegisterOffsetTransferKind::StoreByte => {
            let value = registers.read(d);
            bus.write8_timed(address, value as u8, AccessKind::NonSequential)
        },
        ThumbRegisterOffsetTransferKind::LoadSignedByte => {
            let access = bus.read8_timed(address, AccessKind::NonSequential);
            registers.write(d, ((access.value as i8) as i32) as u32);
            access.cycles.saturating_add(1)
        },
        ThumbRegisterOffsetTransferKind::LoadWord => {
            let (value, cycles) = read_word_rotated(bus, address);
            registers.write(d, value);
            cycles.saturating_add(1)
        },
        ThumbRegisterOffsetTransferKind::LoadHalfword => {
            let (value, cycles) = read_halfword_rotated(bus, address);
            registers.write(d, value);
            cycles.saturating_add(1)
        },
        ThumbRegisterOffsetTransferKind::LoadByte => {
            let access = bus.read8_timed(address, AccessKind::NonSequential);
            registers.write(d, access.value as u32);
            access.cycles.saturating_add(1)
        },
        ThumbRegisterOffsetTransferKind::LoadSignedHalfword => {
            if address & 1 != 0 {
                let access = bus.read8_timed(address, AccessKind::NonSequential);
                registers.write(d, ((access.value as i8) as i32) as u32);
                access.cycles.saturating_add(1)
            } else {
                let access = bus.read16_timed(address, AccessKind::NonSequential);
                registers.write(d, ((access.value as i16) as i32) as u32);
                access.cycles.saturating_add(1)
            }
        },
    }
}

/// The first access of a burst is non-sequential, the rest sequential.
fn access_kind(first: &mut bool) -> (r: AccessKind)
    ensures
        !*final(first),
        r == if *old(first) {
            AccessKind::NonSequential
        } else {
            AccessKind::Sequential
        },
{
    if *first {
        *first = false;
        AccessKind::NonSequential
    } else {
        AccessKind::Sequential
    }
}

/// Loads the listed registers from consecutive words at `first`; returns
/// the address after the last word, the cycles, and whether PC was
/// loaded.
fn load_list(registers: &mut Registers, bus: &Bus, list: RegisterList, first: u32) -> (r: (u32, u32, bool))
    requires
        old(registers)@.valid(),
        bus.wf(),
    ensures
        final(registers)@.valid(),
        final(registers)@ == thumb_loaded(old(registers)@, *bus, list@, first, 16),
        r.0 == slot_address(first, list@, 16),
        r.1 == transfer_cycles(*bus, list@, first, 16),
        r.2 == list_contains(list@, 15),
{
    let ghost start = registers@;
    let mut address = first;
    let mut cycles: u32 = 0;
    let mut first_access = true;
    let mut loaded_pc = false;
    let mut register: u8 = 0;
    proof {
        assert(((first as int + 4 * 0) % 0x1_0000_0000) as u32 == first);
    }
    while register < 16
        invariant
            register <= 16,
            bus.wf(),
            start == old(registers)@,
            registers@.valid(),
            address == slot_address(first, list@, register as int),
            registers@ == thumb_loaded(start, *bus, list@, first, register as int),
            loaded_pc == (register > 15 && list_contains(list@, 15)),
            cycles == transfer_cycles(*bus, list@, first, register as int),
            first_access == (list_count_below(list@, register as int) == 0),
        decreases 16 - register,
    {
        proof {
            lemma_slot_step(first, list@, register as int);
            crate::cpu::arm::block_data_transfer::lemma_count_bounds(list@, register as int);
            assert((register as int + 1) - 1 == register as int);
        }
        if list.contains(register) {
            let kind = access_kind(&mut first_access);
            let access = bus.read32_timed(address, kind);
            cycles = cycles.saturating_add(access.cycles);
            if register == 15 {
                registers.set_pc(access.value & !1u32);
                loaded_pc = true;
            } else {
                registers.write(register as usize, access.value);
            }
            address = address.wrapping_add(4);
        }
        register = register + 1;
    }
    (address, cycles, loaded_pc)
}

/// Stores the listed registers to consecutive words at `first`; returns
/// the address after the last word and the cycles.
fn store_list(registers: &Registers, bus: &mut Bus, list: RegisterList, first: u32, instruction_address: u32) -> (r: (u32, u32))
    requires
        registers@.valid(),
        old(bus).wf(),
        !list_contains(list@, 15),
    ensures
        final(bus).wf(),
        stored(*old(bus), *final(bus), registers@, list@, first, instruction_address, 16),
        r.0 == slot_address(first, list@, 16),
        list_count_below(list@, 16) > 0 ==> r.1 >= 1,
        timed_stored(*old(bus), *final(bus), registers@, list@, first, instruction_address, 16, r.1),
        slots_clear_of_io(list@, first, 16) ==> r.1 == transfer_cycles(*old(bus), list@, first, 16),
{
    let ghost start = *bus;
    let mut address = first;
    let mut cycles: u32 = 0;
    let mut first_access = true;
    let mut register: u8 = 0;
    proof {
        assert(((first as int + 4 * 0) % 0x1_0000_0000) as u32 == first);
    }
    while register < 16
        invariant
            register <= 16,
            registers@.valid(),
            !list_contains(list@, 15),
            bus.wf(),
            start == *old(bus),
            address == slot_address(first, list@, register as int),
            stored(start, *bus, registers@, list@, first, instruction_address, register as int),
            list_count_below(list@, register as int) > 0 ==> cycles >= 1,
            first_access == (list_count_below(list@, register as int) == 0),
            slots_clear_of_io(list@, first, register as int) ==> bus.io == start.io && cycles
                == transfer_cycles(start, list@, first, register as int),
            timed_stored(start, *bus, registers@, list@, first, instruction_address, register as int, cycles),
        decreases 16 - register,
    {
        proof {
            lemma_slot_step(first, list@, register as int);
            crate::cpu::arm::block_data_transfer::lemma_count_bounds(list@, register as int);
            assert((register as int + 1) - 1 == register as int);
        }
        if list.contains(register) {
            let ghost before = *bus;
            let ghost before_cycles = cycles;
            let kind = access_kind(&mut first_access);
            let value = registers.read(register as usize);
            let spent = bus.write32_timed(address, value, kind);
            cycles = cycles.saturating_add(spent);
            proof {
                lemma_timed_store_step(
                    start,
                    before,
                    *bus,
                    registers@,
                    list@,
                    first,
                    instruction_address,
                    register as int,
                    before_cycles,
                    cycles,
                );
                if slots_clear_of_io(list@, first, register as int + 1) {
                    assert(slots_clear_of_io(list@, first, register as int));
                    assert(!is_io(slot_address(first, list@, register as int) & !3u32));
                    crate::bus::lemma_word_write_keeps_io(before, *bus, address, value);
                }
                lemma_stored_step(
                    start,
                    before,
                    *bus,
                    registers@,
                    list@,
                    first,
                    instruction_address,
                    register as int,
                );
            }
            address = address.wrapping_add(4);
        }
        register = register + 1;
    }
    (address, cycles)
}

} // verus!

verus! {

fn execute_push(registers: &mut Registers, bus: &mut Bus, list: u8, include_link_register: bool, instruction_address: u32) -> (cycles: u32)
    requires
        old(registers)@.valid(),
        old(bus).wf(),
    ensures
        final(registers)@.valid(),
        final(bus).wf(),
        cycles >= 1,
        list_count_below(push_list(list, include_link_register), 16) == 0 ==> cycles == 1,
        multiple_transfer_cycles(
            old(registers)@,
            *old(bus),
            *final(bus),
            ThumbInstruction::Push { registers: list, include_link_register },
            instruction_address,
            cycles,
        ),
        multiple_transfer_done(
            old(registers)@,
            *old(bus),
            final(registers)@,
            *final(bus),
            ThumbInstruction::Push { registers: list, include_link_register },
            instruction_address,
            false,
        ),
{
    let bits: u16 = (list as u16) | if include_link_register {
        0x4000u16
    } else {
        0
    };
    let register_list = RegisterList::new(bits);
    let count = register_list.count();
    if count == 0 {
        return 1;
    }
    let stack_pointer = registers.read(Registers::SP);
    let first = stack_pointer.wrapping_sub(count * 4);
    proof {
        lemma_no_program_counter(list, include_link_register);
    }
    let (_, cycles) = store_list(registers, bus, register_list, first, instruction_address);
    registers.write(Registers::SP, first);
    cycles
}

fn execute_pop(
    registers: &mut Registers,
    bus: &Bus,
    list: u8,
    include_program_counter: bool,
    instruction_address: u32,
) -> (r: ThumbExecutionResult)
    requires
        old(registers)@.valid(),
        bus.wf(),
    ensures
        final(registers)@.valid(),
        r.cycles >= 1,
        multiple_transfer_cycles(
            old(registers)@,
            *bus,
            *bus,
            ThumbInstruction::Pop { registers: list, include_program_counter },
            instruction_address,
            r.cycles,
        ),
        multiple_transfer_done(
            old(registers)@,
            *bus,
            final(registers)@,
            *bus,
            ThumbInstruction::Pop { registers: list, include_program_counter },
            instruction_address,
            r.branch,
        ),
{
    let bits: u16 = (list as u16) | if include_program_counter {
        0x8000u16
    } else {
        0
    };
    let register_list = RegisterList::new(bits);
    let count = register_list.count();
    if count == 0 {
        return ThumbExecutionResult::sequential(1);
    }
    let stack_pointer = registers.read(Registers::SP);
    let (_, cycles, branch) = load_list(registers, bus, register_list, stack_pointer);
    registers.write(Registers::SP, stack_pointer.wrapping_add(count * 4));
    proof {
        lemma_pop_program_counter(list, include_program_counter);
    }
    ThumbExecutionResult { cycles: cycles.saturating_add(1), branch }
}

fn execute_multiple_transfer(
    registers: &mut Registers,
    bus: &mut Bus,
    load: bool,
    base_register: u8,
    list: u8,
    instruction_address: u32,
) -> (r: ThumbExecutionResult)
    requires
        old(registers)@.valid(),
        old(bus).wf(),
        base_register < 8,
    ensures
        final(registers)@.valid(),
        final(bus).wf(),
        r.cycles >= 1,
        multiple_transfer_cycles(
            old(registers)@,
            *old(bus),
            *final(bus),
            ThumbInstruction::MultipleTransfer { load, base_register, registers: list },
            instruction_address,
            r.cycles,
        ),
        multiple_transfer_done(
            old(registers)@,
            *old(bus),
            final(registers)@,
            *final(bus),
            ThumbInstruction::MultipleTransfer { load, base_register, registers: list },
            instruction_address,
            r.branch,
        ),
{
    let base = registers.read(base_register as usize);
    if list == 0 {
        return ThumbExecutionResult::sequential(1);
    }
    let register_list = RegisterList::new(list as u16);
    proof {
        lemma_low_list(list);
        crate::cpu::arm::block_data_transfer::lemma_nonempty_count(list as u16);
    }
    if load {
        let (end, cycles, _) = load_list(registers, bus, register_list, base);
        if !register_list.contains(base_register) {
            registers.write(base_register as usize, end);
        }
        ThumbExecutionResult::sequential(cycles.saturating_add(1))
    } else {
        let (end, cycles) = store_list(registers, bus, register_list, base, instruction_address);
        registers.write(base_register as usize, end);
        ThumbExecutionResult::sequential(cycles)
    }
}

/// PUSH never names register 15, and names some register when its
/// count is not zero.
proof fn lemma_no_program_counter(list: u8, include_link_register: bool)
    ensures
        !list_contains(push_list(list, include_link_register), 15),
        push_list(list, include_link_register) < 0x8000,
{
    let bits = push_list(list, include_link_register);
    assert(bits < 0x8000) by (bit_vector)
        requires
            bits == (list as u16) | if include_link_register {
                0x4000u16
            } else {
                0
            },
    ;
    vstd::arithmetic::power2::lemma2_to64();
    vstd::arithmetic::div_mod::lemma_basic_div(bits as int, 0x8000);
}

/// Executes a Thumb instruction that accesses memory.
#[verifier::rlimit(100)]
#[verifier::spinoff_prover]
fn execute_transfer_instruction(
    registers: &mut Registers,
    bus: &mut Bus,
    instruction: &ThumbInstruction,
    instruction_address: u32,
) -> (r: Result<ThumbExecutionResult, ThumbExecutionError>)
    requires
        old(registers)@.valid(),
        old(bus).wf(),
        thumb_registers_in_range(*instruction),
        is_transfer(*instruction),
    ensures
        final(registers)@.valid(),
        final(bus).wf(),
        thumb_executed(
            old(registers)@,
            *old(bus),
            final(registers)@,
            *final(bus),
            *instruction,
            instruction_address,
            r,
        ),
{
    match *instruction {
        ThumbInstruction::LiteralLoad { destination, offset } => {
            let address = (instruction_address.wrapping_add(4) & !3u32).wrapping_add(offset as u32);
            let access = bus.read32_timed(address, AccessKind::NonSequential);
            registers.write(destination as usize, access.value);
            Ok(ThumbExecutionResult::sequential(access.cycles.saturating_add(1)))
        },
        ThumbInstruction::RegisterOffsetTransfer { kind, offset_register, base_register, destination } => {
            let address = registers.read(base_register as usize).wrapping_add(
                registers.read(offset_register as usize),
            );
            let cycles = transfer(registers, bus, kind, address, destination);
            Ok(ThumbExecutionResult::sequential(cycles))
        },
        ThumbInstruction::ImmediateOffsetTransfer { kind, offset, base_register, destination } => {
            let address = registers.read(base_register as usize).wrapping_add(offset as u32);
            let equivalent = match kind {
                ThumbImmediateTransferKind::StoreWord => ThumbRegisterOffsetTransferKind::StoreWord,
                ThumbImmediateTransferKind::LoadWord => ThumbRegisterOffsetTransferKind::LoadWord,
                ThumbImmediateTransferKind::StoreByte => ThumbRegisterOffsetTransferKind::StoreByte,
                ThumbImmediateTransferKind::LoadByte => ThumbRegisterOffsetTransferKind::LoadByte,
            };
            let cycles = transfer(registers, bus, equivalent, address, destination);
            Ok(ThumbExecutionResult::sequential(cycles))
        },
        ThumbInstruction::HalfwordImmediateTransfer { kind, offset, base_register, destination } => {
            let address = registers.read(base_register as usize).wrapping_add(offset as u32);
            let equivalent = match kind {
                ThumbHalfwordTransferKind::Store => ThumbRegisterOffsetTransferKind::StoreHalfword,
                ThumbHalfwordTransferKind::Load => ThumbRegisterOffsetTransferKind::LoadHalfword,
            };
            let cycles = transfer(registers, bus, equivalent, address, destination);
            Ok(ThumbExecutionResult::sequential(cycles))
        },
        ThumbInstruction::SpRelativeTransfer { kind, destination, offset } => {
            let address = registers.read(Registers::SP).wrapping_add(offset as u32);
            let equivalent = match kind {
                ThumbSpRelativeTransferKind::Store => ThumbRegisterOffsetTransferKind::StoreWord,
                ThumbSpRelativeTransferKind::Load => ThumbRegisterOffsetTransferKind::LoadWord,
            };
            let cycles = transfer(registers, bus, equivalent, address, destination);
            Ok(ThumbExecutionResult::sequential(cycles))
        },
        ThumbInstruction::Push { registers: list, include_link_register } => {
            let cycles = execute_push(registers, bus, list, include_link_register, instruction_address);
            Ok(ThumbExecutionResult::sequential(cycles))
        },
        ThumbInstruction::Pop { registers: list, include_program_counter } => {
            Ok(execute_pop(registers, bus, list, include_program_counter, instruction_address))
        },
        ThumbInstruction::MultipleTransfer { load, base_register, registers: list } => {
            Ok(execute_multiple_transfer(registers, bus, load, base_register, list, instruction_address))
        },
        _ => Ok(ThumbExecutionResult::sequential(1)),
    }
}

/// Executes a Thumb instruction that does not access memory.
#[verifier::rlimit(100)]
#[verifier::spinoff_prover]
fn execute_register_instruction(
    registers: &mut Registers,
    bus: &mut Bus,
    instruction: &ThumbInstruction,
    instruction_address: u32,
) -> (r: Result<ThumbExecutionResult, ThumbExecutionError>)
    requires
        old(registers)@.valid(),
        old(bus).wf(),
        thumb_registers_in_range(*instruction),
        !is_transfer(*instruction),
    ensures
        final(registers)@.valid(),
        final(bus).wf(),
        thumb_executed(
            old(registers)@,
            *old(bus),
            final(registers)@,
            *final(bus),
            *instruction,
            instruction_address,
            r,
        ),
{
    match *instruction {
        ThumbInstruction::MoveShiftedRegister { operation, offset, source, destination } => {
            let value = registers.read(source as usize);
            let c = registers.cpsr().carry();
            let v = registers.cpsr().overflow();
            let kind = match operation {
                ThumbShiftOperation::LogicalLeft => ShiftType::LogicalLeft,
                ThumbShiftOperation::LogicalRight => ShiftType::LogicalRight,
                ThumbShiftOperation::ArithmeticRight => ShiftType::ArithmeticRight,
            };
            let s = shift_immediate(value, kind, offset, c);
            registers.write(destination as usize, s.value);
            apply_flags(registers, s.value, s.carry, v);
            Ok(ThumbExecutionResult::sequential(1))
        },
        ThumbInstruction::AddSubtract { operation, operand, source, destination } => {
            let left = registers.read(source as usize);
            let right = match operand {
                ThumbAddSubtractOperand::Register(register) => registers.read(register as usize),
                ThumbAddSubtractOperand::Immediate(value) => value as u32,
            };
            let result = match operation {
                ThumbAddSubtractOperation::Add => sum(left, right),
                ThumbAddSubtractOperation::Subtract => difference(left, right),
            };
            registers.write(destination as usize, result.value);
            apply_result_flags(registers, result);
            Ok(ThumbExecutionResult::sequential(1))
        },
        ThumbInstruction::Immediate { operation, destination, immediate } => {
            let value = immediate as u32;
            let d = destination as usize;
            let current = registers.read(d);
            match operation {
                ThumbImmediateOperation::Move => {
                    let c = registers.cpsr().carry();
                    let v = registers.cpsr().overflow();
                    registers.write(d, value);
                    apply_flags(registers, value, c, v);
                },
                ThumbImmediateOperation::Compare => {
                    apply_result_flags(registers, difference(current, value));
                },
                ThumbImmediateOperation::Add => {
                    let result = sum(current, value);
                    registers.write(d, result.value);
                    apply_result_flags(registers, result);
                },
                ThumbImmediateOperation::Subtract => {
                    let result = difference(current, value);
                    registers.write(d, result.value);
                    apply_result_flags(registers, result);
                },
            }
            Ok(ThumbExecutionResult::sequential(1))
        },
        ThumbInstruction::Alu { operation, source, destination } => {
            let cycles = execute_alu(registers, operation, source, destination);
            Ok(ThumbExecutionResult::sequential(cycles))
        },
        ThumbInstruction::HighRegister { operation, source, destination } => {
            let branch = execute_high_register(registers, operation, source, destination, instruction_address);
            Ok(ThumbExecutionResult { cycles: 1, branch })
        },
        ThumbInstruction::LoadAddress { base, destination, offset } => {
            let base_value = match base {
                ThumbLoadAddressBase::ProgramCounter => instruction_address.wrapping_add(4) & !3u32,
                ThumbLoadAddressBase::StackPointer => registers.read(Registers::SP),
            };
            registers.write(destination as usize, base_value.wrapping_add(offset as u32));
            Ok(ThumbExecutionResult::sequential(1))
        },
        ThumbInstruction::AdjustStackPointer { operation, offset } => {
            let stack_pointer = registers.read(Registers::SP);
            let value = match operation {
                ThumbStackPointerOperation::Add => stack_pointer.wrapping_add(offset as u32),
                ThumbStackPointerOperation::Subtract => stack_pointer.wrapping_sub(offset as u32),
            };
            registers.write(Registers::SP, value);
            Ok(ThumbExecutionResult::sequential(1))
        },
        ThumbInstruction::ConditionalBranch { condition, offset } => {
            if !condition_passes(condition, registers) {
                return Ok(ThumbExecutionResult::sequential(1));
            }
            let target = instruction_address.wrapping_add(4).wrapping_add_signed(offset as i32);
            registers.set_pc(target & !1u32);
            Ok(ThumbExecutionResult::branched(1))
        },
        ThumbInstruction::UnconditionalBranch { offset } => {
            let target = instruction_address.wrapping_add(4).wrapping_add_signed(offset);
            registers.set_pc(target & !1u32);
            Ok(ThumbExecutionResult::branched(1))
        },
        ThumbInstruction::LongBranchWithLink { half, offset } => {
            match half {
                ThumbLongBranchHalf::First => {
                    registers.write(
                        Registers::LR,
                        instruction_address.wrapping_add(4).wrapping_add_signed(offset),
                    );
                    Ok(ThumbExecutionResult::sequential(1))
                },
                ThumbLongBranchHalf::Second => {
                    let target = registers.read(Registers::LR).wrapping_add_signed(offset);
                    registers.write(Registers::LR, instruction_address.wrapping_add(2) | 1);
                    registers.set_pc(target & !1u32);
                    Ok(ThumbExecutionResult::branched(1))
                },
            }
        },
        ThumbInstruction::SoftwareInterrupt { .. } => {
            match enter_exception(
                registers,
                Exception::SoftwareInterrupt,
                instruction_address.wrapping_add(2),
            ) {
                Ok(_) => Ok(ThumbExecutionResult::branched(1)),
                Err(error) => Err(ThumbExecutionError::Exception(error)),
            }
        },
        _ => Ok(ThumbExecutionResult::sequential(1)),
    }
}

/// Executes a decoded Thumb instruction located at
/// `instruction_address`.
pub fn execute_thumb(
    registers: &mut Registers,
    bus: &mut Bus,
    instruction: &ThumbInstruction,
    instruction_address: u32,
) -> (r: Result<ThumbExecutionResult, ThumbExecutionError>)
    requires
        old(registers)@.valid(),
        old(bus).wf(),
        thumb_registers_in_range(*instruction),
    ensures
        final(registers)@.valid(),
        final(bus).wf(),
        thumb_executed(
            old(registers)@,
            *old(bus),
            final(registers)@,
            *final(bus),
            *instruction,
            instruction_address,
            r,
        ),
{
    match *instruction {
        ThumbInstruction::LiteralLoad { .. } | ThumbInstruction::RegisterOffsetTransfer { .. }
        | ThumbInstruction::ImmediateOffsetTransfer { .. }
        | ThumbInstruction::HalfwordImmediateTransfer { .. }
        | ThumbInstruction::SpRelativeTransfer { .. } | ThumbInstruction::Push { .. }
        | ThumbInstruction::Pop { .. } | ThumbInstruction::MultipleTransfer { .. } => {
            execute_transfer_instruction(registers, bus, instruction, instruction_address)
        },
        _ => execute_register_instruction(registers, bus, instruction, instruction_address),
    }
}

/// POP loads PC exactly when it names PC.
proof fn lemma_pop_program_counter(list: u8, include_program_counter: bool)
    ensures
        list_contains(pop_list(list, include_program_counter), 15) == include_program_counter,
{
    let bits = pop_list(list, include_program_counter);
    vstd::arithmetic::power2::lemma2_to64();
    assert((bits >= 0x8000) == include_program_counter) by (bit_vector)
        requires
            bits == (list as u16) | if include_program_counter {
                0x8000u16
            } else {
                0
            },
    ;
    let b = bits as int;
    assert(b < 0x8000 ==> b / 0x8000 == 0) by (nonlinear_arith)
        requires
            0 <= b,
    ;
    assert(0x8000 <= b < 0x1_0000 ==> b / 0x8000 == 1) by (nonlinear_arith)
        requires
            0 <= b,
    ;
}

/// A list of low registers never names PC.
proof fn lemma_low_list(list: u8)
    ensures
        !list_contains(list as u16, 15),
{
    vstd::arithmetic::power2::lemma2_to64();
    vstd::arithmetic::div_mod::lemma_basic_div(list as int, 0x8000);
}

} // verus!

verus! {

/// A BL pair at `address`: the first half leaves the upper part of the
/// target in LR, and the second half, at the next halfword, jumps to
/// `address + 4 + high + low` (halfword-aligned) with LR holding the
/// address of the halfword after the pair with bit 0 set for Thumb; the
/// CPSR is kept.
pub proof fn law_long_branch_pair(registers: RegisterFile, address: u32, high: i32, low: i32)
    requires
        registers.valid(),
        registers.well_sized(),
    ensures
        ({
            let first = spec_thumb_register_operation(
                registers,
                ThumbInstruction::LongBranchWithLink { half: ThumbLongBranchHalf::First, offset: high },
                address,
            ).0;
            let second = spec_thumb_register_operation(
                first,
                ThumbInstruction::LongBranchWithLink { half: ThumbLongBranchHalf::Second, offset: low },
                address.wrapping_add(2),
            ).0;
            &&& second.pc == address.wrapping_add(4).wrapping_add_signed(high).wrapping_add_signed(low)
                & !1u32
            &&& second.read(14) == address.wrapping_add(2).wrapping_add(2) | 1
            &&& second.cpsr == registers.cpsr
        }),
{
    let first = spec_thumb_register_operation(
        registers,
        ThumbInstruction::LongBranchWithLink { half: ThumbLongBranchHalf::First, offset: high },
        address,
    ).0;
    assert(first.read(14) == address.wrapping_add(4).wrapping_add_signed(high));
}

} // verus!
