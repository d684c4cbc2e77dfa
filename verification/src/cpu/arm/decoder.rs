use vstd::prelude::*;

use crate::cpu::cpsr::Cpsr;

verus! {

/// The major ARM instruction families.
#[derive(Debug, Clone, Copy, PartialEq, Eq, Structural)]
pub enum ArmInstructionKind {
    BranchExchange,
    Multiply,
    MultiplyLong,
    SingleDataSwap,
    HalfwordDataTransfer,
    DataProcessing,
    SingleDataTransfer,
    BlockDataTransfer,
    Branch,
    CoprocessorDataTransfer,
    CoprocessorDataOperation,
    CoprocessorRegisterTransfer,
    SoftwareInterrupt,
    Undefined,
}

/// The sixteen ARM condition codes.
#[derive(Debug, Clone, Copy, PartialEq, Eq, Structural)]
pub enum ArmCondition {
    Equal,
    NotEqual,
    CarrySet,
    CarryClear,
    Minus,
    Plus,
    Overflow,
    NoOverflow,
    UnsignedHigher,
    UnsignedLowerOrSame,
    SignedGreaterOrEqual,
    SignedLessThan,
    SignedGreaterThan,
    SignedLessOrEqual,
    Always,
    Never,
}

/// The condition that a four-bit field names.
pub open spec fn condition_from_field(field: int) -> ArmCondition {
    if field == 0 {
        ArmCondition::Equal
    } else if field == 1 {
        ArmCondition::NotEqual
    } else if field == 2 {
        ArmCondition::CarrySet
    } else if field == 3 {
        ArmCondition::CarryClear
    } else if field == 4 {
        ArmCondition::Minus
    } else if field == 5 {
        ArmCondition::Plus
    } else if field == 6 {
        ArmCondition::Overflow
    } else if field == 7 {
        ArmCondition::NoOverflow
    } else if field == 8 {
        ArmCondition::UnsignedHigher
    } else if field == 9 {
        ArmCondition::UnsignedLowerOrSame
    } else if field == 10 {
        ArmCondition::SignedGreaterOrEqual
    } else if field == 11 {
        ArmCondition::SignedLessThan
    } else if field == 12 {
        ArmCondition::SignedGreaterThan
    } else if field == 13 {
        ArmCondition::SignedLessOrEqual
    } else if field == 14 {
        ArmCondition::Always
    } else {
        ArmCondition::Never
    }
}

/// Whether `condition` holds for the flags N, Z, C, V.
pub open spec fn condition_holds(condition: ArmCondition, n: bool, z: bool, c: bool, v: bool) -> bool {
    match condition {
        ArmCondition::Equal => z,
        ArmCondition::NotEqual => !z,
        ArmCondition::CarrySet => c,
        ArmCondition::CarryClear => !c,
        ArmCondition::Minus => n,
        ArmCondition::Plus => !n,
        ArmCondition::Overflow => v,
        ArmCondition::NoOverflow => !v,
        ArmCondition::UnsignedHigher => c && !z,
        ArmCondition::UnsignedLowerOrSame => !c || z,
        ArmCondition::SignedGreaterOrEqual => n == v,
        ArmCondition::SignedLessThan => n != v,
        ArmCondition::SignedGreaterThan => !z && n == v,
        ArmCondition::SignedLessOrEqual => z || n != v,
        ArmCondition::Always => true,
        ArmCondition::Never => false,
    }
}

/// Whether `condition` holds for the flags of `psr`.
pub open spec fn condition_holds_for(condition: ArmCondition, psr: Cpsr) -> bool {
    condition_holds(condition, psr.spec_negative(), psr.spec_zero(), psr.spec_carry(), psr.spec_overflow())
}

/// The condition field (bits 31..28) of an instruction.
pub open spec fn spec_condition(instruction: u32) -> ArmCondition {
    condition_from_field((instruction >> 28) as int)
}

/// Decoding a condition from bits 31..28 reads exactly that field.
pub proof fn lemma_condition_field(instruction: u32)
    ensures
        condition_from_field((((instruction >> 28) as u8) & 0xF) as int) == spec_condition(
            instruction,
        ),
{
    crate::bits::lemma_u32_fields();
    assert((((instruction >> 28) as u8) & 0xF) as u32 == instruction >> 28);
}

impl ArmCondition {
    /// Decodes the low four bits of `bits`.
    pub fn from_bits(bits: u8) -> (r: ArmCondition)
        ensures
            r == condition_from_field((bits & 0xF) as int),
    {
        let field: u8 = bits & 0xF;
        match field {
            0x0 => ArmCondition::Equal,
            0x1 => ArmCondition::NotEqual,
            0x2 => ArmCondition::CarrySet,
            0x3 => ArmCondition::CarryClear,
            0x4 => ArmCondition::Minus,
            0x5 => ArmCondition::Plus,
            0x6 => ArmCondition::Overflow,
            0x7 => ArmCondition::NoOverflow,
            0x8 => ArmCondition::UnsignedHigher,
            0x9 => ArmCondition::UnsignedLowerOrSame,
            0xA => ArmCondition::SignedGreaterOrEqual,
            0xB => ArmCondition::SignedLessThan,
            0xC => ArmCondition::SignedGreaterThan,
            0xD => ArmCondition::SignedLessOrEqual,
            0xE => ArmCondition::Always,
            _ => ArmCondition::Never,
        }
    }

    /// Evaluates the condition against the flags of `cpsr`.
    pub fn evaluate(self, cpsr: Cpsr) -> (r: bool)
        ensures
            r == condition_holds_for(self, cpsr),
    {
        let n = cpsr.negative();
        let z = cpsr.zero();
        let c = cpsr.carry();
        let v = cpsr.overflow();
        match self {
            ArmCondition::Equal => z,
            ArmCondition::NotEqual => !z,
            ArmCondition::CarrySet => c,
            ArmCondition::CarryClear => !c,
            ArmCondition::Minus => n,
            ArmCondition::Plus => !n,
            ArmCondition::Overflow => v,
            ArmCondition::NoOverflow => !v,
            ArmCondition::UnsignedHigher => c && !z,
            ArmCondition::UnsignedLowerOrSame => !c || z,
            ArmCondition::SignedGreaterOrEqual => n == v,
            ArmCondition::SignedLessThan => n != v,
            ArmCondition::SignedGreaterThan => !z && n == v,
            ArmCondition::SignedLessOrEqual => z || n != v,
            ArmCondition::Always => true,
            ArmCondition::Never => false,
        }
    }
}

/// The condition field of `instruction`.
pub fn condition(instruction: u32) -> (r: ArmCondition)
    ensures
        r == spec_condition(instruction),
{
    proof {
        lemma_condition_field(instruction);
    }
    ArmCondition::from_bits((instruction >> 28) as u8)
}

/// Whether the condition of `instruction` holds for `cpsr`.
pub fn condition_passed(instruction: u32, cpsr: Cpsr) -> (r: bool)
    ensures
        r == condition_holds_for(spec_condition(instruction), cpsr),
{
    condition(instruction).evaluate(cpsr)
}

pub open spec fn is_branch_exchange(i: u32) -> bool {
    i & 0x0FFF_FFF0 == 0x012F_FF10
}

pub open spec fn is_multiply(i: u32) -> bool {
    i & 0x0FC0_00F0 == 0x0000_0090
}

pub open spec fn is_multiply_long(i: u32) -> bool {
    i & 0x0F80_00F0 == 0x0080_0090
}

pub open spec fn is_single_data_swap(i: u32) -> bool {
    i & 0x0FB0_0FF0 == 0x0100_0090
}

/// Halfword and signed transfer: bits 27..25 clear, bits 7 and 4 set and
/// a non-zero SH field.
pub open spec fn is_halfword_data_transfer(i: u32) -> bool {
    i & 0x0E00_0000 == 0 && i & 0x0000_0090 == 0x0000_0090 && (i >> 5) & 3 != 0
}

/// The family of an instruction by its major group, bits 27..25.
pub open spec fn major_group_kind(i: u32) -> ArmInstructionKind {
    let group = (i >> 25) & 7;
    if group == 0 || group == 1 {
        ArmInstructionKind::DataProcessing
    } else if group == 2 {
        ArmInstructionKind::SingleDataTransfer
    } else if group == 3 {
        if i & 0x10 == 0 {
            ArmInstructionKind::SingleDataTransfer
        } else {
            ArmInstructionKind::Undefined
        }
    } else if group == 4 {
        ArmInstructionKind::BlockDataTransfer
    } else if group == 5 {
        ArmInstructionKind::Branch
    } else if group == 6 {
        ArmInstructionKind::CoprocessorDataTransfer
    } else if i & 0x0100_0000 != 0 {
        ArmInstructionKind::SoftwareInterrupt
    } else if i & 0x10 == 0 {
        ArmInstructionKind::CoprocessorDataOperation
    } else {
        ArmInstructionKind::CoprocessorRegisterTransfer
    }
}

/// The family of an instruction: the specific encodings that overlap a
/// major group are recognised first, in the order BX, multiply, multiply
/// long, swap, halfword transfer.
pub open spec fn spec_classify(i: u32) -> ArmInstructionKind {
    if is_branch_exchange(i) {
        ArmInstructionKind::BranchExchange
    } else if is_multiply(i) {
        ArmInstructionKind::Multiply
    } else if is_multiply_long(i) {
        ArmInstructionKind::MultiplyLong
    } else if is_single_data_swap(i) {
        ArmInstructionKind::SingleDataSwap
    } else if is_halfword_data_transfer(i) {
        ArmInstructionKind::HalfwordDataTransfer
    } else {
        major_group_kind(i)
    }
}

/// Classifies an instruction into its family.
pub fn classify(instruction: u32) -> (r: ArmInstructionKind)
    ensures
        r == spec_classify(instruction),
{
    let i = instruction;
    if i & 0x0FFF_FFF0 == 0x012F_FF10 {
        ArmInstructionKind::BranchExchange
    } else if i & 0x0FC0_00F0 == 0x0000_0090 {
        ArmInstructionKind::Multiply
    } else if i & 0x0F80_00F0 == 0x0080_0090 {
        ArmInstructionKind::MultiplyLong
    } else if i & 0x0FB0_0FF0 == 0x0100_0090 {
        ArmInstructionKind::SingleDataSwap
    } else if i & 0x0E00_0000 == 0 && i & 0x0000_0090 == 0x0000_0090 && (i >> 5) & 3 != 0 {
        ArmInstructionKind::HalfwordDataTransfer
    } else {
        classify_major_group(i)
    }
}

fn classify_major_group(i: u32) -> (r: ArmInstructionKind)
    ensures
        r == major_group_kind(i),
{
    let group: u32 = (i >> 25) & 7;
    if group == 0 || group == 1 {
        ArmInstructionKind::DataProcessing
    } else if group == 2 {
        ArmInstructionKind::SingleDataTransfer
    } else if group == 3 {
        if i & 0x10 == 0 {
            ArmInstructionKind::SingleDataTransfer
        } else {
            ArmInstructionKind::Undefined
        }
    } else if group == 4 {
        ArmInstructionKind::BlockDataTransfer
    } else if group == 5 {
        ArmInstructionKind::Branch
    } else if group == 6 {
        ArmInstructionKind::CoprocessorDataTransfer
    } else if i & 0x0100_0000 != 0 {
        ArmInstructionKind::SoftwareInterrupt
    } else if i & 0x10 == 0 {
        ArmInstructionKind::CoprocessorDataOperation
    } else {
        ArmInstructionKind::CoprocessorRegisterTransfer
    }
}

/// The family of an instruction does not depend on its condition field.
pub proof fn law_classification_ignores_condition(instruction: u32, field: u32)
    requires
        field < 16,
    ensures
        spec_classify((instruction & 0x0FFF_FFFF) | (field << 28)) == spec_classify(instruction),
{
    lemma_condition_field_independence(instruction, (instruction & 0x0FFF_FFFF) | (field << 28), field);
}

proof fn lemma_condition_field_independence(i: u32, j: u32, field: u32)
    by (bit_vector)
    requires
        j == (i & 0x0FFF_FFFF) | (field << 28),
        field < 16,
    ensures
        j & 0x0FFF_FFF0 == i & 0x0FFF_FFF0,
        j & 0x0FC0_00F0 == i & 0x0FC0_00F0,
        j & 0x0F80_00F0 == i & 0x0F80_00F0,
        j & 0x0FB0_0FF0 == i & 0x0FB0_0FF0,
        j & 0x0E00_0000 == i & 0x0E00_0000,
        j & 0x0000_0090 == i & 0x0000_0090,
        j & 0x0100_0000 == i & 0x0100_0000,
        j & 0x10 == i & 0x10,
        (j >> 5) & 3 == (i >> 5) & 3,
        (j >> 25) & 7 == (i >> 25) & 7,
{
}

/// Each condition and its partner (the code with the low bit flipped)
/// are complementary for every flag combination, except AL and NV.
pub proof fn law_conditions_come_in_complementary_pairs(field: int, n: bool, z: bool, c: bool, v: bool)
    requires
        0 <= field < 14,
        field % 2 == 0,
    ensures
        condition_holds(condition_from_field(field + 1), n, z, c, v) == !condition_holds(
            condition_from_field(field),
            n,
            z,
            c,
            v,
        ),
{
}

/// After a comparison of `a` with `b` (the flags of `a - b`), each
/// condition field means what its name says: 0 EQ `a == b`, 1 NE, 2 CS
/// unsigned `a >= b`, 3 CC unsigned `a < b`, 8 HI unsigned `a > b`, 9 LS
/// unsigned `a <= b`, 10 GE signed `a >= b`, 11 LT signed `a < b`, 12 GT
/// signed `a > b`, 13 LE signed `a <= b`, 14 AL always, 15 NV never; and
/// 4 MI, 5 PL, 6 VS, 7 VC read N and V of the difference.
pub proof fn law_conditions_after_compare(a: u32, b: u32)
    ensures
        ({
            let f = crate::cpu::arm::alu::spec_add_with_carry(a, !b, true).flags;
            let holds = |field: int| condition_holds(condition_from_field(field), f.negative, f.zero, f.carry, f.overflow);
            let sa = crate::cpu::arm::alu::signed32(a);
            let sb = crate::cpu::arm::alu::signed32(b);
            let difference = (a as int - b as int) % 0x1_0000_0000;
            &&& holds(0) == (a == b)
            &&& holds(1) == (a != b)
            &&& holds(2) == (a >= b)
            &&& holds(3) == (a < b)
            &&& holds(4) == (difference >= 0x8000_0000)
            &&& holds(5) == (difference < 0x8000_0000)
            &&& holds(6) == (sa - sb < -0x8000_0000 || sa - sb > 0x7FFF_FFFF)
            &&& holds(7) == !(sa - sb < -0x8000_0000 || sa - sb > 0x7FFF_FFFF)
            &&& holds(8) == (a > b)
            &&& holds(9) == (a <= b)
            &&& holds(10) == (sa >= sb)
            &&& holds(11) == (sa < sb)
            &&& holds(12) == (sa > sb)
            &&& holds(13) == (sa <= sb)
            &&& holds(14)
            &&& !holds(15)
        }),
{
    crate::cpu::arm::alu::law_subtraction_through_adder(a, b);
    let sa = crate::cpu::arm::alu::signed32(a);
    let sb = crate::cpu::arm::alu::signed32(b);
    let value = crate::cpu::arm::alu::spec_add_with_carry(a, !b, true).value;
    let d = (a as int - b as int) % 0x1_0000_0000;
    assert(value as int == d);
    assert(d == if a >= b { a as int - b as int } else { a as int - b as int + 0x1_0000_0000 });
}

} // verus!
