use vstd::prelude::*;

use crate::cpu::registers::Registers;

use super::barrel_shifter::{
    expand_rotated_immediate, rotate_right, rotate_right_spec, shift_immediate, shift_register,
    spec_expand_rotated_immediate, spec_shift_immediate, spec_shift_register, ShiftResult,
};
use super::decoder::{condition_from_field, ArmCondition};

verus! {

#[derive(Debug, Clone, Copy, PartialEq, Eq, Structural)]
pub enum DataProcessingOpcode {
    And,
    Eor,
    Sub,
    Rsb,
    Add,
    Adc,
    Sbc,
    Rsc,
    Tst,
    Teq,
    Cmp,
    Cmn,
    Orr,
    Mov,
    Bic,
    Mvn,
}

/// The opcode that a four-bit field names.
pub open spec fn opcode_from_field(field: int) -> DataProcessingOpcode {
    if field == 0 {
        DataProcessingOpcode::And
    } else if field == 1 {
        DataProcessingOpcode::Eor
    } else if field == 2 {
        DataProcessingOpcode::Sub
    } else if field == 3 {
        DataProcessingOpcode::Rsb
    } else if field == 4 {
        DataProcessingOpcode::Add
    } else if field == 5 {
        DataProcessingOpcode::Adc
    } else if field == 6 {
        DataProcessingOpcode::Sbc
    } else if field == 7 {
        DataProcessingOpcode::Rsc
    } else if field == 8 {
        DataProcessingOpcode::Tst
    } else if field == 9 {
        DataProcessingOpcode::Teq
    } else if field == 10 {
        DataProcessingOpcode::Cmp
    } else if field == 11 {
        DataProcessingOpcode::Cmn
    } else if field == 12 {
        DataProcessingOpcode::Orr
    } else if field == 13 {
        DataProcessingOpcode::Mov
    } else if field == 14 {
        DataProcessingOpcode::Bic
    } else {
        DataProcessingOpcode::Mvn
    }
}

/// TST, TEQ, CMP and CMN only set flags.
pub open spec fn opcode_is_test(opcode: DataProcessingOpcode) -> bool {
    opcode == DataProcessingOpcode::Tst || opcode == DataProcessingOpcode::Teq || opcode
        == DataProcessingOpcode::Cmp || opcode == DataProcessingOpcode::Cmn
}

/// MOV and MVN ignore Rn.
pub open spec fn opcode_uses_rn(opcode: DataProcessingOpcode) -> bool {
    opcode != DataProcessingOpcode::Mov && opcode != DataProcessingOpcode::Mvn
}

impl DataProcessingOpcode {
    pub fn from_bits(bits: u8) -> (r: DataProcessingOpcode)
        ensures
            r == opcode_from_field((bits & 0xF) as int),
    {
        let field: u8 = bits & 0x0F;
        match field {
            0x0 => DataProcessingOpcode::And,
            0x1 => DataProcessingOpcode::Eor,
            0x2 => DataProcessingOpcode::Sub,
            0x3 => DataProcessingOpcode::Rsb,
            0x4 => DataProcessingOpcode::Add,
            0x5 => DataProcessingOpcode::Adc,
            0x6 => DataProcessingOpcode::Sbc,
            0x7 => DataProcessingOpcode::Rsc,
            0x8 => DataProcessingOpcode::Tst,
            0x9 => DataProcessingOpcode::Teq,
            0xA => DataProcessingOpcode::Cmp,
            0xB => DataProcessingOpcode::Cmn,
            0xC => DataProcessingOpcode::Orr,
            0xD => DataProcessingOpcode::Mov,
            0xE => DataProcessingOpcode::Bic,
            _ => DataProcessingOpcode::Mvn,
        }
    }

    pub fn is_test(self) -> (r: bool)
        ensures
            r == opcode_is_test(self),
    {
        matches!(
            self,
            DataProcessingOpcode::Tst | DataProcessingOpcode::Teq | DataProcessingOpcode::Cmp
                | DataProcessingOpcode::Cmn
        )
    }

    pub fn writes_result(self) -> (r: bool)
        ensures
            r == !opcode_is_test(self),
    {
        !self.is_test()
    }

    pub fn uses_rn(self) -> (r: bool)
        ensures
            r == opcode_uses_rn(self),
    {
        !matches!(self, DataProcessingOpcode::Mov | DataProcessingOpcode::Mvn)
    }
}

#[derive(Debug, Clone, Copy, PartialEq, Eq, Structural)]
pub enum ShiftType {
    LogicalLeft,
    LogicalRight,
    ArithmeticRight,
    RotateRight,
}

pub open spec fn shift_type_from_field(field: int) -> ShiftType {
    if field == 0 {
        ShiftType::LogicalLeft
    } else if field == 1 {
        ShiftType::LogicalRight
    } else if field == 2 {
        ShiftType::ArithmeticRight
    } else {
        ShiftType::RotateRight
    }
}

impl ShiftType {
    pub fn from_bits(bits: u8) -> (r: ShiftType)
        ensures
            r == shift_type_from_field((bits & 3) as int),
    {
        let field: u8 = bits & 0b11;
        match field {
            0 => ShiftType::LogicalLeft,
            1 => ShiftType::LogicalRight,
            2 => ShiftType::ArithmeticRight,
            _ => ShiftType::RotateRight,
        }
    }
}

#[derive(Debug, Clone, Copy, PartialEq, Eq, Structural)]
pub enum ShiftAmount {
    /// Shift amount encoded directly in bits 11..7.
    Immediate(u8),
    /// Shift amount read from the bottom byte of register Rs.
    Register(u8),
}

#[derive(Debug, Clone, Copy, PartialEq, Eq, Structural)]
pub struct RegisterShift {
    pub rm: u8,
    pub shift_type: ShiftType,
    pub amount: ShiftAmount,
}

#[derive(Debug, Clone, Copy, PartialEq, Eq, Structural)]
pub enum Operand2 {
    /// An unrotated eight-bit value and its rotation field (the rotation
    /// in bits is twice the field).
    Immediate { value: u8, rotate: u8 },
    Register(RegisterShift),
}

/// The registers an Operand2 reads exist.
pub open spec fn operand2_registers_in_range(operand2: Operand2) -> bool {
    match operand2 {
        Operand2::Immediate { .. } => true,
        Operand2::Register(shift) => shift.rm < 16 && match shift.amount {
            ShiftAmount::Immediate(_) => true,
            ShiftAmount::Register(rs) => rs < 16,
        },
    }
}

/// The value and shifter carry of an Operand2, with registers read as
/// stored.
pub open spec fn spec_operand2_value(
    operand2: Operand2,
    registers: crate::cpu::registers::RegisterFile,
    old_carry: bool,
) -> ShiftResult {
    match operand2 {
        Operand2::Immediate { value, rotate } => spec_expand_rotated_immediate(
            value,
            rotate,
            old_carry,
        ),
        Operand2::Register(shift) => match shift.amount {
            ShiftAmount::Immediate(amount) => spec_shift_immediate(
                registers.read(shift.rm as int),
                shift.shift_type,
                amount,
                old_carry,
            ),
            ShiftAmount::Register(rs) => spec_shift_register(
                registers.read(shift.rm as int),
                shift.shift_type,
                registers.read(rs as int),
                old_carry,
            ),
        },
    }
}

impl Operand2 {
    /// The expanded value of an immediate Operand2.
    pub fn expanded_immediate(self) -> (r: Option<u32>)
        ensures
            match self {
                Operand2::Immediate { value, rotate } => r == Some(
                    rotate_right_spec(value as u32, (rotate as u32 * 2) as u32),
                ),
                Operand2::Register(_) => r is None,
            },
    {
        match self {
            Operand2::Immediate { value, rotate } => Some(
                rotate_right(value as u32, (rotate as u32) * 2),
            ),
            Operand2::Register(_) => None,
        }
    }

    /// Evaluates the operand through the barrel shifter, reading
    /// registers as stored.
    pub fn evaluate(self, registers: &Registers, old_carry: bool) -> (r: ShiftResult)
        requires
            registers@.valid(),
            operand2_registers_in_range(self),
        ensures
            r == spec_operand2_value(self, registers@, old_carry),
    {
        match self {
            Operand2::Immediate { value, rotate } => expand_rotated_immediate(
                value,
                rotate,
                old_carry,
            ),
            Operand2::Register(shift) => {
                let value = registers.read(shift.rm as usize);
                match shift.amount {
                    ShiftAmount::Immediate(amount) => shift_immediate(
                        value,
                        shift.shift_type,
                        amount,
                        old_carry,
                    ),
                    ShiftAmount::Register(rs) => {
                        let rs_value = registers.read(rs as usize);
                        shift_register(value, shift.shift_type, rs_value, old_carry)
                    },
                }
            },
        }
    }
}

#[derive(Debug, Clone, Copy, PartialEq, Eq, Structural)]
pub struct DataProcessingInstruction {
    pub condition: ArmCondition,
    pub opcode: DataProcessingOpcode,
    pub set_flags: bool,
    pub rn: u8,
    pub rd: u8,
    pub operand2: Operand2,
}

#[derive(Debug, Clone, Copy, PartialEq, Eq, Structural)]
pub enum DataProcessingDecodeError {
    /// Bits 27..26 must be zero.
    InvalidMajor,
    /// A PSR transfer or other special encoding of the group.
    Special,
    /// A register-controlled shift with bit 7 set.
    InvalidRegisterShift,
}

/// Bits `shift..shift+width` of `i`, as a small integer.
pub open spec fn field_of(i: u32, shift: u32, mask: u32) -> u32 {
    (i >> shift) & mask
}

/// The decoded form of a data-processing instruction.
pub open spec fn spec_decode_data_processing(i: u32) -> Result<DataProcessingInstruction, DataProcessingDecodeError> {
    let opcode = opcode_from_field(field_of(i, 21, 0xF) as int);
    let set_flags = i & 0x0010_0000 != 0;
    if i & 0x0C00_0000 != 0 {
        Err(DataProcessingDecodeError::InvalidMajor)
    } else if opcode_is_test(opcode) && !set_flags {
        Err(DataProcessingDecodeError::Special)
    } else if i & 0x0200_0000 == 0 && i & 0x10 != 0 && i & 0x80 != 0 {
        Err(DataProcessingDecodeError::InvalidRegisterShift)
    } else {
        let operand2 = if i & 0x0200_0000 != 0 {
            Operand2::Immediate {
                value: (i & 0xFF) as u8,
                rotate: field_of(i, 8, 0xF) as u8,
            }
        } else {
            Operand2::Register(
                RegisterShift {
                    rm: (i & 0xF) as u8,
                    shift_type: shift_type_from_field(field_of(i, 5, 3) as int),
                    amount: if i & 0x10 != 0 {
                        ShiftAmount::Register(field_of(i, 8, 0xF) as u8)
                    } else {
                        ShiftAmount::Immediate(field_of(i, 7, 0x1F) as u8)
                    },
                },
            )
        };
        Ok(
            DataProcessingInstruction {
                condition: condition_from_field((i >> 28) as int),
                opcode,
                set_flags,
                rn: field_of(i, 16, 0xF) as u8,
                rd: field_of(i, 12, 0xF) as u8,
                operand2,
            },
        )
    }
}

/// The data-processing opcodes in the order of bits 24..21.
pub open spec fn data_processing_table() -> Seq<DataProcessingOpcode> {
    seq![
        DataProcessingOpcode::And,
        DataProcessingOpcode::Eor,
        DataProcessingOpcode::Sub,
        DataProcessingOpcode::Rsb,
        DataProcessingOpcode::Add,
        DataProcessingOpcode::Adc,
        DataProcessingOpcode::Sbc,
        DataProcessingOpcode::Rsc,
        DataProcessingOpcode::Tst,
        DataProcessingOpcode::Teq,
        DataProcessingOpcode::Cmp,
        DataProcessingOpcode::Cmn,
        DataProcessingOpcode::Orr,
        DataProcessingOpcode::Mov,
        DataProcessingOpcode::Bic,
        DataProcessingOpcode::Mvn,
    ]
}

/// Every data-processing word `cond 00 I oooo S nnnn dddd operand2` (with
/// S set for the test opcodes 8-11) decodes to the opcode that the ARM
/// table gives `oooo` (0xE BIC, 0xC ORR, 0x2 SUB, ...), S, Rn and Rd; an
/// immediate operand (I set) keeps its eight bits and rotation field, and
/// a register operand shifted by an immediate keeps Rm, the shift type
/// (LSL, LSR, ASR, ROR by bits 6..5) and the five-bit amount.
pub proof fn law_data_processing_decodes_by_table(
    condition: u32,
    opcode: u32,
    s: u32,
    rn: u32,
    rd: u32,
    low: u32,
    rotate: u32,
    amount: u32,
    kind: u32,
    rm: u32,
)
    requires
        condition < 16,
        opcode < 16,
        s < 2,
        8 <= opcode <= 11 ==> s == 1,
        rn < 16,
        rd < 16,
        low < 256,
        rotate < 16,
        amount < 32,
        kind < 4,
        rm < 16,
    ensures
        ({
            let common = (condition << 28u32) | (opcode << 21u32) | (s << 20u32) | (rn << 16u32) | (rd
                << 12u32);
            &&& spec_decode_data_processing(common | 0x0200_0000 | (rotate << 8u32) | low) == Ok::<
                DataProcessingInstruction,
                DataProcessingDecodeError,
            >(
                DataProcessingInstruction {
                    condition: condition_from_field(condition as int),
                    opcode: data_processing_table()[opcode as int],
                    set_flags: s == 1,
                    rn: rn as u8,
                    rd: rd as u8,
                    operand2: Operand2::Immediate { value: low as u8, rotate: rotate as u8 },
                },
            )
            &&& spec_decode_data_processing(common | (amount << 7u32) | (kind << 5u32) | rm) == Ok::<
                DataProcessingInstruction,
                DataProcessingDecodeError,
            >(
                DataProcessingInstruction {
                    condition: condition_from_field(condition as int),
                    opcode: data_processing_table()[opcode as int],
                    set_flags: s == 1,
                    rn: rn as u8,
                    rd: rd as u8,
                    operand2: Operand2::Register(
                        RegisterShift {
                            rm: rm as u8,
                            shift_type: seq![
                                ShiftType::LogicalLeft,
                                ShiftType::LogicalRight,
                                ShiftType::ArithmeticRight,
                                ShiftType::RotateRight,
                            ][kind as int],
                            amount: ShiftAmount::Immediate(amount as u8),
                        },
                    ),
                },
            )
        }),
{
    let common = (condition << 28u32) | (opcode << 21u32) | (s << 20u32) | (rn << 16u32) | (rd
        << 12u32);
    let a = common | 0x0200_0000 | (rotate << 8u32) | low;
    let b = common | (amount << 7u32) | (kind << 5u32) | rm;
    assert({
        &&& a & 0x0C00_0000 == 0 && b & 0x0C00_0000 == 0
        &&& (a >> 21u32) & 0xF == opcode && (b >> 21u32) & 0xF == opcode
        &&& (a & 0x0010_0000 != 0) == (s == 1) && (b & 0x0010_0000 != 0) == (s == 1)
        &&& a & 0x0200_0000 != 0 && b & 0x0200_0000 == 0 && b & 0x10 == 0
        &&& a >> 28u32 == condition && b >> 28u32 == condition
        &&& (a >> 16u32) & 0xF == rn && (b >> 16u32) & 0xF == rn
        &&& (a >> 12u32) & 0xF == rd && (b >> 12u32) & 0xF == rd
        &&& a & 0xFF == low && (a >> 8u32) & 0xF == rotate
        &&& b & 0xF == rm && (b >> 5u32) & 3 == kind && (b >> 7u32) & 0x1F == amount
    }) by (bit_vector)
        requires
            common == (condition << 28u32) | (opcode << 21u32) | (s << 20u32) | (rn << 16u32) | (rd
                << 12u32),
            a == common | 0x0200_0000 | (rotate << 8u32) | low,
            b == common | (amount << 7u32) | (kind << 5u32) | rm,
            condition < 16,
            opcode < 16,
            s < 2,
            rn < 16,
            rd < 16,
            low < 256,
            rotate < 16,
            amount < 32,
            kind < 4,
            rm < 16,
    ;
    assert(opcode_from_field(opcode as int) == data_processing_table()[opcode as int]);
    assert(shift_type_from_field(kind as int) == seq![
        ShiftType::LogicalLeft,
        ShiftType::LogicalRight,
        ShiftType::ArithmeticRight,
        ShiftType::RotateRight,
    ][kind as int]);
}

/// Decodes a data-processing instruction.
pub fn decode_data_processing(instruction: u32) -> (r: Result<
    DataProcessingInstruction,
    DataProcessingDecodeError,
>)
    ensures
        r == spec_decode_data_processing(instruction),
        r matches Ok(d) ==> d.rn < 16 && d.rd < 16 && operand2_registers_in_range(d.operand2),
{
    let i = instruction;
    proof {
        lemma_fields_small(i);
    }
    if i & 0x0C00_0000 != 0 {
        return Err(DataProcessingDecodeError::InvalidMajor);
    }
    let immediate = i & 0x0200_0000 != 0;
    let opcode = DataProcessingOpcode::from_bits(((i >> 21) & 0x0F) as u8);
    let set_flags = i & 0x0010_0000 != 0;
    let rn: u8 = ((i >> 16) & 0x0F) as u8;
    let rd: u8 = ((i >> 12) & 0x0F) as u8;
    if opcode.is_test() && !set_flags {
        return Err(DataProcessingDecodeError::Special);
    }
    let operand2 = if immediate {
        Operand2::Immediate { value: (i & 0xFF) as u8, rotate: ((i >> 8) & 0x0F) as u8 }
    } else {
        let rm: u8 = (i & 0x0F) as u8;
        let shift_type = ShiftType::from_bits(((i >> 5) & 0b11) as u8);
        let amount = if i & 0x10 != 0 {
            if i & 0x80 != 0 {
                return Err(DataProcessingDecodeError::InvalidRegisterShift);
            }
            ShiftAmount::Register(((i >> 8) & 0x0F) as u8)
        } else {
            ShiftAmount::Immediate(((i >> 7) & 0x1F) as u8)
        };
        Operand2::Register(RegisterShift { rm, shift_type, amount })
    };
    Ok(
        DataProcessingInstruction {
            condition: ArmCondition::from_bits((i >> 28) as u8),
            opcode,
            set_flags,
            rn,
            rd,
            operand2,
        },
    )
}

/// The small fields of an instruction fit their widths, and reading
/// them back through a byte gives the same field.
pub proof fn lemma_fields_small(i: u32)
    ensures
        (i >> 21) & 0xF < 16,
        (i >> 16) & 0xF < 16,
        (i >> 12) & 0xF < 16,
        (i >> 8) & 0xF < 16,
        (i >> 7) & 0x1F < 32,
        (i >> 5) & 3 < 4,
        i & 0xF < 16,
        i & 0xFF < 256,
        (((i >> 21) & 0xF) as u8 & 0xF) as u32 == (i >> 21) & 0xF,
        (((i >> 5) & 3) as u8 & 3) as u32 == (i >> 5) & 3,
        condition_from_field((((i >> 28) as u8) & 0xF) as int) == condition_from_field(
            (i >> 28) as int,
        ),
{
    crate::bits::lemma_u32_fields();
    super::decoder::lemma_condition_field(i);
}

} // verus!
