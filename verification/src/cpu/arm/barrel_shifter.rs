use vstd::prelude::*;

use super::data_processing::ShiftType;
use crate::bits::bit_set_at;

verus! {

#[derive(Debug, Clone, Copy, PartialEq, Eq, Structural)]
pub struct ShiftResult {
    pub value: u32,
    pub carry: bool,
}

/// Bit `index` of `value`.
pub open spec fn bit_of(value: u32, index: u32) -> bool {
    (value >> index) & 1 == 1
}

/// Arithmetic shift right: the vacated high bits copy bit 31.
pub open spec fn asr_value(value: u32, amount: u32) -> u32 {
    if value >= 0x8000_0000 {
        !((!value) >> amount)
    } else {
        value >> amount
    }
}

/// Rotation right by `amount` (1..=31).
pub open spec fn ror_value(value: u32, amount: u32) -> u32 {
    (value >> amount) | (value << (32 - amount) as u32)
}

/// LSL by 1..=31: the last bit shifted out is the carry.
pub open spec fn lsl_c(value: u32, amount: u32) -> ShiftResult {
    ShiftResult { value: value << amount, carry: bit_of(value, (32 - amount) as u32) }
}

/// LSR by 1..=31.
pub open spec fn lsr_c(value: u32, amount: u32) -> ShiftResult {
    ShiftResult { value: value >> amount, carry: bit_of(value, (amount - 1) as u32) }
}

/// ASR by 1..=31.
pub open spec fn asr_c(value: u32, amount: u32) -> ShiftResult {
    ShiftResult { value: asr_value(value, amount), carry: bit_of(value, (amount - 1) as u32) }
}

/// ROR by 1..=31: the carry is bit 31 of the result.
pub open spec fn ror_c(value: u32, amount: u32) -> ShiftResult {
    ShiftResult { value: ror_value(value, amount), carry: bit_of(ror_value(value, amount), 31) }
}

/// Shift by 32 or more with the result filled from the sign bit.
pub open spec fn sign_fill(value: u32) -> ShiftResult {
    ShiftResult {
        value: if value >= 0x8000_0000 {
            0xFFFF_FFFF
        } else {
            0
        },
        carry: value >= 0x8000_0000,
    }
}

/// RRX: a 33-bit rotation through the carry flag.
pub open spec fn rrx_c(value: u32, carry: bool) -> ShiftResult {
    ShiftResult {
        value: (if carry {
            0x8000_0000u32
        } else {
            0u32
        }) | (value >> 1),
        carry: bit_of(value, 0),
    }
}

/// The ARM immediate-shift semantics: the five-bit amount, where LSL #0
/// keeps value and carry, LSR #0 and ASR #0 mean a shift by 32 and ROR #0
/// means RRX.
pub open spec fn spec_shift_immediate(
    value: u32,
    shift_type: ShiftType,
    encoded_amount: u8,
    old_carry: bool,
) -> ShiftResult {
    let amount = (encoded_amount & 0x1F) as u32;
    match shift_type {
        ShiftType::LogicalLeft => if amount == 0 {
            ShiftResult { value, carry: old_carry }
        } else {
            lsl_c(value, amount)
        },
        ShiftType::LogicalRight => if amount == 0 {
            ShiftResult { value: 0, carry: bit_of(value, 31) }
        } else {
            lsr_c(value, amount)
        },
        ShiftType::ArithmeticRight => if amount == 0 {
            sign_fill(value)
        } else {
            asr_c(value, amount)
        },
        ShiftType::RotateRight => if amount == 0 {
            rrx_c(value, old_carry)
        } else {
            ror_c(value, amount)
        },
    }
}

/// The ARM register-shift semantics: the amount is the low byte of Rs;
/// zero keeps value and carry; amounts of 32 or more shift everything
/// out (LSL, LSR), fill with the sign (ASR) or rotate modulo 32 (ROR).
pub open spec fn spec_shift_register(
    value: u32,
    shift_type: ShiftType,
    rs_value: u32,
    old_carry: bool,
) -> ShiftResult {
    let amount = rs_value & 0xFF;
    if amount == 0 {
        ShiftResult { value, carry: old_carry }
    } else {
        match shift_type {
            ShiftType::LogicalLeft => if amount < 32 {
                lsl_c(value, amount)
            } else if amount == 32 {
                ShiftResult { value: 0, carry: bit_of(value, 0) }
            } else {
                ShiftResult { value: 0, carry: false }
            },
            ShiftType::LogicalRight => if amount < 32 {
                lsr_c(value, amount)
            } else if amount == 32 {
                ShiftResult { value: 0, carry: bit_of(value, 31) }
            } else {
                ShiftResult { value: 0, carry: false }
            },
            ShiftType::ArithmeticRight => if amount < 32 {
                asr_c(value, amount)
            } else {
                sign_fill(value)
            },
            ShiftType::RotateRight => if amount % 32 == 0 {
                ShiftResult { value, carry: bit_of(value, 31) }
            } else {
                ror_c(value, amount % 32)
            },
        }
    }
}

/// An ARM rotated immediate: the eight-bit value rotated right by twice
/// the four-bit field; the carry is kept for a zero rotation and is bit
/// 31 of the result otherwise.
pub open spec fn spec_expand_rotated_immediate(immediate: u8, rotate: u8, old_carry: bool) -> ShiftResult {
    let rotation = ((rotate & 0x0F) as u32 * 2) as u32;
    if rotation == 0 {
        ShiftResult { value: immediate as u32, carry: old_carry }
    } else {
        ror_c(immediate as u32, rotation)
    }
}

/// Applies a data-processing immediate shift.
///
/// The encoded amount is five bits wide; LSL #0 keeps value and carry,
/// LSR #0 and ASR #0 mean a shift by 32 and ROR #0 means RRX.
pub fn shift_immediate(value: u32, shift_type: ShiftType, encoded_amount: u8, old_carry: bool) -> (r:
    ShiftResult)
    ensures
        r == spec_shift_immediate(value, shift_type, encoded_amount, old_carry),
{
    let amount: u8 = encoded_amount & 0x1F;
    proof {
        crate::bits::lemma_u32_fields();
        assert(amount < 32) by (bit_vector)
            requires
                amount == encoded_amount & 0x1F,
        ;
    }
    match shift_type {
        ShiftType::LogicalLeft => logical_shift_left_immediate(value, amount, old_carry),
        ShiftType::LogicalRight => logical_shift_right_immediate(value, amount),
        ShiftType::ArithmeticRight => arithmetic_shift_right_immediate(value, amount),
        ShiftType::RotateRight => rotate_right_immediate(value, amount, old_carry),
    }
}

/// Applies a register-controlled data-processing shift: the amount is
/// the low byte of Rs, and zero keeps value and carry.
pub fn shift_register(value: u32, shift_type: ShiftType, rs_value: u32, old_carry: bool) -> (r:
    ShiftResult)
    ensures
        r == spec_shift_register(value, shift_type, rs_value, old_carry),
{
    let amount: u32 = rs_value & 0xFF;
    proof {
        assert(amount < 256) by (bit_vector)
            requires
                amount == rs_value & 0xFF,
        ;
    }
    if amount == 0 {
        return ShiftResult { value, carry: old_carry };
    }
    let amount: u8 = amount as u8;
    match shift_type {
        ShiftType::LogicalLeft => logical_shift_left_register(value, amount),
        ShiftType::LogicalRight => logical_shift_right_register(value, amount),
        ShiftType::ArithmeticRight => arithmetic_shift_right_register(value, amount),
        ShiftType::RotateRight => rotate_right_register(value, amount),
    }
}

/// Expands an ARM data-processing rotated immediate: the value rotated
/// right by twice the four-bit field.
pub fn expand_rotated_immediate(immediate: u8, rotate: u8, old_carry: bool) -> (r: ShiftResult)
    ensures
        r == spec_expand_rotated_immediate(immediate, rotate, old_carry),
{
    let field: u8 = rotate & 0x0F;
    proof {
        crate::bits::lemma_u32_fields();
    }
    let rotation: u32 = (field as u32) * 2;
    if rotation == 0 {
        ShiftResult { value: immediate as u32, carry: old_carry }
    } else {
        let value = rotate_right(immediate as u32, rotation);
        ShiftResult { value, carry: bit(value, 31) }
    }
}

fn logical_shift_left_immediate(value: u32, amount: u8, old_carry: bool) -> (r: ShiftResult)
    requires
        amount < 32,
    ensures
        r == (if amount == 0 {
            ShiftResult { value, carry: old_carry }
        } else {
            lsl_c(value, amount as u32)
        }),
{
    if amount == 0 {
        return ShiftResult { value, carry: old_carry };
    }
    let amount: u32 = amount as u32;
    ShiftResult { value: value << amount, carry: bit(value, 32 - amount) }
}

fn logical_shift_right_immediate(value: u32, amount: u8) -> (r: ShiftResult)
    requires
        amount < 32,
    ensures
        r == (if amount == 0 {
            ShiftResult { value: 0, carry: bit_of(value, 31) }
        } else {
            lsr_c(value, amount as u32)
        }),
{
    if amount == 0 {
        return ShiftResult { value: 0, carry: bit(value, 31) };
    }
    let amount: u32 = amount as u32;
    ShiftResult { value: value >> amount, carry: bit(value, amount - 1) }
}

fn arithmetic_shift_right_immediate(value: u32, amount: u8) -> (r: ShiftResult)
    requires
        amount < 32,
    ensures
        r == (if amount == 0 {
            sign_fill(value)
        } else {
            asr_c(value, amount as u32)
        }),
{
    if amount == 0 {
        let sign = bit(value, 31);
        proof {
            assert(sign == (value >= 0x8000_0000)) by (bit_vector)
                requires
                    sign == ((value >> 31u32) & 1 == 1),
            ;
        }
        return ShiftResult {
            value: if sign {
                u32::MAX
            } else {
                0
            },
            carry: sign,
        };
    }
    let amount: u32 = amount as u32;
    ShiftResult { value: arithmetic_shift(value, amount), carry: bit(value, amount - 1) }
}

fn rotate_right_immediate(value: u32, amount: u8, old_carry: bool) -> (r: ShiftResult)
    requires
        amount < 32,
    ensures
        r == (if amount == 0 {
            rrx_c(value, old_carry)
        } else {
            ror_c(value, amount as u32)
        }),
{
    if amount == 0 {
        let carry_in: u32 = if old_carry {
            0x8000_0000
        } else {
            0
        };
        return ShiftResult { value: carry_in | (value >> 1), carry: bit(value, 0) };
    }
    let value = rotate_right(value, amount as u32);
    ShiftResult { value, carry: bit(value, 31) }
}

fn logical_shift_left_register(value: u32, amount: u8) -> (r: ShiftResult)
    requires
        amount >= 1,
    ensures
        r == (if amount < 32 {
            lsl_c(value, amount as u32)
        } else if amount == 32 {
            ShiftResult { value: 0, carry: bit_of(value, 0) }
        } else {
            ShiftResult { value: 0, carry: false }
        }),
{
    if amount < 32 {
        let amount: u32 = amount as u32;
        ShiftResult { value: value << amount, carry: bit(value, 32 - amount) }
    } else if amount == 32 {
        ShiftResult { value: 0, carry: bit(value, 0) }
    } else {
        ShiftResult { value: 0, carry: false }
    }
}

fn logical_shift_right_register(value: u32, amount: u8) -> (r: ShiftResult)
    requires
        amount >= 1,
    ensures
        r == (if amount < 32 {
            lsr_c(value, amount as u32)
        } else if amount == 32 {
            ShiftResult { value: 0, carry: bit_of(value, 31) }
        } else {
            ShiftResult { value: 0, carry: false }
        }),
{
    if amount < 32 {
        let amount: u32 = amount as u32;
        ShiftResult { value: value >> amount, carry: bit(value, amount - 1) }
    } else if amount == 32 {
        ShiftResult { value: 0, carry: bit(value, 31) }
    } else {
        ShiftResult { value: 0, carry: false }
    }
}

fn arithmetic_shift_right_register(value: u32, amount: u8) -> (r: ShiftResult)
    requires
        amount >= 1,
    ensures
        r == (if amount < 32 {
            asr_c(value, amount as u32)
        } else {
            sign_fill(value)
        }),
{
    if amount < 32 {
        let amount: u32 = amount as u32;
        ShiftResult { value: arithmetic_shift(value, amount), carry: bit(value, amount - 1) }
    } else {
        let sign = bit(value, 31);
        proof {
            assert(sign == (value >= 0x8000_0000)) by (bit_vector)
                requires
                    sign == ((value >> 31u32) & 1 == 1),
            ;
        }
        ShiftResult {
            value: if sign {
                u32::MAX
            } else {
                0
            },
            carry: sign,
        }
    }
}

fn rotate_right_register(value: u32, amount: u8) -> (r: ShiftResult)
    requires
        amount >= 1,
    ensures
        r == (if amount % 32 == 0 {
            ShiftResult { value, carry: bit_of(value, 31) }
        } else {
            ror_c(value, (amount % 32) as u32)
        }),
{
    // A non-zero multiple of 32 leaves the value and moves bit 31 into
    // the carry.
    let rotation: u32 = (amount as u32) % 32;
    if rotation == 0 {
        ShiftResult { value, carry: bit(value, 31) }
    } else {
        let value = rotate_right(value, rotation);
        ShiftResult { value, carry: bit(value, 31) }
    }
}

fn bit(value: u32, index: u32) -> (r: bool)
    requires
        index < 32,
    ensures
        r == bit_of(value, index),
{
    (value >> index) & 1 == 1
}

/// The shift right that copies bit 31 into the vacated bits.
fn arithmetic_shift(value: u32, amount: u32) -> (r: u32)
    requires
        1 <= amount < 32,
    ensures
        r == asr_value(value, amount),
{
    if value >= 0x8000_0000 {
        !((!value) >> amount)
    } else {
        value >> amount
    }
}

/// The immediate shifts by 1..=31, bit by bit for every value: LSL moves
/// bit `i - n` to bit `i` (zeros enter below) and carries out bit
/// `32 - n`; LSR moves bit `i + n` to `i` (zeros enter above) and carries
/// out bit `n - 1`; ASR does the same but fills with bit 31; ROR takes
/// bit `(i + n) mod 32` and carries out bit `n - 1`.
pub proof fn law_immediate_shifts_move_bits(value: u32, amount: u8, old_carry: bool, i: u32)
    requires
        1 <= amount < 32,
        i < 32,
    ensures
        ({
            let n = amount as u32;
            let lsl = spec_shift_immediate(value, ShiftType::LogicalLeft, amount, old_carry);
            let lsr = spec_shift_immediate(value, ShiftType::LogicalRight, amount, old_carry);
            let asr = spec_shift_immediate(value, ShiftType::ArithmeticRight, amount, old_carry);
            let ror = spec_shift_immediate(value, ShiftType::RotateRight, amount, old_carry);
            &&& bit_set_at(lsl.value, i) == (i >= n && bit_set_at(value, (i - n) as u32))
            &&& lsl.carry == bit_set_at(value, (32 - n) as u32)
            &&& bit_set_at(lsr.value, i) == (i + n < 32 && bit_set_at(value, (i + n) as u32))
            &&& lsr.carry == bit_set_at(value, (n - 1) as u32)
            &&& bit_set_at(asr.value, i) == if i + n < 32 {
                bit_set_at(value, (i + n) as u32)
            } else {
                bit_set_at(value, 31)
            }
            &&& asr.carry == bit_set_at(value, (n - 1) as u32)
            &&& bit_set_at(ror.value, i) == if i + n < 32 {
                bit_set_at(value, (i + n) as u32)
            } else {
                bit_set_at(value, (i + n - 32) as u32)
            }
            &&& ror.carry == bit_set_at(ror.value, 31)
        }),
{
    crate::bits::lemma_u32_fields();
    assert(amount & 0x1F == amount) by (bit_vector)
        requires
            amount < 32,
    ;
    crate::bits::lemma_shift_bits(value, amount as u32, i);
}

/// The immediate shifts with a zero field: LSL #0 keeps value and carry,
/// LSR #0 and ASR #0 shift by 32 (zeros, or copies of bit 31, with bit 31
/// carried out), and ROR #0 is RRX: the carry enters at bit 31 and bit 0
/// is carried out.
pub proof fn law_immediate_shifts_by_zero_field(value: u32, old_carry: bool, i: u32)
    requires
        i < 32,
    ensures
        spec_shift_immediate(value, ShiftType::LogicalLeft, 0, old_carry) == (ShiftResult { value, carry: old_carry }),
        spec_shift_immediate(value, ShiftType::LogicalRight, 0, old_carry) == (ShiftResult {
            value: 0,
            carry: bit_set_at(value, 31),
        }),
        bit_set_at(spec_shift_immediate(value, ShiftType::ArithmeticRight, 0, old_carry).value, i)
            == bit_set_at(value, 31),
        spec_shift_immediate(value, ShiftType::ArithmeticRight, 0, old_carry).carry == bit_set_at(value, 31),
        bit_set_at(spec_shift_immediate(value, ShiftType::RotateRight, 0, old_carry).value, i) == if i == 31 {
            old_carry
        } else {
            bit_set_at(value, (i + 1) as u32)
        },
        spec_shift_immediate(value, ShiftType::RotateRight, 0, old_carry).carry == bit_set_at(value, 0),
{
    assert(0u8 & 0x1F == 0) by (bit_vector);
    let top: u32 = if old_carry {
        0x8000_0000
    } else {
        0
    };
    assert(((value >= 0x8000_0000) == ((value >> 31u32) & 1 == 1)) && ((((if value >= 0x8000_0000 {
        0xFFFF_FFFFu32
    } else {
        0u32
    }) >> i) & 1 == 1) == ((value >> 31u32) & 1 == 1)) && ((((top | (value >> 1u32)) >> i) & 1 == 1)
        == if i == 31 {
        top == 0x8000_0000
    } else {
        (value >> ((i + 1) as u32)) & 1 == 1
    })) by (bit_vector)
        requires
            i < 32,
            top == 0x8000_0000 || top == 0,
    ;
}

/// A logical shift right by 1..=31 divides by the matching power of two,
/// and a logical shift left by 1..=31 multiplies by it modulo 2^32; the
/// arithmetic shift agrees with the logical one on non-negative values.
pub proof fn law_shifts_are_scaling(value: u32, amount: u32)
    requires
        1 <= amount < 32,
    ensures
        lsr_c(value, amount).value == value as nat / vstd::arithmetic::power2::pow2(amount as nat),
        value < 0x8000_0000 ==> asr_c(value, amount).value == lsr_c(value, amount).value,
{
    vstd::bits::lemma_u32_shr_is_div(value, amount);
}

/// Rotating right by n and then by 32 - n gives the value back.
pub proof fn law_rotation_round_trip(value: u32, amount: u32)
    requires
        1 <= amount < 32,
    ensures
        ror_value(ror_value(value, amount), (32 - amount) as u32) == value,
{
    let back = (32 - amount) as u32;
    assert(((((value >> amount) | (value << back)) >> back) | (((value >> amount) | (value
        << back)) << amount)) == value) by (bit_vector)
        requires
            1 <= amount < 32,
            back == 32 - amount,
    ;
}

} // verus!
verus! {

/// Rotation right by any amount, taken modulo 32.
pub open spec fn rotate_right_spec(value: u32, amount: u32) -> u32 {
    if amount % 32 == 0 {
        value
    } else {
        ror_value(value, amount % 32)
    }
}

/// `value.rotate_right(amount)`.
pub fn rotate_right(value: u32, amount: u32) -> (r: u32)
    ensures
        r == rotate_right_spec(value, amount),
{
    let n: u32 = amount % 32;
    if n == 0 {
        value
    } else {
        (value >> n) | (value << (32 - n))
    }
}

} // verus!
