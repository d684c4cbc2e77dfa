use vstd::prelude::*;

verus! {

/// The four ARM condition flags an operation produces.
#[derive(Debug, Clone, Copy, PartialEq, Eq, Structural)]
pub struct AluFlags {
    pub negative: bool,
    pub zero: bool,
    pub carry: bool,
    pub overflow: bool,
}

#[derive(Debug, Clone, Copy, PartialEq, Eq, Structural)]
pub struct AddResult {
    pub value: u32,
    pub flags: AluFlags,
}

/// The two's-complement value of a 32-bit pattern.
pub open spec fn signed32(x: u32) -> int {
    if x < 0x8000_0000 {
        x as int
    } else {
        x as int - 0x1_0000_0000
    }
}

pub open spec fn carry_int(carry: bool) -> int {
    if carry {
        1
    } else {
        0
    }
}

/// What `x + y + carry_in` gives on the ARM adder: the low 32 bits, N and
/// Z of that value, C when the unsigned sum does not fit in 32 bits and V
/// when the signed sum does not fit in 32 bits.
pub open spec fn spec_add_with_carry(x: u32, y: u32, carry_in: bool) -> AddResult {
    let sum = x as int + y as int + carry_int(carry_in);
    let signed_sum = signed32(x) + signed32(y) + carry_int(carry_in);
    let value = (sum % 0x1_0000_0000) as u32;
    AddResult {
        value,
        flags: AluFlags {
            negative: value >= 0x8000_0000,
            zero: value == 0,
            carry: sum > 0xFFFF_FFFF,
            overflow: signed_sum < -0x8000_0000 || signed_sum > 0x7FFF_FFFF,
        },
    }
}

/// Performs `x + y + carry_in` and computes the ARM N, Z, C and V flags.
///
/// This single primitive implements addition and subtraction:
/// ADD is `x + y`, ADC `x + y + C`, SUB `x + !y + 1`, SBC `x + !y + C`,
/// RSB `y + !x + 1` and RSC `y + !x + C`.
pub fn add_with_carry(x: u32, y: u32, carry_in: bool) -> (r: AddResult)
    ensures
        r == spec_add_with_carry(x, y, carry_in),
{
    let carry: u64 = if carry_in {
        1
    } else {
        0
    };
    let unsigned_sum: u64 = x as u64 + y as u64 + carry;
    let value: u32 = (unsigned_sum % 0x1_0000_0000) as u32;
    let carry_out = unsigned_sum > 0xFFFF_FFFF;
    let overflow = ((x ^ value) & (y ^ value) & 0x8000_0000) != 0;
    let negative = value & 0x8000_0000 != 0;
    proof {
        crate::bits::lemma_u32_sign_logic();
        crate::bits::lemma_u32_set_clear();
        assert(((x ^ value) & (y ^ value) & 0x8000_0000u32 != 0) == ((x >= 0x8000_0000) == (y
            >= 0x8000_0000) && (value >= 0x8000_0000) != (x >= 0x8000_0000)));
        assert((value & 0x8000_0000u32 != 0) == (value >= 0x8000_0000));
    }
    AddResult {
        value,
        flags: AluFlags { negative, zero: value == 0, carry: carry_out, overflow },
    }
}

/// Flags of a logical operation: N and Z from the result, C from the
/// barrel shifter and V unchanged.
pub fn logical_flags(value: u32, shifter_carry: bool, old_overflow: bool) -> (r: AluFlags)
    ensures
        r == (AluFlags {
            negative: value >= 0x8000_0000,
            zero: value == 0,
            carry: shifter_carry,
            overflow: old_overflow,
        }),
{
    let negative = value & 0x8000_0000 != 0;
    proof {
        crate::bits::lemma_u32_set_clear();
        assert((value & 0x8000_0000u32 != 0) == (value >= 0x8000_0000));
    }
    AluFlags { negative, zero: value == 0, carry: shifter_carry, overflow: old_overflow }
}

/// Arithmetic operations use all four flags of `add_with_carry`.
pub fn arithmetic_shift_flags(result: AddResult) -> (r: AluFlags)
    ensures
        r == result.flags,
{
    result.flags
}

/// Subtraction through the adder: `x + !y + 1` is `x - y` modulo 2^32,
/// its carry is set exactly when no borrow occurs (`x >= y`), and its
/// overflow is set exactly when the signed difference does not fit.
pub proof fn law_subtraction_through_adder(x: u32, y: u32)
    ensures
        spec_add_with_carry(x, !y, true).value as int == (x as int - y as int) % 0x1_0000_0000,
        spec_add_with_carry(x, !y, true).flags.carry == (x >= y),
        spec_add_with_carry(x, !y, true).flags.overflow == (signed32(x) - signed32(y)
            < -0x8000_0000 || signed32(x) - signed32(y) > 0x7FFF_FFFF),
        spec_add_with_carry(x, !y, true).flags.zero == (x == y),
{
    crate::bits::lemma_u32_sign_logic();
    assert((!y) as int == 0xFFFF_FFFF - y as int);
    assert(signed32(!y) == -signed32(y) - 1);
}

/// Subtraction with carry: `x + !y + C` is `x - y - (1 - C)` modulo 2^32.
pub proof fn law_subtraction_with_carry(x: u32, y: u32, carry: bool)
    ensures
        spec_add_with_carry(x, !y, carry).value as int == (x as int - y as int - 1 + carry_int(
            carry,
        )) % 0x1_0000_0000,
        spec_add_with_carry(x, !y, carry).flags.carry == (x as int >= y as int + 1 - carry_int(
            carry,
        )),
{
    crate::bits::lemma_u32_sign_logic();
    assert((!y) as int == 0xFFFF_FFFF - y as int);
}

/// Addition commutes, flags included.
pub proof fn law_addition_commutes(x: u32, y: u32, carry: bool)
    ensures
        spec_add_with_carry(x, y, carry) == spec_add_with_carry(y, x, carry),
{
}

} // verus!
