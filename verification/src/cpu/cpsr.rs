use vstd::prelude::*;

use super::mode::{mode_bits, mode_from_field, CpuMode, InvalidCpuMode};

verus! {

/// A program status register: condition flags, interrupt masks, the
/// Thumb state bit and the processor mode.
#[derive(Debug, Clone, Copy, PartialEq, Eq, Structural)]
pub struct Cpsr {
    value: u32,
}

impl View for Cpsr {
    type V = u32;

    closed spec fn view(&self) -> u32 {
        self.value
    }
}

/// Whether any bit of `mask` is set in `value`.
pub open spec fn bit_set(value: u32, mask: u32) -> bool {
    value & mask != 0
}

/// `value` with the bits of `mask` set or cleared.
pub open spec fn with_bits(value: u32, mask: u32, enabled: bool) -> u32 {
    if enabled {
        value | mask
    } else {
        value & !mask
    }
}

/// `value` with its mode field replaced by the encoding of `mode`.
pub open spec fn with_mode(value: u32, mode: CpuMode) -> u32 {
    (value & !0x1Fu32) | mode_bits(mode)
}

pub open spec fn negative_mask() -> u32 {
    0x8000_0000
}

pub open spec fn zero_mask() -> u32 {
    0x4000_0000
}

pub open spec fn carry_mask() -> u32 {
    0x2000_0000
}

pub open spec fn overflow_mask() -> u32 {
    0x1000_0000
}

pub open spec fn irq_mask() -> u32 {
    0x80
}

pub open spec fn fiq_mask() -> u32 {
    0x40
}

pub open spec fn thumb_mask() -> u32 {
    0x20
}

/// The value a PSR holds after `set_nzcv`.
pub open spec fn with_nzcv(value: u32, n: bool, z: bool, c: bool, v: bool) -> u32 {
    with_bits(
        with_bits(with_bits(with_bits(value, negative_mask(), n), zero_mask(), z), carry_mask(), c),
        overflow_mask(),
        v,
    )
}

/// Setting or clearing one flag bit decides that bit and keeps every
/// other bit.
pub proof fn lemma_with_bits(value: u32, mask: u32, enabled: bool, other: u32)
    requires
        mask == 0x8000_0000 || mask == 0x4000_0000 || mask == 0x2000_0000 || mask == 0x1000_0000
            || mask == 0x80 || mask == 0x40 || mask == 0x20,
        other & mask == 0,
    ensures
        bit_set(with_bits(value, mask, enabled), mask) == enabled,
        with_bits(value, mask, enabled) & other == value & other,
{
    crate::bits::lemma_u32_set_clear();
    if enabled {
        assert((value | mask) & mask != 0);
        assert((value | mask) & other == value & other);
    } else {
        assert((value & !mask) & mask == 0);
        assert((value & !mask) & other == value & other);
    }
}

/// The mode field of a PSR after `set_mode` encodes the new mode, and
/// the bits above the mode field are kept.
pub proof fn lemma_with_mode(value: u32, mode: CpuMode)
    ensures
        with_mode(value, mode) & 0x1F == mode_bits(mode),
        with_mode(value, mode) & 0xFFFF_FFE0 == value & 0xFFFF_FFE0,
{
    let b = mode_bits(mode);
    assert(b < 32);
    crate::bits::lemma_u32_set_clear();
    assert(((value & !0x1Fu32) | b) & 0x1F == b);
    assert(((value & !0x1Fu32) | b) & 0xFFFF_FFE0 == value & 0xFFFF_FFE0);
}

impl Cpsr {
    pub const NEGATIVE_BIT: u32 = 31;
    pub const ZERO_BIT: u32 = 30;
    pub const CARRY_BIT: u32 = 29;
    pub const OVERFLOW_BIT: u32 = 28;
    pub const NEGATIVE_MASK: u32 = 0x8000_0000;
    pub const ZERO_MASK: u32 = 0x4000_0000;
    pub const CARRY_MASK: u32 = 0x2000_0000;
    pub const OVERFLOW_MASK: u32 = 0x1000_0000;
    pub const CONDITION_FLAGS_MASK: u32 = 0xF000_0000;
    pub const IRQ_DISABLE_BIT: u32 = 7;
    pub const FIQ_DISABLE_BIT: u32 = 6;
    pub const THUMB_STATE_BIT: u32 = 5;
    pub const IRQ_DISABLE_MASK: u32 = 0x80;
    pub const FIQ_DISABLE_MASK: u32 = 0x40;
    pub const THUMB_STATE_MASK: u32 = 0x20;
    pub const MODE_MASK: u32 = 0x1F;

    pub open spec fn spec_negative(self) -> bool {
        bit_set(self@, negative_mask())
    }

    pub open spec fn spec_zero(self) -> bool {
        bit_set(self@, zero_mask())
    }

    pub open spec fn spec_carry(self) -> bool {
        bit_set(self@, carry_mask())
    }

    pub open spec fn spec_overflow(self) -> bool {
        bit_set(self@, overflow_mask())
    }

    pub open spec fn spec_irq_disabled(self) -> bool {
        bit_set(self@, irq_mask())
    }

    pub open spec fn spec_fiq_disabled(self) -> bool {
        bit_set(self@, fiq_mask())
    }

    pub open spec fn spec_thumb(self) -> bool {
        bit_set(self@, thumb_mask())
    }

    /// The mode that the low five bits name, if any.
    pub open spec fn spec_mode(self) -> Option<CpuMode> {
        mode_from_field(self@ & 0x1F)
    }

    /// The reset value: Supervisor mode with IRQ and FIQ disabled.
    pub fn new() -> (r: Cpsr)
        ensures
            r@ == 0xD3,
    {
        Cpsr { value: 0xD3 }
    }

    pub fn from_raw(value: u32) -> (r: Cpsr)
        ensures
            r@ == value,
    {
        Cpsr { value }
    }

    pub fn raw(self) -> (r: u32)
        ensures
            r == self@,
    {
        self.value
    }

    pub fn set_raw(&mut self, value: u32)
        ensures
            final(self)@ == value,
    {
        self.value = value;
    }

    /// Decodes the mode field.
    pub fn mode(self) -> (r: Result<CpuMode, InvalidCpuMode>)
        ensures
            match self.spec_mode() {
                Some(mode) => r == Ok::<CpuMode, InvalidCpuMode>(mode),
                None => r == Err::<CpuMode, InvalidCpuMode>(InvalidCpuMode((self@ & 0x1F) as u8)),
            },
    {
        let v: u32 = self.value;
        let field: u8 = (v & 0x1F) as u8;
        proof {
            crate::bits::lemma_u32_fields();
            assert((field & 0x1F) as u32 == v & 0x1F);
        }
        CpuMode::from_bits(field)
    }

    pub fn negative(self) -> (r: bool)
        ensures
            r == self.spec_negative(),
    {
        self.value & 0x8000_0000 != 0
    }

    pub fn zero(self) -> (r: bool)
        ensures
            r == self.spec_zero(),
    {
        self.value & 0x4000_0000 != 0
    }

    pub fn carry(self) -> (r: bool)
        ensures
            r == self.spec_carry(),
    {
        self.value & 0x2000_0000 != 0
    }

    pub fn overflow(self) -> (r: bool)
        ensures
            r == self.spec_overflow(),
    {
        self.value & 0x1000_0000 != 0
    }

    pub fn irq_disabled(self) -> (r: bool)
        ensures
            r == self.spec_irq_disabled(),
    {
        self.value & 0x80 != 0
    }

    pub fn fiq_disabled(self) -> (r: bool)
        ensures
            r == self.spec_fiq_disabled(),
    {
        self.value & 0x40 != 0
    }

    pub fn thumb_state(self) -> (r: bool)
        ensures
            r == self.spec_thumb(),
    {
        self.value & 0x20 != 0
    }

    /// Replaces the mode field and keeps every other bit.
    pub fn set_mode(&mut self, mode: CpuMode)
        ensures
            final(self)@ == with_mode(old(self)@, mode),
            final(self).spec_mode() == Some(mode),
    {
        self.value = (self.value & !0x1Fu32) | mode.bits();
        proof {
            lemma_with_mode(old(self)@, mode);
            crate::cpu::mode::lemma_mode_bits_round_trip(mode);
        }
    }

    pub fn set_negative(&mut self, value: bool)
        ensures
            final(self)@ == with_bits(old(self)@, negative_mask(), value),
            final(self)@ & 0x1F == old(self)@ & 0x1F,
    {
        self.set_flag(0x8000_0000, value);
    }

    pub fn set_zero(&mut self, value: bool)
        ensures
            final(self)@ == with_bits(old(self)@, zero_mask(), value),
            final(self)@ & 0x1F == old(self)@ & 0x1F,
    {
        self.set_flag(0x4000_0000, value);
    }

    pub fn set_carry(&mut self, value: bool)
        ensures
            final(self)@ == with_bits(old(self)@, carry_mask(), value),
            final(self)@ & 0x1F == old(self)@ & 0x1F,
    {
        self.set_flag(0x2000_0000, value);
    }

    pub fn set_overflow(&mut self, value: bool)
        ensures
            final(self)@ == with_bits(old(self)@, overflow_mask(), value),
            final(self)@ & 0x1F == old(self)@ & 0x1F,
    {
        self.set_flag(0x1000_0000, value);
    }

    pub fn set_irq_disabled(&mut self, disabled: bool)
        ensures
            final(self)@ == with_bits(old(self)@, irq_mask(), disabled),
            final(self)@ & 0x1F == old(self)@ & 0x1F,
    {
        self.set_flag(0x80, disabled);
    }

    pub fn set_fiq_disabled(&mut self, disabled: bool)
        ensures
            final(self)@ == with_bits(old(self)@, fiq_mask(), disabled),
            final(self)@ & 0x1F == old(self)@ & 0x1F,
    {
        self.set_flag(0x40, disabled);
    }

    pub fn set_thumb_state(&mut self, enabled: bool)
        ensures
            final(self)@ == with_bits(old(self)@, thumb_mask(), enabled),
            final(self)@ & 0x1F == old(self)@ & 0x1F,
    {
        self.set_flag(0x20, enabled);
    }

    /// Writes all four condition flags and keeps the other bits.
    pub fn set_nzcv(&mut self, negative: bool, zero: bool, carry: bool, overflow: bool)
        ensures
            final(self)@ == with_nzcv(old(self)@, negative, zero, carry, overflow),
            final(self)@ & 0x1F == old(self)@ & 0x1F,
    {
        self.set_negative(negative);
        self.set_zero(zero);
        self.set_carry(carry);
        self.set_overflow(overflow);
    }

    fn set_flag(&mut self, mask: u32, enabled: bool)
        requires
            mask == 0x8000_0000 || mask == 0x4000_0000 || mask == 0x2000_0000 || mask
                == 0x1000_0000 || mask == 0x80 || mask == 0x40 || mask == 0x20,
        ensures
            final(self)@ == with_bits(old(self)@, mask, enabled),
            final(self)@ & 0x1F == old(self)@ & 0x1F,
    {
        proof {
            crate::bits::lemma_u32_set_clear();
            lemma_with_bits(old(self)@, mask, enabled, 0x1F);
        }
        if enabled {
            self.value = self.value | mask;
        } else {
            self.value = self.value & !mask;
        }
    }
}

/// Writing a flag and reading it back gives the written value, and the
/// other flags, the interrupt masks, the Thumb bit and the mode are kept.
pub proof fn law_flag_write_read(psr: u32, n: bool, z: bool, c: bool, v: bool)
    ensures
        bit_set(with_nzcv(psr, n, z, c, v), negative_mask()) == n,
        bit_set(with_nzcv(psr, n, z, c, v), zero_mask()) == z,
        bit_set(with_nzcv(psr, n, z, c, v), carry_mask()) == c,
        bit_set(with_nzcv(psr, n, z, c, v), overflow_mask()) == v,
        with_nzcv(psr, n, z, c, v) & 0x0FFF_FFFF == psr & 0x0FFF_FFFF,
{
    let a = with_bits(psr, negative_mask(), n);
    let b = with_bits(a, zero_mask(), z);
    let d = with_bits(b, carry_mask(), c);
    let e = with_bits(d, overflow_mask(), v);
    crate::bits::lemma_u32_set_clear();
    lemma_with_bits(psr, 0x8000_0000, n, 0x7FFF_FFFF);
    lemma_with_bits(a, 0x4000_0000, z, 0xBFFF_FFFF);
    lemma_with_bits(b, 0x2000_0000, c, 0xDFFF_FFFF);
    lemma_with_bits(d, 0x1000_0000, v, 0xEFFF_FFFF);
    crate::bits::lemma_u32_flag_chain(psr, a, b, d, e);
    assert(e & 0x0FFF_FFFF == psr & 0x0FFF_FFFF);
}

/// Changing one control bit (IRQ mask, FIQ mask, Thumb) decides that bit
/// and keeps the condition flags and the mode.
pub proof fn law_control_bit_write(psr: u32, mask: u32, enabled: bool)
    requires
        mask == irq_mask() || mask == fiq_mask() || mask == thumb_mask(),
    ensures
        bit_set(with_bits(psr, mask, enabled), mask) == enabled,
        with_bits(psr, mask, enabled) & 0xF000_001F == psr & 0xF000_001F,
{
    crate::bits::lemma_u32_set_clear();
    lemma_with_bits(psr, mask, enabled, 0xF000_001F);
}

} // verus!
