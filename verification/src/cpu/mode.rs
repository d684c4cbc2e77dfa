use vstd::prelude::*;

verus! {

/// The processor modes of the ARM7TDMI.
#[derive(Debug, Clone, Copy, PartialEq, Eq, Structural)]
pub enum CpuMode {
    User,
    Fiq,
    Irq,
    Supervisor,
    Abort,
    Undefined,
    System,
}

/// A five-bit mode field that names no processor mode.
#[derive(Debug, Clone, Copy, PartialEq, Eq, Structural)]
pub struct InvalidCpuMode(pub u8);

/// The encoding of each mode in the low five bits of a PSR.
pub open spec fn mode_bits(mode: CpuMode) -> u32 {
    match mode {
        CpuMode::User => 0x10,
        CpuMode::Fiq => 0x11,
        CpuMode::Irq => 0x12,
        CpuMode::Supervisor => 0x13,
        CpuMode::Abort => 0x17,
        CpuMode::Undefined => 0x1B,
        CpuMode::System => 0x1F,
    }
}

/// The mode that a five-bit field names, if any.
pub open spec fn mode_from_field(field: u32) -> Option<CpuMode> {
    if field == 0x10 {
        Some(CpuMode::User)
    } else if field == 0x11 {
        Some(CpuMode::Fiq)
    } else if field == 0x12 {
        Some(CpuMode::Irq)
    } else if field == 0x13 {
        Some(CpuMode::Supervisor)
    } else if field == 0x17 {
        Some(CpuMode::Abort)
    } else if field == 0x1B {
        Some(CpuMode::Undefined)
    } else if field == 0x1F {
        Some(CpuMode::System)
    } else {
        None
    }
}

/// Decoding the encoding of a mode gives the mode back.
pub proof fn lemma_mode_bits_round_trip(mode: CpuMode)
    ensures
        mode_from_field(mode_bits(mode)) == Some(mode),
        mode_bits(mode) < 32,
{
}

impl CpuMode {
    pub const MASK: u32 = 0x1F;

    /// The five-bit PSR encoding of this mode.
    pub fn bits(self) -> (r: u32)
        ensures
            r == mode_bits(self),
    {
        match self {
            CpuMode::User => 0x10,
            CpuMode::Fiq => 0x11,
            CpuMode::Irq => 0x12,
            CpuMode::Supervisor => 0x13,
            CpuMode::Abort => 0x17,
            CpuMode::Undefined => 0x1B,
            CpuMode::System => 0x1F,
        }
    }

    /// Decodes the low five bits of `bits` as a processor mode.
    pub fn from_bits(bits: u8) -> (r: Result<CpuMode, InvalidCpuMode>)
        ensures
            match mode_from_field((bits & 0x1F) as u32) {
                Some(mode) => r == Ok::<CpuMode, InvalidCpuMode>(mode),
                None => r == Err::<CpuMode, InvalidCpuMode>(InvalidCpuMode(bits & 0x1F)),
            },
    {
        let field: u8 = bits & 0x1F;
        match field {
            0x10 => Ok(CpuMode::User),
            0x11 => Ok(CpuMode::Fiq),
            0x12 => Ok(CpuMode::Irq),
            0x13 => Ok(CpuMode::Supervisor),
            0x17 => Ok(CpuMode::Abort),
            0x1B => Ok(CpuMode::Undefined),
            0x1F => Ok(CpuMode::System),
            value => Err(InvalidCpuMode(value)),
        }
    }

    /// Every mode but User is privileged.
    pub fn is_privileged(self) -> (r: bool)
        ensures
            r == (self != CpuMode::User),
    {
        !matches!(self, CpuMode::User)
    }

    /// The exception modes own a saved program status register.
    pub fn has_spsr(self) -> (r: bool)
        ensures
            r == (self != CpuMode::User && self != CpuMode::System),
    {
        matches!(
            self,
            CpuMode::Fiq | CpuMode::Irq | CpuMode::Supervisor | CpuMode::Abort | CpuMode::Undefined
        )
    }
}

} // verus!
