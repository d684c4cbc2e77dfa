use vstd::prelude::*;

use super::mode::CpuMode;

verus! {

/// The exceptions of the ARM7TDMI.
#[derive(Debug, Clone, Copy, PartialEq, Eq, Structural)]
pub enum Exception {
    Reset,
    UndefinedInstruction,
    SoftwareInterrupt,
    PrefetchAbort,
    DataAbort,
    Irq,
    Fiq,
}

/// The address of each exception's vector.
pub open spec fn exception_vector(exception: Exception) -> u32 {
    match exception {
        Exception::Reset => 0x00,
        Exception::UndefinedInstruction => 0x04,
        Exception::SoftwareInterrupt => 0x08,
        Exception::PrefetchAbort => 0x0C,
        Exception::DataAbort => 0x10,
        Exception::Irq => 0x18,
        Exception::Fiq => 0x1C,
    }
}

/// The mode that each exception enters.
pub open spec fn exception_mode(exception: Exception) -> CpuMode {
    match exception {
        Exception::Reset | Exception::SoftwareInterrupt => CpuMode::Supervisor,
        Exception::UndefinedInstruction => CpuMode::Undefined,
        Exception::PrefetchAbort | Exception::DataAbort => CpuMode::Abort,
        Exception::Irq => CpuMode::Irq,
        Exception::Fiq => CpuMode::Fiq,
    }
}

/// Whether entering the exception sets CPSR.F.
pub open spec fn exception_disables_fiq(exception: Exception) -> bool {
    exception == Exception::Reset || exception == Exception::Fiq
}

impl Exception {
    pub fn vector(self) -> (r: u32)
        ensures
            r == exception_vector(self),
    {
        match self {
            Exception::Reset => 0x0000_0000,
            Exception::UndefinedInstruction => 0x0000_0004,
            Exception::SoftwareInterrupt => 0x0000_0008,
            Exception::PrefetchAbort => 0x0000_000C,
            Exception::DataAbort => 0x0000_0010,
            Exception::Irq => 0x0000_0018,
            Exception::Fiq => 0x0000_001C,
        }
    }

    pub fn mode(self) -> (r: CpuMode)
        ensures
            r == exception_mode(self),
    {
        match self {
            Exception::Reset | Exception::SoftwareInterrupt => CpuMode::Supervisor,
            Exception::UndefinedInstruction => CpuMode::Undefined,
            Exception::PrefetchAbort | Exception::DataAbort => CpuMode::Abort,
            Exception::Irq => CpuMode::Irq,
            Exception::Fiq => CpuMode::Fiq,
        }
    }

    /// Every ARM7TDMI exception entry disables IRQ.
    pub fn disables_irq(self) -> (r: bool)
        ensures
            r,
    {
        true
    }

    /// Reset and FIQ disable FIQ; the other exceptions keep CPSR.F.
    pub fn disables_fiq(self) -> (r: bool)
        ensures
            r == exception_disables_fiq(self),
    {
        matches!(self, Exception::Reset | Exception::Fiq)
    }
}

} // verus!
