use vstd::prelude::*;

verus! {

/// The fourteen GBA interrupt sources; each owns one bit of IE and IF.
#[derive(Debug, Clone, Copy, PartialEq, Eq, Structural)]
pub enum InterruptSource {
    VBlank,
    HBlank,
    VCounterMatch,
    Timer0,
    Timer1,
    Timer2,
    Timer3,
    Serial,
    Dma0,
    Dma1,
    Dma2,
    Dma3,
    Keypad,
    GamePak,
}

/// The IE/IF bit of each source.
pub open spec fn source_mask(source: InterruptSource) -> u16 {
    match source {
        InterruptSource::VBlank => 0x0001,
        InterruptSource::HBlank => 0x0002,
        InterruptSource::VCounterMatch => 0x0004,
        InterruptSource::Timer0 => 0x0008,
        InterruptSource::Timer1 => 0x0010,
        InterruptSource::Timer2 => 0x0020,
        InterruptSource::Timer3 => 0x0040,
        InterruptSource::Serial => 0x0080,
        InterruptSource::Dma0 => 0x0100,
        InterruptSource::Dma1 => 0x0200,
        InterruptSource::Dma2 => 0x0400,
        InterruptSource::Dma3 => 0x0800,
        InterruptSource::Keypad => 0x1000,
        InterruptSource::GamePak => 0x2000,
    }
}

impl InterruptSource {
    pub fn mask(self) -> (r: u16)
        ensures
            r == source_mask(self),
    {
        match self {
            InterruptSource::VBlank => 0x0001,
            InterruptSource::HBlank => 0x0002,
            InterruptSource::VCounterMatch => 0x0004,
            InterruptSource::Timer0 => 0x0008,
            InterruptSource::Timer1 => 0x0010,
            InterruptSource::Timer2 => 0x0020,
            InterruptSource::Timer3 => 0x0040,
            InterruptSource::Serial => 0x0080,
            InterruptSource::Dma0 => 0x0100,
            InterruptSource::Dma1 => 0x0200,
            InterruptSource::Dma2 => 0x0400,
            InterruptSource::Dma3 => 0x0800,
            InterruptSource::Keypad => 0x1000,
            InterruptSource::GamePak => 0x2000,
        }
    }
}

/// IE, IF and IME.
#[derive(Debug, Clone, Copy, PartialEq, Eq, Structural)]
pub struct InterruptController {
    pub interrupt_enable: u16,
    pub interrupt_flags: u16,
    pub master_enable: bool,
}

impl InterruptController {
    pub const SUPPORTED_MASK: u16 = 0x3FFF;

    /// The controller after writing IE.
    pub open spec fn spec_set_interrupt_enable(self, value: u16) -> Self {
        InterruptController { interrupt_enable: value & 0x3FFF, ..self }
    }

    /// The controller after raising the flags of `mask`.
    pub open spec fn spec_request_mask(self, mask: u16) -> Self {
        InterruptController { interrupt_flags: self.interrupt_flags | (mask & 0x3FFF), ..self }
    }

    /// The controller after writing `mask` to IF: ones clear, zeros keep.
    pub open spec fn spec_acknowledge(self, mask: u16) -> Self {
        InterruptController { interrupt_flags: self.interrupt_flags & !(mask & 0x3FFF), ..self }
    }

    pub open spec fn spec_enabled_pending(self) -> u16 {
        self.interrupt_enable & self.interrupt_flags & 0x3FFF
    }

    pub open spec fn spec_irq_line(self) -> bool {
        self.master_enable && self.spec_enabled_pending() != 0
    }

    pub fn new() -> (r: Self)
        ensures
            r == (InterruptController { interrupt_enable: 0, interrupt_flags: 0, master_enable: false }),
    {
        InterruptController { interrupt_enable: 0, interrupt_flags: 0, master_enable: false }
    }

    pub fn interrupt_enable(&self) -> (r: u16)
        ensures
            r == self.interrupt_enable,
    {
        self.interrupt_enable
    }

    /// Writes IE; unsupported bits read back as zero.
    pub fn set_interrupt_enable(&mut self, value: u16)
        ensures
            *final(self) == old(self).spec_set_interrupt_enable(value),
    {
        self.interrupt_enable = value & 0x3FFF;
    }

    pub fn interrupt_flags(&self) -> (r: u16)
        ensures
            r == self.interrupt_flags,
    {
        self.interrupt_flags
    }

    pub fn master_enable(&self) -> (r: bool)
        ensures
            r == self.master_enable,
    {
        self.master_enable
    }

    /// Writes IME: only bit 0 counts.
    pub fn set_master_enable(&mut self, value: u16)
        ensures
            *final(self) == (InterruptController { master_enable: value & 1 != 0, ..*old(self) }),
    {
        self.master_enable = value & 1 != 0;
    }

    pub fn request(&mut self, source: InterruptSource)
        ensures
            *final(self) == old(self).spec_request_mask(source_mask(source)),
    {
        self.request_mask(source.mask());
    }

    pub fn request_mask(&mut self, mask: u16)
        ensures
            *final(self) == old(self).spec_request_mask(mask),
    {
        self.interrupt_flags = self.interrupt_flags | (mask & 0x3FFF);
    }

    /// IF semantics: writing a one clears that flag, a zero keeps it.
    pub fn acknowledge(&mut self, mask: u16)
        ensures
            *final(self) == old(self).spec_acknowledge(mask),
    {
        self.interrupt_flags = self.interrupt_flags & !(mask & 0x3FFF);
    }

    pub fn enabled_pending(&self) -> (r: u16)
        ensures
            r == self.spec_enabled_pending(),
    {
        self.interrupt_enable & self.interrupt_flags & 0x3FFF
    }

    /// The IRQ line: IME set and some source both enabled and pending.
    pub fn irq_line(&self) -> (r: bool)
        ensures
            r == self.spec_irq_line(),
    {
        self.master_enable && self.enabled_pending() != 0
    }

    pub fn reset(&mut self)
        ensures
            *final(self) == (InterruptController {
                interrupt_enable: 0,
                interrupt_flags: 0,
                master_enable: false,
            }),
    {
        *self = InterruptController::new();
    }
}

/// Raising a source sets its IF bit and keeps the others; acknowledging a
/// mask clears exactly the supported bits written as one and keeps the
/// rest.
pub proof fn law_request_and_acknowledge(controller: InterruptController, mask: u16, other: u16)
    requires
        other & (mask & 0x3FFF) == 0,
    ensures
        controller.spec_request_mask(mask).interrupt_flags & (mask & 0x3FFF) == mask & 0x3FFF,
        controller.spec_request_mask(mask).interrupt_flags & other == controller.interrupt_flags
            & other,
        controller.spec_acknowledge(mask).interrupt_flags & (mask & 0x3FFF) == 0,
        controller.spec_acknowledge(mask).interrupt_flags & other == controller.interrupt_flags
            & other,
{
    crate::bits::lemma_u16_set_clear();
}

} // verus!
