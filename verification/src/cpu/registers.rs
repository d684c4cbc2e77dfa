use vstd::prelude::*;

use super::cpsr::Cpsr;
use super::mode::{mode_from_field, CpuMode};

verus! {

/// Why the current mode has no saved program status register.
#[derive(Debug, Clone, Copy, PartialEq, Eq, Structural)]
pub enum SpsrAccessError {
    CurrentModeHasNoSpsr(CpuMode),
}

/// The mathematical register file: the shared registers, the banks, the
/// program counter, the CPSR and the five SPSRs, as plain values.
///
/// Banks of R13/R14 are indexed by `register_bank`; SPSRs by
/// `register_bank - 1`.
pub struct RegisterFile {
    pub low: Seq<u32>,
    pub high: Seq<u32>,
    pub fiq_high: Seq<u32>,
    pub sp: Seq<u32>,
    pub lr: Seq<u32>,
    pub pc: u32,
    pub cpsr: u32,
    pub spsr: Seq<u32>,
}

/// The R13/R14 bank that a mode uses: User and System share bank 0.
pub open spec fn register_bank(mode: CpuMode) -> int {
    match mode {
        CpuMode::User | CpuMode::System => 0,
        CpuMode::Fiq => 1,
        CpuMode::Irq => 2,
        CpuMode::Supervisor => 3,
        CpuMode::Abort => 4,
        CpuMode::Undefined => 5,
    }
}

impl RegisterFile {
    pub open spec fn well_sized(self) -> bool {
        &&& self.low.len() == 8
        &&& self.high.len() == 5
        &&& self.fiq_high.len() == 5
        &&& self.sp.len() == 6
        &&& self.lr.len() == 6
        &&& self.spsr.len() == 5
    }

    pub open spec fn mode(self) -> Option<CpuMode> {
        mode_from_field(self.cpsr & 0x1F)
    }

    /// The CPSR names a processor mode.
    pub open spec fn valid(self) -> bool {
        self.mode() is Some
    }

    pub open spec fn current_mode(self) -> CpuMode {
        self.mode().unwrap()
    }

    pub open spec fn bank(self) -> int {
        register_bank(self.current_mode())
    }

    /// The value of register `r` as the current mode sees it.
    pub open spec fn read(self, r: int) -> u32 {
        if r < 8 {
            self.low[r]
        } else if r < 13 {
            if self.current_mode() == CpuMode::Fiq {
                self.fiq_high[r - 8]
            } else {
                self.high[r - 8]
            }
        } else if r == 13 {
            self.sp[self.bank()]
        } else if r == 14 {
            self.lr[self.bank()]
        } else {
            self.pc
        }
    }

    /// The register file after writing `value` to register `r` of the
    /// current mode.
    pub open spec fn write(self, r: int, value: u32) -> RegisterFile {
        if r < 8 {
            RegisterFile { low: self.low.update(r, value), ..self }
        } else if r < 13 {
            if self.current_mode() == CpuMode::Fiq {
                RegisterFile { fiq_high: self.fiq_high.update(r - 8, value), ..self }
            } else {
                RegisterFile { high: self.high.update(r - 8, value), ..self }
            }
        } else if r == 13 {
            RegisterFile { sp: self.sp.update(self.bank(), value), ..self }
        } else if r == 14 {
            RegisterFile { lr: self.lr.update(self.bank(), value), ..self }
        } else {
            RegisterFile { pc: value, ..self }
        }
    }

    pub open spec fn with_pc(self, value: u32) -> RegisterFile {
        RegisterFile { pc: value, ..self }
    }

    pub open spec fn with_cpsr(self, value: u32) -> RegisterFile {
        RegisterFile { cpsr: value, ..self }
    }

    /// The SPSR of the current mode, if it has one.
    pub open spec fn spsr_value(self) -> Option<u32> {
        if self.bank() == 0 {
            None
        } else {
            Some(self.spsr[self.bank() - 1])
        }
    }

    /// The register file after writing the current mode's SPSR.
    pub open spec fn with_spsr(self, value: u32) -> RegisterFile {
        RegisterFile { spsr: self.spsr.update(self.bank() - 1, value), ..self }
    }
}

/// Reading a register after writing it gives the written value; the
/// other registers of the mode keep their values and the mode is kept.
pub proof fn law_register_write_read(file: RegisterFile, r: int, s: int, value: u32)
    requires
        file.well_sized(),
        file.valid(),
        0 <= r < 16,
        0 <= s < 16,
    ensures
        file.write(r, value).read(r) == value,
        s != r ==> file.write(r, value).read(s) == file.read(s),
        file.write(r, value).cpsr == file.cpsr,
        file.write(r, value).well_sized(),
{
}

/// Registers that are banked per mode keep their values across a change
/// of mode: writing R13 in one mode does not change R13 of a mode with
/// another bank.
pub proof fn law_banked_registers_are_separate(file: RegisterFile, other_cpsr: u32, value: u32)
    requires
        file.well_sized(),
        file.valid(),
        file.with_cpsr(other_cpsr).valid(),
        file.bank() != file.with_cpsr(other_cpsr).bank(),
    ensures
        file.write(13, value).with_cpsr(other_cpsr).read(13) == file.with_cpsr(other_cpsr).read(13),
        file.write(14, value).with_cpsr(other_cpsr).read(14) == file.with_cpsr(other_cpsr).read(14),
{
}

/// The register file at reset: every register zero, Supervisor mode with
/// IRQ and FIQ disabled in the CPSR and in every SPSR.
pub open spec fn reset_register_file() -> RegisterFile {
    RegisterFile {
        low: Seq::new(8, |i: int| 0u32),
        high: Seq::new(5, |i: int| 0u32),
        fiq_high: Seq::new(5, |i: int| 0u32),
        sp: Seq::new(6, |i: int| 0u32),
        lr: Seq::new(6, |i: int| 0u32),
        pc: 0,
        cpsr: 0xD3,
        spsr: Seq::new(5, |i: int| 0xD3u32),
    }
}

#[derive(Debug, Clone, Copy)]
pub struct Registers {
    low: [u32; 8],
    high: [u32; 5],
    fiq_high: [u32; 5],
    sp: [u32; 6],
    lr: [u32; 6],
    pc: u32,
    cpsr: Cpsr,
    spsr: [u32; 5],
}

impl View for Registers {
    type V = RegisterFile;

    closed spec fn view(&self) -> RegisterFile {
        RegisterFile {
            low: self.low@,
            high: self.high@,
            fiq_high: self.fiq_high@,
            sp: self.sp@,
            lr: self.lr@,
            pc: self.pc,
            cpsr: self.cpsr@,
            spsr: self.spsr@,
        }
    }
}

impl Registers {
    pub const SP: usize = 13;
    pub const LR: usize = 14;
    pub const PC: usize = 15;

    /// Every register file has its banks at their fixed sizes, as the
    /// register laws ask of their inputs.
    pub proof fn lemma_well_sized(&self)
        ensures
            self@.well_sized(),
    {
    }

    /// All registers zero, PC zero, CPSR and every SPSR at the reset
    /// value (Supervisor, IRQ and FIQ disabled).
    pub fn new() -> (r: Registers)
        ensures
            r@.low == Seq::new(8, |i: int| 0u32),
            r@.high == Seq::new(5, |i: int| 0u32),
            r@.fiq_high == Seq::new(5, |i: int| 0u32),
            r@.sp == Seq::new(6, |i: int| 0u32),
            r@.lr == Seq::new(6, |i: int| 0u32),
            r@.pc == 0,
            r@.cpsr == 0xD3,
            r@.spsr == Seq::new(5, |i: int| 0xD3u32),
            r@ == reset_register_file(),
            r@.current_mode() == CpuMode::Supervisor,
            r@.valid(),
    {
        let r = Registers {
            low: [0; 8],
            high: [0; 5],
            fiq_high: [0; 5],
            sp: [0; 6],
            lr: [0; 6],
            pc: 0,
            cpsr: Cpsr::new(),
            spsr: [0xD3; 5],
        };
        proof {
            crate::bits::lemma_u32_set_clear();
        }
        assert(r@.low =~= Seq::new(8, |i: int| 0u32));
        assert(r@.high =~= Seq::new(5, |i: int| 0u32));
        assert(r@.fiq_high =~= Seq::new(5, |i: int| 0u32));
        assert(r@.sp =~= Seq::new(6, |i: int| 0u32));
        assert(r@.lr =~= Seq::new(6, |i: int| 0u32));
        assert(r@.spsr =~= Seq::new(5, |i: int| 0xD3u32));
        r
    }

    /// The current processor mode. The CPSR must name a mode.
    pub fn mode(&self) -> (r: CpuMode)
        requires
            self@.valid(),
        ensures
            r == self@.current_mode(),
    {
        match self.cpsr.mode() {
            Ok(mode) => mode,
            Err(_) => CpuMode::User,
        }
    }

    fn bank(&self) -> (r: usize)
        requires
            self@.valid(),
        ensures
            r == self@.bank(),
            r < 6,
    {
        match self.mode() {
            CpuMode::User | CpuMode::System => 0,
            CpuMode::Fiq => 1,
            CpuMode::Irq => 2,
            CpuMode::Supervisor => 3,
            CpuMode::Abort => 4,
            CpuMode::Undefined => 5,
        }
    }

    /// Reads register `register` of the current mode; only R8-R14 need
    /// the CPSR to name a mode.
    pub fn read(&self, register: usize) -> (r: u32)
        requires
            register < 16,
            register < 8 || register == 15 || self@.valid(),
        ensures
            r == self@.read(register as int),
    {
        if register < 8 {
            self.low[register]
        } else if register < 13 {
            if self.mode() == CpuMode::Fiq {
                self.fiq_high[register - 8]
            } else {
                self.high[register - 8]
            }
        } else if register == 13 {
            self.sp[self.bank()]
        } else if register == 14 {
            self.lr[self.bank()]
        } else {
            self.pc
        }
    }

    /// Writes register `register` of the current mode; only R8-R14 need
    /// the CPSR to name a mode.
    pub fn write(&mut self, register: usize, value: u32)
        requires
            register < 16,
            register < 8 || register == 15 || old(self)@.valid(),
        ensures
            final(self)@ == old(self)@.write(register as int, value),
            final(self)@.cpsr == old(self)@.cpsr,
    {
        if register < 8 {
            self.low[register] = value;
        } else if register < 13 {
            if self.mode() == CpuMode::Fiq {
                self.fiq_high[register - 8] = value;
            } else {
                self.high[register - 8] = value;
            }
        } else if register == 13 {
            let bank = self.bank();
            self.sp[bank] = value;
        } else if register == 14 {
            let bank = self.bank();
            self.lr[bank] = value;
        } else {
            self.pc = value;
        }
    }

    pub fn cpsr(&self) -> (r: Cpsr)
        ensures
            r@ == self@.cpsr,
    {
        self.cpsr
    }

    /// Gives mutable access to the CPSR.
    pub fn cpsr_mut(&mut self) -> (r: &mut Cpsr)
        ensures
            (*r)@ == old(self)@.cpsr,
            final(self)@ == old(self)@.with_cpsr(final(r)@),
    {
        &mut self.cpsr
    }

    /// Replaces the CPSR.
    pub fn set_cpsr(&mut self, value: Cpsr)
        ensures
            final(self)@ == old(self)@.with_cpsr(value@),
    {
        self.cpsr = value;
    }

    pub fn set_cpsr_raw(&mut self, value: u32)
        ensures
            final(self)@ == old(self)@.with_cpsr(value),
    {
        self.cpsr.set_raw(value);
    }

    pub fn pc(&self) -> (r: u32)
        ensures
            r == self@.pc,
    {
        self.pc
    }

    pub fn set_pc(&mut self, value: u32)
        ensures
            final(self)@ == old(self)@.with_pc(value),
    {
        self.pc = value;
    }

    /// The SPSR of the current mode; User and System have none.
    pub fn spsr(&self) -> (r: Result<Cpsr, SpsrAccessError>)
        requires
            self@.valid(),
        ensures
            match self@.spsr_value() {
                Some(v) => r matches Ok(psr) && psr@ == v,
                None => r == Err::<Cpsr, SpsrAccessError>(
                    SpsrAccessError::CurrentModeHasNoSpsr(self@.current_mode()),
                ),
            },
    {
        let bank = self.bank();
        if bank == 0 {
            Err(SpsrAccessError::CurrentModeHasNoSpsr(self.mode()))
        } else {
            Ok(Cpsr::from_raw(self.spsr[bank - 1]))
        }
    }

    /// Writes the SPSR of the current mode; User and System have none
    /// and are left unchanged.
    pub fn set_spsr(&mut self, value: Cpsr) -> (r: Result<(), SpsrAccessError>)
        requires
            old(self)@.valid(),
        ensures
            old(self)@.bank() == 0 ==> r == Err::<(), SpsrAccessError>(
                SpsrAccessError::CurrentModeHasNoSpsr(old(self)@.current_mode()),
            ) && final(self)@ == old(self)@,
            old(self)@.bank() != 0 ==> r is Ok && final(self)@ == old(self)@.with_spsr(value@),
    {
        let bank = self.bank();
        if bank == 0 {
            Err(SpsrAccessError::CurrentModeHasNoSpsr(self.mode()))
        } else {
            self.spsr[bank - 1] = value.raw();
            Ok(())
        }
    }

    pub fn set_spsr_raw(&mut self, value: u32) -> (r: Result<(), SpsrAccessError>)
        requires
            old(self)@.valid(),
        ensures
            old(self)@.bank() == 0 ==> r == Err::<(), SpsrAccessError>(
                SpsrAccessError::CurrentModeHasNoSpsr(old(self)@.current_mode()),
            ) && final(self)@ == old(self)@,
            old(self)@.bank() != 0 ==> r is Ok && final(self)@ == old(self)@.with_spsr(value),
    {
        self.set_spsr(Cpsr::from_raw(value))
    }
}

} // verus!
