use vstd::prelude::*;

use crate::bus::Bus;

use super::arm::data_processing::DataProcessingDecodeError;
use super::arm::decoder::{condition, condition_holds, spec_condition};
use super::arm::executor::{arm_executed, execute_arm};
use super::arm::instruction_decoder::{decode_arm, spec_decode_arm, ArmDecodeError};
use super::arm::status_register::{decode_status_register, spec_decode_status_register};
use super::arm::status_register_executor::{execute_status_register, spec_execute_status_register};
use super::cpsr::{bit_set, carry_mask, irq_mask, negative_mask, overflow_mask, thumb_mask, zero_mask};
use super::exception::Exception;
use super::exception_handler::{enter_exception, entered};
use super::registers::{reset_register_file, RegisterFile, Registers};
use super::state::CpuState;
use super::thumb::decoder::{decode_thumb, spec_decode_thumb};
use super::thumb::executor::{execute_thumb, thumb_executed};

verus! {

/// The processor as plain values: its register file and whether it is
/// halted.
pub struct CpuView {
    pub registers: RegisterFile,
    pub halted: bool,
}

/// The ARM7TDMI core.
#[derive(Debug)]
pub struct Cpu {
    registers: Registers,
    halted: bool,
}

impl View for Cpu {
    type V = CpuView;

    closed spec fn view(&self) -> CpuView {
        CpuView { registers: self.registers@, halted: self.halted }
    }
}

/// The instruction set that the T bit of `psr` selects.
pub open spec fn state_of(psr: u32) -> CpuState {
    if bit_set(psr, thumb_mask()) {
        CpuState::Thumb
    } else {
        CpuState::Arm
    }
}

/// Whether `condition` holds for the flags of the PSR word `psr`.
pub open spec fn condition_holds_in(condition: super::arm::decoder::ArmCondition, psr: u32) -> bool {
    condition_holds(
        condition,
        bit_set(psr, negative_mask()),
        bit_set(psr, zero_mask()),
        bit_set(psr, carry_mask()),
        bit_set(psr, overflow_mask()),
    )
}

/// An IRQ is taken when the bus raises the IRQ line and the CPSR does
/// not mask it.
pub open spec fn irq_taken(registers: RegisterFile, bus: Bus) -> bool {
    bus.io.interrupts.spec_irq_line() && !bit_set(registers.cpsr, irq_mask())
}

/// One ARM instruction: fetched at the PC, which then advances by four;
/// executed when its condition holds. A PSR transfer, which the
/// data-processing decoder reports as special, runs as MRS or MSR; a
/// word that does not decode is skipped.
pub open spec fn arm_stepped(registers: RegisterFile, bus: Bus, new_registers: RegisterFile, new_bus: Bus) -> bool {
    let address = registers.pc;
    let raw = bus.spec_read32(address);
    let advanced = registers.with_pc(address.wrapping_add(4));
    if !condition_holds_in(spec_condition(raw), registers.cpsr) {
        new_registers == advanced && new_bus == bus
    } else {
        match spec_decode_arm(raw) {
            Ok(instruction) => exists|r| arm_executed(advanced, bus, new_registers, new_bus, instruction, address, r),
            Err(ArmDecodeError::DataProcessing(DataProcessingDecodeError::Special)) => match spec_decode_status_register(raw) {
                Ok(s) => new_registers == spec_execute_status_register(advanced, s).0 && new_bus == bus,
                Err(_) => new_registers == advanced && new_bus == bus,
            },
            Err(_) => new_registers == advanced && new_bus == bus,
        }
    }
}

/// One Thumb instruction: fetched at the PC, which then advances by two,
/// and executed; a halfword that does not decode is skipped.
pub open spec fn thumb_stepped(registers: RegisterFile, bus: Bus, new_registers: RegisterFile, new_bus: Bus) -> bool {
    let address = registers.pc;
    let advanced = registers.with_pc(address.wrapping_add(2));
    match spec_decode_thumb(bus.spec_read16(address)) {
        Ok(instruction) => exists|r| thumb_executed(advanced, bus, new_registers, new_bus, instruction, address, r),
        Err(_) => new_registers == advanced && new_bus == bus,
    }
}

/// One scheduling step of the core. A halted core stays halted until an
/// enabled interrupt is pending; then it wakes, takes the IRQ if the line
/// is raised and unmasked (returning to the next instruction), or else
/// executes one instruction of its current state. Each step is one cycle.
pub open spec fn cpu_stepped(old_cpu: CpuView, bus: Bus, new_cpu: CpuView, new_bus: Bus, cycles: u32) -> bool {
    let registers = old_cpu.registers;
    &&& cycles == 1
    &&& if old_cpu.halted && bus.io.interrupts.spec_enabled_pending() == 0 {
        new_cpu == old_cpu && new_bus == bus
    } else {
        &&& !new_cpu.halted
        &&& if irq_taken(registers, bus) {
            new_cpu.registers == entered(registers, Exception::Irq, registers.pc.wrapping_add(4))
                && new_bus == bus
        } else if state_of(registers.cpsr) == CpuState::Thumb {
            thumb_stepped(registers, bus, new_cpu.registers, new_bus)
        } else {
            arm_stepped(registers, bus, new_cpu.registers, new_bus)
        }
    }
}

impl Cpu {
    /// A core fresh from reset: Supervisor mode, ARM state, not halted.
    pub fn new() -> (r: Self)
        ensures
            r@.registers == reset_register_file(),
            !r@.halted,
            r@.registers.valid(),
    {
        Cpu { registers: Registers::new(), halted: false }
    }

    /// Returns the core to its reset state.
    pub fn reset(&mut self)
        ensures
            final(self)@.registers == reset_register_file(),
            !final(self)@.halted,
            final(self)@.registers.valid(),
    {
        self.registers = Registers::new();
        self.registers.set_pc(0);
        self.halted = false;
    }

    pub fn registers(&self) -> (r: &Registers)
        ensures
            r@ == self@.registers,
    {
        &self.registers
    }

    pub fn registers_mut(&mut self) -> (r: &mut Registers)
        ensures
            (*r)@ == old(self)@.registers,
            final(self)@.registers == final(r)@,
            final(self)@.halted == old(self)@.halted,
    {
        &mut self.registers
    }

    /// The instruction set of the CPSR's T bit.
    pub fn state(&self) -> (r: CpuState)
        ensures
            r == state_of(self@.registers.cpsr),
    {
        if self.registers.cpsr().thumb_state() {
            CpuState::Thumb
        } else {
            CpuState::Arm
        }
    }

    pub fn is_halted(&self) -> (r: bool)
        ensures
            r == self@.halted,
    {
        self.halted
    }

    /// Enters the HALT low-power state.
    pub fn enter_halt(&mut self)
        ensures
            final(self)@.registers == old(self)@.registers,
            final(self)@.halted,
    {
        self.halted = true;
    }

    /// Runs one scheduling step and returns the cycles it took.
    pub fn step(&mut self, bus: &mut Bus) -> (cycles: u32)
        requires
            old(self)@.registers.valid(),
            old(bus).wf(),
        ensures
            final(self)@.registers.valid(),
            final(bus).wf(),
            cpu_stepped(old(self)@, *old(bus), final(self)@, *final(bus), cycles),
    {
        if self.halted {
            if !bus.halt_wake_requested() {
                return 1;
            }
            self.halted = false;
        }
        if bus.irq_line() && !self.registers.cpsr().irq_disabled() {
            let return_address = self.registers.pc().wrapping_add(4);
            let _ = enter_exception(&mut self.registers, Exception::Irq, return_address);
            return 1;
        }
        if self.registers.cpsr().thumb_state() {
            self.step_thumb(bus)
        } else {
            self.step_arm(bus)
        }
    }

    fn step_thumb(&mut self, bus: &mut Bus) -> (cycles: u32)
        requires
            old(self)@.registers.valid(),
            old(bus).wf(),
        ensures
            cycles == 1,
            final(self)@.registers.valid(),
            final(self)@.halted == old(self)@.halted,
            final(bus).wf(),
            thumb_stepped(old(self)@.registers, *old(bus), final(self)@.registers, *final(bus)),
    {
        let address = self.registers.pc();
        let raw = bus.read16(address);
        self.registers.set_pc(address.wrapping_add(2));
        let ghost advanced = self@.registers;
        match decode_thumb(raw) {
            Ok(instruction) => {
                let r = execute_thumb(&mut self.registers, bus, &instruction, address);
                assert(thumb_executed(advanced, *old(bus), self@.registers, *bus, instruction, address, r));
                assert(advanced == old(self)@.registers.with_pc(old(self)@.registers.pc.wrapping_add(2)));
                assert(raw == old(bus).spec_read16(old(self)@.registers.pc));
                assert(exists|x| thumb_executed(old(self)@.registers.with_pc(old(self)@.registers.pc.wrapping_add(2)), *old(bus), self@.registers, *bus, instruction, address, x));
            },
            Err(_) => {},
        }
        1
    }

    fn step_arm(&mut self, bus: &mut Bus) -> (cycles: u32)
        requires
            old(self)@.registers.valid(),
            old(bus).wf(),
        ensures
            cycles == 1,
            final(self)@.registers.valid(),
            final(self)@.halted == old(self)@.halted,
            final(bus).wf(),
            arm_stepped(old(self)@.registers, *old(bus), final(self)@.registers, *final(bus)),
    {
        let address = self.registers.pc();
        let raw = bus.read32(address);
        let passed = condition(raw).evaluate(self.registers.cpsr());
        assert(passed == condition_holds_in(spec_condition(raw), old(self)@.registers.cpsr));
        self.registers.set_pc(address.wrapping_add(4));
        let ghost advanced = self@.registers;
        if !passed {
            return 1;
        }
        match decode_arm(raw) {
            Ok(instruction) => {
                let r = execute_arm(&mut self.registers, bus, &instruction, address);
                assert(arm_executed(advanced, *old(bus), self@.registers, *bus, instruction, address, r));
                assert(advanced == old(self)@.registers.with_pc(old(self)@.registers.pc.wrapping_add(4)));
                assert(raw == old(bus).spec_read32(old(self)@.registers.pc));
                assert(spec_decode_arm(raw) == Ok::<super::arm::instruction::ArmInstruction, ArmDecodeError>(instruction));
                assert(exists|x| arm_executed(old(self)@.registers.with_pc(old(self)@.registers.pc.wrapping_add(4)), *old(bus), self@.registers, *bus, instruction, address, x));
                assert(arm_stepped(old(self)@.registers, *old(bus), self@.registers, *bus));
            },
            Err(ArmDecodeError::DataProcessing(DataProcessingDecodeError::Special)) => {
                match decode_status_register(raw) {
                    Ok(transfer) => {
                        proof {
                            crate::bits::lemma_u32_fields();
                        }
                        let _ = execute_status_register(&mut self.registers, transfer);
                        assert(arm_stepped(old(self)@.registers, *old(bus), self@.registers, *bus));
                    },
                    Err(_) => {
                        assert(arm_stepped(old(self)@.registers, *old(bus), self@.registers, *bus));
                    },
                }
            },
            Err(_) => {
                assert(arm_stepped(old(self)@.registers, *old(bus), self@.registers, *bus));
            },
        }
        1
    }
}

} // verus!
