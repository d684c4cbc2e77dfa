use vstd::prelude::*;

use crate::bus::keypad::key_mask;
use crate::bus::{
    bus_power_on, bus_reset, bus_ticked, dma_ran, memories_power_on, keys_set, rom_loaded, CartridgeSave, Video, Bus, BusLoadError, CartridgeSaveLoadError, CartridgeSaveType,
    InterruptController, InterruptSource, IoRegisters, Key, PowerControl, PowerStateRequest,
};
use crate::cpu::processor::cpu_stepped;
use crate::cpu::registers::reset_register_file;
use crate::cpu::{Cpu, CpuState, CpuView, Registers};

verus! {

/// The whole machine as plain values.
pub struct GbaView {
    pub cpu: CpuView,
    pub bus: Bus,
    pub elapsed_cycles: u64,
    pub stopped: bool,
}

/// The Game Boy Advance: the core, the bus and the host-side scheduler.
#[derive(Debug)]
pub struct Gba {
    cpu: Cpu,
    bus: Bus,
    /// Machine cycles since construction or reset.
    elapsed_cycles: u64,
    /// Stops the host loop; unrelated to the core's HALT state.
    stopped: bool,
}

impl View for Gba {
    type V = GbaView;

    closed spec fn view(&self) -> GbaView {
        GbaView {
            cpu: self.cpu@,
            bus: self.bus,
            elapsed_cycles: self.elapsed_cycles,
            stopped: self.stopped,
        }
    }
}

/// The core names a mode and the bus is well formed.
pub open spec fn machine_wf(machine: GbaView) -> bool {
    machine.cpu.registers.valid() && machine.bus.wf()
}

/// Cycles that a halted core with nothing to wake it spends per step.
pub const HALT_QUANTUM: u32 = 32;

/// What one scheduling step runs before the clocks advance: a pending DMA
/// activation; or, for a halted core with nothing to wake it, an idle
/// quantum; or else one step of the core.
pub open spec fn operation_ran(before: GbaView, cpu: CpuView, bus: Bus, cycles: u32) -> bool {
    if before.bus.io.dma.has_pending() {
        cpu == before.cpu && exists|result| #[trigger] dma_ran(before.bus, bus, result) && result.cycles == cycles
    } else if before.cpu.halted && before.bus.io.interrupts.spec_enabled_pending() == 0 {
        cpu == before.cpu && bus == before.bus && cycles == HALT_QUANTUM
    } else {
        cpu_stepped(before.cpu, before.bus, cpu, bus, cycles)
    }
}

/// A HALTCNT write made during the operation takes effect after it: HALT
/// and STOP both halt the core, and the request is consumed.
pub open spec fn power_applied(cpu: CpuView, bus: Bus, new_cpu: CpuView, new_bus: Bus) -> bool {
    match bus.io.power.pending_request {
        None => new_cpu == cpu && new_bus == bus,
        Some(_) => new_cpu == (CpuView { halted: true, ..cpu }) && new_bus == (Bus {
            io: IoRegisters {
                power: PowerControl { pending_request: None, ..bus.io.power },
                ..bus.io
            },
            ..bus
        }),
    }
}

/// One scheduling step of the machine: nothing while stopped; otherwise
/// the operation, the clocks for its cycles, the power request, and the
/// cycle count.
pub open spec fn machine_stepped(before: GbaView, after: GbaView, cycles: u32) -> bool {
    if before.stopped {
        after == before && cycles == 0
    } else {
        exists|cpu: CpuView, bus: Bus, ticked: Bus|
            #![trigger operation_ran(before, cpu, bus, cycles), bus_ticked(bus, ticked, cycles)]
            operation_ran(before, cpu, bus, cycles) && bus_ticked(bus, ticked, cycles) && power_applied(
                cpu,
                ticked,
                after.cpu,
                after.bus,
            ) && after.elapsed_cycles == before.elapsed_cycles.wrapping_add(cycles as u64)
                && !after.stopped
    }
}

/// The machine with its finished frame taken by the host.
pub open spec fn frame_taken(machine: GbaView) -> GbaView {
    GbaView {
        bus: Bus {
            io: IoRegisters {
                video: Video { frame_ready: false, ..machine.bus.io.video },
                ..machine.bus.io
            },
            ..machine.bus
        },
        ..machine
    }
}

/// `after` is `before` after `n` scheduling steps that took `total`
/// cycles, summed with saturation; each step began with fewer than
/// `bound` cycles spent.
pub open spec fn steps_run(before: GbaView, after: GbaView, n: nat, total: u64, bound: int) -> bool
    decreases n,
{
    if n == 0 {
        after == before && total == 0
    } else {
        exists|last: (GbaView, u64, u32)|
            #[trigger] machine_stepped(last.0, after, last.2) && steps_run(
                before,
                last.0,
                (n - 1) as nat,
                last.1,
                bound,
            ) && last.1 < bound && total == last.1.saturating_add(last.2 as u64)
    }
}

/// `after` is `before` after `n` steps, each followed by the host taking
/// the finished frame; `seen` says whether the last step finished one.
/// Each step began with no frame seen and fewer than `bound` cycles
/// spent; `total` sums the steps' cycles with saturation.
pub open spec fn frame_steps_run(
    before: GbaView,
    after: GbaView,
    n: nat,
    total: u64,
    seen: bool,
    bound: int,
) -> bool
    decreases n,
{
    if n == 0 {
        after == before && total == 0 && !seen
    } else {
        exists|last: (GbaView, GbaView, u64, u32, bool)|
            #[trigger] machine_stepped(last.0, last.1, last.3) && frame_steps_run(
                before,
                last.0,
                (n - 1) as nat,
                last.2,
                last.4,
                bound,
            ) && !last.4 && last.2 < bound && total == last.2.saturating_add(last.3 as u64) && seen
                == last.1.bus.io.video.frame_ready && after == frame_taken(last.1)
    }
}

proof fn lemma_step_extends_run(
    before: GbaView,
    middle: GbaView,
    after: GbaView,
    n: nat,
    spent: u64,
    cycles: u32,
    bound: int,
)
    requires
        steps_run(before, middle, n, spent, bound),
        machine_stepped(middle, after, cycles),
        spent < bound,
    ensures
        steps_run(before, after, n + 1, spent.saturating_add(cycles as u64), bound),
{
    let last = (middle, spent, cycles);
    assert(((n + 1) - 1) as nat == n);
    assert(machine_stepped(last.0, after, last.2));
}

proof fn lemma_step_extends_frame_run(
    before: GbaView,
    middle: GbaView,
    stepped: GbaView,
    n: nat,
    spent: u64,
    cycles: u32,
    bound: int,
)
    requires
        frame_steps_run(before, middle, n, spent, false, bound),
        machine_stepped(middle, stepped, cycles),
        spent < bound,
    ensures
        frame_steps_run(
            before,
            frame_taken(stepped),
            n + 1,
            spent.saturating_add(cycles as u64),
            stepped.bus.io.video.frame_ready,
            bound,
        ),
{
    let last = (middle, stepped, spent, cycles, false);
    assert(((n + 1) - 1) as nat == n);
    assert(machine_stepped(last.0, last.1, last.3));
}

impl Gba {
    /// An empty machine; BIOS and ROM are loaded separately.
    pub fn new() -> (r: Self)
        ensures
            machine_wf(r@),
            r@.elapsed_cycles == 0,
            !r@.stopped,
            !r@.cpu.halted,
            r@.cpu.registers == reset_register_file(),
            bus_power_on(r@.bus),
    {
        Gba { cpu: Cpu::new(), bus: Bus::new(), elapsed_cycles: 0, stopped: false }
    }

    /// A machine with `bios` and `rom` loaded.
    pub fn with_images(bios: &[u8], rom: &[u8]) -> (r: Result<Self, BusLoadError>)
        ensures
            r is Ok <==> (bios@.len() == 0x4000 && rom@.len() <= 0x0200_0000),
            bios@.len() != 0x4000 ==> r == Err::<Self, BusLoadError>(
                BusLoadError::InvalidBiosSize { expected: 0x4000, actual: bios@.len() as usize },
            ),
            bios@.len() == 0x4000 && rom@.len() > 0x0200_0000 ==> r == Err::<Self, BusLoadError>(
                BusLoadError::RomTooLarge { maximum: 0x0200_0000, actual: rom@.len() as usize },
            ),
            r matches Ok(gba) ==> {
                &&& machine_wf(gba@)
                &&& gba@.bus.bios@ == bios@
                &&& gba@.elapsed_cycles == 0
                &&& !gba@.stopped
                &&& !gba@.cpu.halted
                &&& gba@.cpu.registers == reset_register_file()
                &&& memories_power_on(gba@.bus)
                // the ROM with the save chip and GPIO port it names, as
                // `load_rom` installs them
                &&& rom_loaded(gba@.bus, gba@.bus, rom@)
            },
    {
        let mut gba = Self::new();
        match gba.load_bios(bios) {
            Ok(()) => {},
            Err(error) => {
                return Err(error);
            },
        }
        match gba.load_rom(rom) {
            Ok(()) => {},
            Err(error) => {
                return Err(error);
            },
        }
        Ok(gba)
    }

    /// Loads the 16 KiB BIOS image.
    pub fn load_bios(&mut self, bios: &[u8]) -> (r: Result<(), BusLoadError>)
        requires
            machine_wf(old(self)@),
        ensures
            machine_wf(final(self)@),
            final(self)@.cpu == old(self)@.cpu,
            final(self)@.elapsed_cycles == old(self)@.elapsed_cycles,
            final(self)@.stopped == old(self)@.stopped,
            bios@.len() == 0x4000 ==> r is Ok && final(self)@.bus == (Bus {
                bios: final(self)@.bus.bios,
                ..old(self)@.bus
            }) && final(self)@.bus.bios@ == bios@,
            bios@.len() != 0x4000 ==> r == Err::<(), BusLoadError>(
                BusLoadError::InvalidBiosSize { expected: 0x4000, actual: bios@.len() as usize },
            ) && final(self)@.bus == old(self)@.bus,
    {
        self.bus.load_bios(bios)
    }

    /// Loads the cartridge ROM image.
    pub fn load_rom(&mut self, rom: &[u8]) -> (r: Result<(), BusLoadError>)
        requires
            machine_wf(old(self)@),
        ensures
            machine_wf(final(self)@),
            final(self)@.cpu == old(self)@.cpu,
            final(self)@.elapsed_cycles == old(self)@.elapsed_cycles,
            final(self)@.stopped == old(self)@.stopped,
            rom@.len() <= 0x0200_0000 ==> r is Ok && rom_loaded(old(self)@.bus, final(self)@.bus, rom@),
            rom@.len() > 0x0200_0000 ==> r == Err::<(), BusLoadError>(
                BusLoadError::RomTooLarge { maximum: 0x0200_0000, actual: rom@.len() as usize },
            ) && final(self)@.bus == old(self)@.bus,
    {
        self.bus.load_rom(rom)
    }

    pub fn cartridge_save_type(&self) -> (r: CartridgeSaveType)
        ensures
            r == self@.bus.cartridge_save.spec_save_type(),
    {
        self.bus.cartridge_save_type()
    }

    pub fn cartridge_save_data(&self) -> (r: &[u8])
        ensures
            r@ == self@.bus.cartridge_save.cells(),
    {
        self.bus.cartridge_save_data()
    }

    /// Replaces the save contents; the length must be the chip's size, or
    /// for SRAM the legacy double size, whose first half is kept.
    pub fn load_cartridge_save(&mut self, data: &[u8]) -> (r: Result<(), CartridgeSaveLoadError>)
        requires
            machine_wf(old(self)@),
        ensures
            machine_wf(final(self)@),
            final(self)@.cpu == old(self)@.cpu,
            final(self)@.bus == (Bus { cartridge_save: final(self)@.bus.cartridge_save, ..old(self)@.bus }),
            r is Ok <==> crate::bus::cartridge_save::accepted_save_length(
                old(self)@.bus.cartridge_save.spec_save_type(),
                data@.len(),
            ),
            r is Ok ==> final(self)@.bus.cartridge_save.cells() == data@.take(
                crate::bus::cartridge_save::save_size(old(self)@.bus.cartridge_save.spec_save_type()) as int,
            ) && !final(self)@.bus.cartridge_save.dirty,
            r matches Err(e) ==> e.expected == crate::bus::cartridge_save::save_size(
                old(self)@.bus.cartridge_save.spec_save_type(),
            ) && e.actual == data@.len() && final(self)@.bus.cartridge_save.cells()
                == old(self)@.bus.cartridge_save.cells() && final(self)@.bus.cartridge_save.dirty
                == old(self)@.bus.cartridge_save.dirty,
    {
        self.bus.load_cartridge_save(data)
    }

    pub fn cartridge_save_dirty(&self) -> (r: bool)
        ensures
            r == self@.bus.cartridge_save.dirty,
    {
        self.bus.cartridge_save_dirty()
    }

    pub fn mark_cartridge_save_clean(&mut self)
        ensures
            final(self)@ == (GbaView {
                bus: Bus {
                    cartridge_save: CartridgeSave { dirty: false, ..old(self)@.bus.cartridge_save },
                    ..old(self)@.bus
                },
                ..old(self)@
            }),
    {
        self.bus.mark_cartridge_save_clean();
    }

    /// Resets the core and the bus and the counters; BIOS, ROM and save
    /// contents are kept.
    pub fn reset(&mut self)
        requires
            machine_wf(old(self)@),
        ensures
            machine_wf(final(self)@),
            final(self)@.elapsed_cycles == 0,
            !final(self)@.stopped,
            !final(self)@.cpu.halted,
            final(self)@.cpu.registers == reset_register_file(),
            bus_reset(old(self)@.bus, final(self)@.bus),
    {
        self.cpu.reset();
        self.bus.reset();
        self.elapsed_cycles = 0;
        self.stopped = false;
    }

    pub const SCREEN_WIDTH: usize = 240;

    pub const SCREEN_HEIGHT: usize = 160;

    pub fn framebuffer(&self) -> (r: &[u32])
        ensures
            r@ == self@.bus.io.video.framebuffer@,
    {
        self.bus.framebuffer()
    }

    pub fn frame_ready(&self) -> (r: bool)
        ensures
            r == self@.bus.io.video.frame_ready,
    {
        self.bus.frame_ready()
    }

    pub fn take_frame_ready(&mut self) -> (r: bool)
        requires
            machine_wf(old(self)@),
        ensures
            machine_wf(final(self)@),
            r == old(self)@.bus.io.video.frame_ready,
            final(self)@ == (GbaView {
                bus: Bus {
                    io: IoRegisters {
                        video: Video { frame_ready: false, ..old(self)@.bus.io.video },
                        ..old(self)@.bus.io
                    },
                    ..old(self)@.bus
                },
                ..old(self)@
            }),
    {
        self.bus.take_frame_ready()
    }

    pub fn frame_number(&self) -> (r: u64)
        ensures
            r == self@.bus.io.video.frame_number,
    {
        self.bus.frame_number()
    }

    /// Advances the machine by one scheduling unit: a pending DMA runs
    /// before the core, a halted core with nothing to wake it idles for a
    /// quantum, and otherwise the core takes an IRQ or runs an instruction.
    /// The peripherals then advance by the cycles spent, and a HALTCNT
    /// write takes effect. Returns the cycles.
    #[verifier::spinoff_prover]
    pub fn step(&mut self) -> (cycles: u32)
        requires
            machine_wf(old(self)@),
        ensures
            machine_wf(final(self)@),
            machine_stepped(old(self)@, final(self)@, cycles),
            !old(self)@.stopped ==> cycles >= 1,
    {
        if self.stopped {
            return 0;
        }
        let ghost before = self@;
        let cycles = match self.bus.run_pending_dma() {
            Some(dma_result) => dma_result.cycles,
            None => {
                if self.cpu.is_halted() && !self.bus.halt_wake_requested() {
                    HALT_QUANTUM
                } else {
                    self.cpu.step(&mut self.bus)
                }
            },
        };
        let ghost cpu_after = self.cpu@;
        let ghost bus_after = self.bus;
        assert(operation_ran(before, cpu_after, bus_after, cycles));
        self.bus.tick(cycles);
        let ghost ticked = self.bus;
        self.apply_power_request();
        self.elapsed_cycles = self.elapsed_cycles.wrapping_add(cycles as u64);
        assert(power_applied(cpu_after, ticked, self@.cpu, self@.bus));
        cycles
    }

    /// Runs `step_count` scheduling steps, or none if the machine is
    /// stopped, and returns the cycles they took.
    pub fn run_steps(&mut self, step_count: usize) -> (r: u64)
        requires
            machine_wf(old(self)@),
        ensures
            machine_wf(final(self)@),
            r == final(self)@.elapsed_cycles.wrapping_sub(old(self)@.elapsed_cycles),
            old(self)@.stopped ==> final(self)@ == old(self)@,
            !old(self)@.stopped ==> exists|total: u64|
                #[trigger] steps_run(old(self)@, final(self)@, step_count as nat, total, u64::MAX + 1),
    {
        let starting_cycles = self.elapsed_cycles;
        let mut index: usize = 0;
        let ghost mut total: u64 = 0;
        while index < step_count && !self.stopped
            invariant
                machine_wf(self@),
                index <= step_count,
                starting_cycles == old(self)@.elapsed_cycles,
                old(self)@.stopped ==> self@ == old(self)@,
                self@.stopped == old(self)@.stopped,
                !old(self)@.stopped ==> steps_run(old(self)@, self@, index as nat, total, u64::MAX + 1),
            decreases step_count - index,
        {
            let ghost middle = self@;
            let cycles = self.step();
            proof {
                lemma_step_extends_run(old(self)@, middle, self@, index as nat, total, cycles, u64::MAX + 1);
                total = total.saturating_add(cycles as u64);
            }
            index = index + 1;
        }
        proof {
            if !old(self)@.stopped {
                assert(steps_run(old(self)@, self@, step_count as nat, total, u64::MAX + 1));
            }
        }
        self.elapsed_cycles.wrapping_sub(starting_cycles)
    }

    /// Runs until at least `cycle_budget` more cycles have elapsed or the
    /// machine stops; an instruction is never split, so the count may
    /// exceed the budget. Returns the cycles.
    pub fn run_cycles(&mut self, cycle_budget: u64) -> (r: u64)
        requires
            machine_wf(old(self)@),
        ensures
            machine_wf(final(self)@),
            r == final(self)@.elapsed_cycles.wrapping_sub(old(self)@.elapsed_cycles),
            old(self)@.stopped ==> final(self)@ == old(self)@,
            !old(self)@.stopped ==> exists|n: nat, total: u64|
                #[trigger] steps_run(old(self)@, final(self)@, n, total, cycle_budget as int) && total
                    >= cycle_budget,
    {
        let starting_cycles = self.elapsed_cycles;
        let mut consumed: u64 = 0;
        let ghost mut n: nat = 0;
        while !self.stopped && consumed < cycle_budget
            invariant
                machine_wf(self@),
                starting_cycles == old(self)@.elapsed_cycles,
                old(self)@.stopped ==> self@ == old(self)@,
                self@.stopped == old(self)@.stopped,
                !old(self)@.stopped ==> steps_run(old(self)@, self@, n, consumed, cycle_budget as int),
            ensures
                machine_wf(self@),
                starting_cycles == old(self)@.elapsed_cycles,
                old(self)@.stopped ==> self@ == old(self)@,
                !old(self)@.stopped ==> steps_run(old(self)@, self@, n, consumed, cycle_budget as int)
                    && consumed >= cycle_budget,
            decreases cycle_budget - if consumed < cycle_budget {
                consumed
            } else {
                cycle_budget
            },
        {
            let ghost middle = self@;
            let cycles = self.step();
            proof {
                lemma_step_extends_run(old(self)@, middle, self@, n, consumed, cycles, cycle_budget as int);
                n = n + 1;
            }
            if cycles == 0 {
                break;
            }
            consumed = consumed.saturating_add(cycles as u64);
        }
        proof {
            if !old(self)@.stopped {
                assert(steps_run(old(self)@, self@, n, consumed, cycle_budget as int));
            }
        }
        self.elapsed_cycles.wrapping_sub(starting_cycles)
    }

    /// Cycles after which `run_until_frame` gives up: two frames of 228
    /// lines of 1232 cycles.
    pub const MAX_CYCLES_WITHOUT_FRAME: u64 = 561_792;

    /// Runs until the video produces a new frame, which the host takes; an
    /// old, unconsumed frame is discarded first. Gives up after two frame
    /// periods, or at once when the machine is stopped. Returns the cycles.
    #[verifier::rlimit(60)]
    #[verifier::spinoff_prover]
    pub fn run_until_frame(&mut self) -> (r: u64)
        requires
            machine_wf(old(self)@),
        ensures
            machine_wf(final(self)@),
            r == final(self)@.elapsed_cycles.wrapping_sub(old(self)@.elapsed_cycles),
            !final(self)@.bus.io.video.frame_ready,
            old(self)@.stopped ==> final(self)@ == frame_taken(old(self)@),
            !old(self)@.stopped ==> exists|n: nat, total: u64, seen: bool|
                #[trigger] frame_steps_run(
                    frame_taken(old(self)@),
                    final(self)@,
                    n,
                    total,
                    seen,
                    Self::MAX_CYCLES_WITHOUT_FRAME as int,
                ) && (seen || total >= Self::MAX_CYCLES_WITHOUT_FRAME),
    {
        let starting_cycles = self.elapsed_cycles;
        self.take_frame_ready();
        let ghost start = self@;
        let mut consumed: u64 = 0;
        let ghost mut n: nat = 0;
        let ghost mut seen: bool = false;
        let ghost mut total: u64 = 0;
        while !self.stopped
            invariant_except_break
                machine_wf(self@),
                starting_cycles == old(self)@.elapsed_cycles,
                start == frame_taken(old(self)@),
                !self@.bus.io.video.frame_ready,
                consumed < Self::MAX_CYCLES_WITHOUT_FRAME,
                total == consumed,
                self@.stopped == old(self)@.stopped,
                old(self)@.stopped ==> self@ == start,
                !old(self)@.stopped ==> frame_steps_run(
                    start,
                    self@,
                    n,
                    consumed,
                    false,
                    Self::MAX_CYCLES_WITHOUT_FRAME as int,
                ),
            ensures
                machine_wf(self@),
                starting_cycles == old(self)@.elapsed_cycles,
                !self@.bus.io.video.frame_ready,
                start == frame_taken(old(self)@),
                old(self)@.stopped ==> self@ == start,
                !old(self)@.stopped ==> frame_steps_run(
                    start,
                    self@,
                    n,
                    total,
                    seen,
                    Self::MAX_CYCLES_WITHOUT_FRAME as int,
                ) && (seen || total >= Self::MAX_CYCLES_WITHOUT_FRAME),
            decreases Self::MAX_CYCLES_WITHOUT_FRAME - consumed,
        {
            let ghost middle = self@;
            let ghost spent = consumed;
            let cycles = self.step();
            let ghost stepped = self@;
            let frame = self.take_frame_ready();
            proof {
                lemma_step_extends_frame_run(
                    start,
                    middle,
                    stepped,
                    n,
                    spent,
                    cycles,
                    Self::MAX_CYCLES_WITHOUT_FRAME as int,
                );
                n = n + 1;
                seen = frame;
                total = spent.saturating_add(cycles as u64);
            }
            if frame {
                break;
            }
            consumed = consumed.saturating_add(cycles as u64);
            if consumed >= Self::MAX_CYCLES_WITHOUT_FRAME {
                break;
            }
        }
        proof {
            if !old(self)@.stopped {
                assert(frame_steps_run(start, self@, n, total, seen, Self::MAX_CYCLES_WITHOUT_FRAME as int));
            }
        }
        self.elapsed_cycles.wrapping_sub(starting_cycles)
    }

    /// Stops the host loop; the core's HALT state is separate.
    pub fn stop(&mut self)
        ensures
            final(self)@ == (GbaView { stopped: true, ..old(self)@ }),
    {
        self.stopped = true;
    }

    pub fn resume(&mut self)
        ensures
            final(self)@ == (GbaView { stopped: false, ..old(self)@ }),
    {
        self.stopped = false;
    }

    pub fn is_stopped(&self) -> (r: bool)
        ensures
            r == self@.stopped,
    {
        self.stopped
    }

    pub fn elapsed_cycles(&self) -> (r: u64)
        ensures
            r == self@.elapsed_cycles,
    {
        self.elapsed_cycles
    }

    pub fn cpu(&self) -> (r: &Cpu)
        ensures
            r@ == self@.cpu,
    {
        &self.cpu
    }

    pub fn cpu_mut(&mut self) -> (r: &mut Cpu)
        ensures
            (*r)@ == old(self)@.cpu,
            final(self)@ == (GbaView { cpu: final(r)@, ..old(self)@ }),
    {
        &mut self.cpu
    }

    pub fn bus(&self) -> (r: &Bus)
        ensures
            *r == self@.bus,
    {
        &self.bus
    }

    pub fn bus_mut(&mut self) -> (r: &mut Bus)
        ensures
            *r == old(self)@.bus,
            final(self)@ == (GbaView { bus: *final(r), ..old(self)@ }),
    {
        &mut self.bus
    }

    pub fn registers(&self) -> (r: &Registers)
        ensures
            r@ == self@.cpu.registers,
    {
        self.cpu.registers()
    }

    pub fn registers_mut(&mut self) -> (r: &mut Registers)
        ensures
            (*r)@ == old(self)@.cpu.registers,
            final(self)@ == (GbaView {
                cpu: CpuView { registers: final(r)@, ..old(self)@.cpu },
                ..old(self)@
            }),
    {
        self.cpu.registers_mut()
    }

    pub fn state(&self) -> (r: CpuState)
        ensures
            r == crate::cpu::processor::state_of(self@.cpu.registers.cpsr),
    {
        self.cpu.state()
    }

    pub fn io(&self) -> (r: &IoRegisters)
        ensures
            *r == self@.bus.io,
    {
        self.bus.io()
    }

    pub fn io_mut(&mut self) -> (r: &mut IoRegisters)
        ensures
            *r == old(self)@.bus.io,
            final(self)@ == (GbaView { bus: Bus { io: *final(r), ..old(self)@.bus }, ..old(self)@ }),
    {
        self.bus.io_mut()
    }

    pub fn interrupt_controller(&self) -> (r: &InterruptController)
        ensures
            *r == self@.bus.io.interrupts,
    {
        self.bus.interrupt_controller()
    }

    pub fn interrupt_controller_mut(&mut self) -> (r: &mut InterruptController)
        ensures
            *r == old(self)@.bus.io.interrupts,
            final(self)@ == (GbaView {
                bus: Bus {
                    io: IoRegisters { interrupts: *final(r), ..old(self)@.bus.io },
                    ..old(self)@.bus
                },
                ..old(self)@
            }),
    {
        self.bus.interrupt_controller_mut()
    }

    pub fn request_interrupt(&mut self, source: InterruptSource)
        ensures
            final(self)@ == (GbaView {
                bus: Bus {
                    io: IoRegisters {
                        interrupts: old(self)@.bus.io.interrupts.spec_request_mask(
                            crate::bus::interrupt::source_mask(source),
                        ),
                        ..old(self)@.bus.io
                    },
                    ..old(self)@.bus
                },
                ..old(self)@
            }),
    {
        self.bus.request_interrupt(source);
    }

    fn apply_power_request(&mut self)
        requires
            machine_wf(old(self)@),
        ensures
            machine_wf(final(self)@),
            power_applied(old(self)@.cpu, old(self)@.bus, final(self)@.cpu, final(self)@.bus),
            final(self)@.elapsed_cycles == old(self)@.elapsed_cycles,
            final(self)@.stopped == old(self)@.stopped,
    {
        match self.bus.take_power_request() {
            None => {},
            Some(request) => {
                match request {
                    PowerStateRequest::Halt => {
                        self.cpu.enter_halt();
                    },
                    PowerStateRequest::Stop => {
                        // STOP needs a low-power clock model; until then it halts.
                        self.cpu.enter_halt();
                    },
                }
            },
        }
    }

    /// Presses or releases `key`.
    pub fn set_key(&mut self, key: Key, pressed: bool)
        ensures
            final(self)@ == (GbaView {
                bus: keys_set(
                    old(self)@.bus,
                    (if pressed {
                        old(self)@.bus.io.keypad.pressed | key_mask(key)
                    } else {
                        old(self)@.bus.io.keypad.pressed & !key_mask(key)
                    }) & 0x03FF,
                ),
                ..old(self)@
            }),
    {
        self.bus.set_key(key, pressed);
    }

    pub fn press_key(&mut self, key: Key)
        ensures
            final(self)@ == (GbaView {
                bus: keys_set(
                    old(self)@.bus,
                    (old(self)@.bus.io.keypad.pressed | key_mask(key)) & 0x03FF,
                ),
                ..old(self)@
            }),
    {
        self.set_key(key, true);
    }

    pub fn release_key(&mut self, key: Key)
        ensures
            final(self)@ == (GbaView {
                bus: keys_set(
                    old(self)@.bus,
                    (old(self)@.bus.io.keypad.pressed & !key_mask(key)) & 0x03FF,
                ),
                ..old(self)@
            }),
    {
        self.set_key(key, false);
    }

    pub fn set_pressed_keys(&mut self, pressed_mask: u16)
        ensures
            final(self)@ == (GbaView { bus: keys_set(old(self)@.bus, pressed_mask & 0x03FF), ..old(self)@ }),
    {
        self.bus.set_pressed_keys(pressed_mask);
    }
}

impl Default for Gba {
    fn default() -> (r: Self)
        ensures
            machine_wf(r@),
            r@.elapsed_cycles == 0,
            !r@.stopped,
    {
        Self::new()
    }
}

} // verus!
