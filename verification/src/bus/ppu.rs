use vstd::prelude::*;

use super::interrupt::{source_mask, InterruptSource};

verus! {

/// The writable part of DISPSTAT: the three interrupt enables and the
/// VCOUNT comparison value.
#[derive(Debug, Clone, Copy, PartialEq, Eq, Structural)]
pub struct DispStat {
    pub vblank_irq_enabled: bool,
    pub hblank_irq_enabled: bool,
    pub vcounter_irq_enabled: bool,
    pub vcount_setting: u8,
}

/// DISPSTAT as read: status bits 0-2, enables 3-5, comparison value 8-15.
pub open spec fn dispstat_value(stat: DispStat, in_vblank: bool, in_hblank: bool, vcount_match: bool) -> u16 {
    let v0: u16 = if in_vblank {
        1
    } else {
        0
    };
    let v1: u16 = if in_hblank {
        v0 | 2
    } else {
        v0
    };
    let v2: u16 = if vcount_match {
        v1 | 4
    } else {
        v1
    };
    let v3: u16 = if stat.vblank_irq_enabled {
        v2 | 8
    } else {
        v2
    };
    let v4: u16 = if stat.hblank_irq_enabled {
        v3 | 0x10
    } else {
        v3
    };
    let v5: u16 = if stat.vcounter_irq_enabled {
        v4 | 0x20
    } else {
        v4
    };
    v5 | ((stat.vcount_setting as u16) << 8u16)
}

impl DispStat {
    pub fn new() -> (r: Self)
        ensures
            r == (DispStat {
                vblank_irq_enabled: false,
                hblank_irq_enabled: false,
                vcounter_irq_enabled: false,
                vcount_setting: 0,
            }),
    {
        DispStat {
            vblank_irq_enabled: false,
            hblank_irq_enabled: false,
            vcounter_irq_enabled: false,
            vcount_setting: 0,
        }
    }

    pub fn vblank_irq_enabled(self) -> (r: bool)
        ensures
            r == self.vblank_irq_enabled,
    {
        self.vblank_irq_enabled
    }

    pub fn hblank_irq_enabled(self) -> (r: bool)
        ensures
            r == self.hblank_irq_enabled,
    {
        self.hblank_irq_enabled
    }

    pub fn vcounter_irq_enabled(self) -> (r: bool)
        ensures
            r == self.vcounter_irq_enabled,
    {
        self.vcounter_irq_enabled
    }

    pub fn vcount_setting(self) -> (r: u8)
        ensures
            r == self.vcount_setting,
    {
        self.vcount_setting
    }

    /// Bits 0-2 are read-only status and are ignored.
    pub fn write(&mut self, value: u16)
        ensures
            *final(self) == (DispStat {
                vblank_irq_enabled: value & 8 != 0,
                hblank_irq_enabled: value & 0x10 != 0,
                vcounter_irq_enabled: value & 0x20 != 0,
                vcount_setting: (value >> 8u16) as u8,
            }),
    {
        self.vblank_irq_enabled = value & 8 != 0;
        self.hblank_irq_enabled = value & 0x10 != 0;
        self.vcounter_irq_enabled = value & 0x20 != 0;
        self.vcount_setting = (value >> 8u16) as u8;
    }

    pub fn raw(self, in_vblank: bool, in_hblank: bool, vcount_match: bool) -> (r: u16)
        ensures
            r == dispstat_value(self, in_vblank, in_hblank, vcount_match),
    {
        let mut value: u16 = 0;
        if in_vblank {
            value = 1;
        }
        if in_hblank {
            value = value | 2;
        }
        if vcount_match {
            value = value | 4;
        }
        if self.vblank_irq_enabled {
            value = value | 8;
        }
        if self.hblank_irq_enabled {
            value = value | 0x10;
        }
        if self.vcounter_irq_enabled {
            value = value | 0x20;
        }
        value | ((self.vcount_setting as u16) << 8u16)
    }
}

/// What one stretch of scan time produced: boundary counts, the interrupt
/// requests to merge into IF, and the visible lines that reached HBlank (and
/// so can be drawn), in order.
#[derive(Debug, Clone, PartialEq, Eq)]
pub struct PpuTickResult {
    pub hblank_starts: u32,
    pub vblank_starts: u32,
    pub vcount_matches: u32,
    pub new_frames: u32,
    pub interrupt_requests: u16,
    pub completed_visible_lines: Vec<u16>,
}

/// The mathematical content of a tick result.
pub struct ScanEvents {
    pub hblank_starts: nat,
    pub vblank_starts: nat,
    pub vcount_matches: nat,
    pub new_frames: nat,
    pub interrupt_requests: u16,
    pub completed_visible_lines: Seq<u16>,
}

pub open spec fn no_events() -> ScanEvents {
    ScanEvents {
        hblank_starts: 0,
        vblank_starts: 0,
        vcount_matches: 0,
        new_frames: 0,
        interrupt_requests: 0,
        completed_visible_lines: Seq::empty(),
    }
}

impl PpuTickResult {
    pub open spec fn events(self) -> ScanEvents {
        ScanEvents {
            hblank_starts: self.hblank_starts as nat,
            vblank_starts: self.vblank_starts as nat,
            vcount_matches: self.vcount_matches as nat,
            new_frames: self.new_frames as nat,
            interrupt_requests: self.interrupt_requests,
            completed_visible_lines: self.completed_visible_lines@,
        }
    }

    pub fn new() -> (r: Self)
        ensures
            r.events() == no_events(),
    {
        let r = PpuTickResult {
            hblank_starts: 0,
            vblank_starts: 0,
            vcount_matches: 0,
            new_frames: 0,
            interrupt_requests: 0,
            completed_visible_lines: Vec::new(),
        };
        proof {
            assert(r.completed_visible_lines@ =~= Seq::<u16>::empty());
        }
        r
    }
}

/// The scan position within the frame and DISPSTAT.
#[derive(Debug, Clone, Copy, PartialEq, Eq, Structural)]
pub struct Ppu {
    /// CPU cycles into the current scanline, below 1232.
    pub line_cycle: u16,
    /// The current scanline, below 228.
    pub vcount: u16,
    pub in_hblank: bool,
    pub in_vblank: bool,
    pub vcount_match: bool,
    pub dispstat: DispStat,
}

/// Cycles from the current position to the next HBlank start or line end.
pub open spec fn cycles_to_boundary(ppu: Ppu) -> int {
    if ppu.in_hblank {
        1232 - ppu.line_cycle
    } else {
        960 - ppu.line_cycle
    }
}

/// The state just past the next boundary.
pub open spec fn crossed(ppu: Ppu) -> Ppu {
    if !ppu.in_hblank {
        Ppu { line_cycle: 960, in_hblank: true, ..ppu }
    } else {
        let next = (ppu.vcount + 1) as u16;
        let vcount: u16 = if next == 228 {
            0
        } else {
            next
        };
        Ppu {
            line_cycle: 0,
            in_hblank: false,
            vcount,
            in_vblank: if next == 228 {
                false
            } else if next == 160 {
                true
            } else {
                ppu.in_vblank
            },
            vcount_match: vcount as u8 == ppu.dispstat.vcount_setting,
            ..ppu
        }
    }
}

/// The events of crossing the next boundary, added to `events`. HBlank
/// start completes a visible line; entering line 160 starts VBlank;
/// passing line 227 starts a frame; a line equal to the comparison value
/// counts only when the match was not already set (edge-triggered).
pub open spec fn crossing_events(ppu: Ppu, events: ScanEvents) -> ScanEvents {
    if !ppu.in_hblank {
        ScanEvents {
            hblank_starts: events.hblank_starts + 1,
            interrupt_requests: if ppu.dispstat.hblank_irq_enabled {
                events.interrupt_requests | source_mask(InterruptSource::HBlank)
            } else {
                events.interrupt_requests
            },
            completed_visible_lines: if ppu.vcount < 160 {
                events.completed_visible_lines.push(ppu.vcount)
            } else {
                events.completed_visible_lines
            },
            ..events
        }
    } else {
        let next = ppu.vcount + 1;
        let after = crossed(ppu);
        let e1 = if next == 160 {
            ScanEvents {
                vblank_starts: events.vblank_starts + 1,
                interrupt_requests: if ppu.dispstat.vblank_irq_enabled {
                    events.interrupt_requests | source_mask(InterruptSource::VBlank)
                } else {
                    events.interrupt_requests
                },
                ..events
            }
        } else {
            events
        };
        let e2 = if next == 228 {
            ScanEvents { new_frames: e1.new_frames + 1, ..e1 }
        } else {
            e1
        };
        if after.vcount_match && !ppu.vcount_match {
            ScanEvents {
                vcount_matches: e2.vcount_matches + 1,
                interrupt_requests: if ppu.dispstat.vcounter_irq_enabled {
                    e2.interrupt_requests | source_mask(InterruptSource::VCounterMatch)
                } else {
                    e2.interrupt_requests
                },
                ..e2
            }
        } else {
            e2
        }
    }
}

/// The state and accumulated events after `cycles` more cycles of scan.
pub open spec fn scan(ppu: Ppu, cycles: nat, events: ScanEvents) -> (Ppu, ScanEvents)
    decreases cycles,
{
    let until = cycles_to_boundary(ppu);
    if until <= 0 || cycles < until {
        (Ppu { line_cycle: (ppu.line_cycle + cycles) as u16, ..ppu }, events)
    } else {
        scan(crossed(ppu), (cycles - until) as nat, crossing_events(ppu, events))
    }
}

impl Ppu {
    pub const HDRAW_CYCLES: u16 = 960;
    pub const HBLANK_CYCLES: u16 = 272;
    pub const CYCLES_PER_LINE: u16 = 1232;
    pub const VISIBLE_LINES: u16 = 160;
    pub const TOTAL_LINES: u16 = 228;

    /// The flags agree with the position and the comparison value.
    pub open spec fn wf(self) -> bool {
        &&& self.line_cycle < 1232
        &&& self.vcount < 228
        &&& self.in_hblank == (self.line_cycle >= 960)
        &&& self.in_vblank == (self.vcount >= 160)
        &&& self.vcount_match == (self.vcount as u8 == self.dispstat.vcount_setting)
    }

    pub fn new() -> (r: Self)
        ensures
            r.wf(),
            r.line_cycle == 0,
            r.vcount == 0,
            r.dispstat.vcount_setting == 0,
            !r.dispstat.vblank_irq_enabled && !r.dispstat.hblank_irq_enabled
                && !r.dispstat.vcounter_irq_enabled,
    {
        Ppu {
            line_cycle: 0,
            vcount: 0,
            in_hblank: false,
            in_vblank: false,
            vcount_match: true,
            dispstat: DispStat::new(),
        }
    }

    pub fn line_cycle(&self) -> (r: u16)
        ensures
            r == self.line_cycle,
    {
        self.line_cycle
    }

    pub fn vcount(&self) -> (r: u16)
        ensures
            r == self.vcount,
    {
        self.vcount
    }

    pub fn in_hblank(&self) -> (r: bool)
        ensures
            r == self.in_hblank,
    {
        self.in_hblank
    }

    pub fn in_vblank(&self) -> (r: bool)
        ensures
            r == self.in_vblank,
    {
        self.in_vblank
    }

    pub fn vcount_match(&self) -> (r: bool)
        ensures
            r == self.vcount_match,
    {
        self.vcount_match
    }

    pub fn dispstat(&self) -> (r: DispStat)
        ensures
            r == self.dispstat,
    {
        self.dispstat
    }

    pub fn read_dispstat(&self) -> (r: u16)
        ensures
            r == dispstat_value(self.dispstat, self.in_vblank, self.in_hblank, self.vcount_match),
    {
        self.dispstat.raw(self.in_vblank, self.in_hblank, self.vcount_match)
    }

    /// Updates the match flag at once, without raising an interrupt.
    pub fn write_dispstat(&mut self, value: u16)
        requires
            old(self).wf(),
        ensures
            final(self).wf(),
            *final(self) == (Ppu {
                dispstat: DispStat {
                    vblank_irq_enabled: value & 8 != 0,
                    hblank_irq_enabled: value & 0x10 != 0,
                    vcounter_irq_enabled: value & 0x20 != 0,
                    vcount_setting: (value >> 8u16) as u8,
                },
                vcount_match: old(self).vcount as u8 == (value >> 8u16) as u8,
                ..*old(self)
            }),
    {
        self.dispstat.write(value);
        self.vcount_match = self.vcount as u8 == self.dispstat.vcount_setting();
    }

    /// Runs the scan for `cycles` CPU cycles.
    pub fn tick(&mut self, cycles: u32) -> (r: PpuTickResult)
        requires
            old(self).wf(),
        ensures
            final(self).wf(),
            (*final(self), r.events()) == scan(*old(self), cycles as nat, no_events()),
    {
        let mut remaining: u32 = cycles;
        let mut result = PpuTickResult::new();
        loop
            invariant_except_break
                self.wf(),
                remaining <= cycles,
                result.hblank_starts <= cycles - remaining,
                result.vblank_starts <= cycles - remaining,
                result.vcount_matches <= cycles - remaining,
                result.new_frames <= cycles - remaining,
                scan(*self, remaining as nat, result.events()) == scan(
                    *old(self),
                    cycles as nat,
                    no_events(),
                ),
            ensures
                self.wf(),
                (*self, result.events()) == scan(*old(self), cycles as nat, no_events()),
            decreases remaining,
        {
            let next_boundary: u16 = if self.in_hblank {
                Self::CYCLES_PER_LINE
            } else {
                Self::HDRAW_CYCLES
            };
            let cycles_until_boundary: u16 = next_boundary - self.line_cycle;
            if remaining < cycles_until_boundary as u32 {
                self.line_cycle = self.line_cycle + remaining as u16;
                break;
            }
            let ghost before = *self;
            let ghost events_before = result.events();
            self.line_cycle = next_boundary;
            remaining = remaining - cycles_until_boundary as u32;
            if !self.in_hblank {
                self.enter_hblank(&mut result);
            } else {
                self.finish_scanline(&mut result);
            }
            proof {
                assert(*self == crossed(before));
                assert(result.events() == crossing_events(before, events_before));
            }
        }
        result
    }

    fn enter_hblank(&mut self, result: &mut PpuTickResult)
        requires
            !old(self).in_hblank,
            old(self).line_cycle == 960,
            old(result).hblank_starts < u32::MAX,
        ensures
            *final(self) == (Ppu { in_hblank: true, ..*old(self) }),
            final(result).events() == crossing_events(*old(self), old(result).events()),
            final(result).hblank_starts == old(result).hblank_starts + 1,
            final(result).vblank_starts == old(result).vblank_starts,
            final(result).vcount_matches == old(result).vcount_matches,
            final(result).new_frames == old(result).new_frames,
    {
        self.in_hblank = true;
        result.hblank_starts = result.hblank_starts + 1;
        if self.dispstat.hblank_irq_enabled() {
            result.interrupt_requests = result.interrupt_requests | InterruptSource::HBlank.mask();
        }
        if self.vcount < Self::VISIBLE_LINES {
            result.completed_visible_lines.push(self.vcount);
        }
    }

    fn finish_scanline(&mut self, result: &mut PpuTickResult)
        requires
            old(self).in_hblank,
            old(self).vcount < 228,
            old(self).in_vblank == (old(self).vcount >= 160),
            old(result).vblank_starts < u32::MAX,
            old(result).vcount_matches < u32::MAX,
            old(result).new_frames < u32::MAX,
        ensures
            *final(self) == crossed(*old(self)),
            final(result).events() == crossing_events(*old(self), old(result).events()),
            final(result).hblank_starts == old(result).hblank_starts,
            final(result).vblank_starts <= old(result).vblank_starts + 1,
            final(result).vcount_matches <= old(result).vcount_matches + 1,
            final(result).new_frames <= old(result).new_frames + 1,
    {
        self.line_cycle = 0;
        self.in_hblank = false;
        self.vcount = self.vcount + 1;
        if self.vcount == Self::VISIBLE_LINES {
            self.in_vblank = true;
            result.vblank_starts = result.vblank_starts + 1;
            if self.dispstat.vblank_irq_enabled() {
                result.interrupt_requests = result.interrupt_requests | InterruptSource::VBlank.mask();
            }
        }
        if self.vcount == Self::TOTAL_LINES {
            self.vcount = 0;
            self.in_vblank = false;
            result.new_frames = result.new_frames + 1;
        }
        let previous_match = self.vcount_match;
        self.vcount_match = self.vcount as u8 == self.dispstat.vcount_setting();
        if self.vcount_match && !previous_match {
            result.vcount_matches = result.vcount_matches + 1;
            if self.dispstat.vcounter_irq_enabled() {
                result.interrupt_requests = result.interrupt_requests
                    | InterruptSource::VCounterMatch.mask();
            }
        }
    }

    pub fn reset(&mut self)
        ensures
            final(self).wf(),
            final(self).line_cycle == 0,
            final(self).vcount == 0,
            final(self).dispstat.vcount_setting == 0,
            !final(self).dispstat.vblank_irq_enabled && !final(self).dispstat.hblank_irq_enabled
                && !final(self).dispstat.vcounter_irq_enabled,
    {
        *self = Ppu::new();
    }
}

/// Scan time is additive: running `a` cycles and then `b` cycles leaves
/// the PPU where running `a + b` cycles at once does, however the caller
/// batches its cycles.
pub proof fn law_scan_is_additive(ppu: Ppu, a: nat, b: nat, events: ScanEvents)
    requires
        ppu.wf(),
    ensures
        scan(scan(ppu, a, events).0, b, scan(ppu, a, events).1) == scan(ppu, a + b, events),
    decreases a,
{
    let until = cycles_to_boundary(ppu);
    if a < until {
        let mid = Ppu { line_cycle: (ppu.line_cycle + a) as u16, ..ppu };
        assert(scan(ppu, a, events) == (mid, events));
        assert(cycles_to_boundary(mid) == until - a);
        assert(crossed(mid) == crossed(ppu));
        assert(crossing_events(mid, events) == crossing_events(ppu, events));
        if b < until - a {
        } else {
            assert((a + b - until) as nat == (b - (until - a)) as nat);
        }
    } else {
        lemma_crossed_wf(ppu);
        law_scan_is_additive(crossed(ppu), (a - until) as nat, b, crossing_events(ppu, events));
        assert((a + b - until) as nat == ((a - until) as nat + b) as nat);
    }
}

/// The events of one stretch of scan followed by those of the next:
/// counts add, interrupt requests combine and completed lines follow one
/// another.
pub open spec fn events_joined(first: ScanEvents, second: ScanEvents) -> ScanEvents {
    ScanEvents {
        hblank_starts: first.hblank_starts + second.hblank_starts,
        vblank_starts: first.vblank_starts + second.vblank_starts,
        vcount_matches: first.vcount_matches + second.vcount_matches,
        new_frames: first.new_frames + second.new_frames,
        interrupt_requests: first.interrupt_requests | second.interrupt_requests,
        completed_visible_lines: first.completed_visible_lines + second.completed_visible_lines,
    }
}

proof fn lemma_or_facts()
    by (bit_vector)
    ensures
        forall|x: u16| #![trigger x | 0u16] x | 0u16 == x,
        forall|x: u16| #![trigger 0u16 | x] 0u16 | x == x,
        forall|x: u16, y: u16, z: u16| #![trigger (x | y) | z] (x | y) | z == x | (y | z),
{
}

proof fn lemma_joined_empty(events: ScanEvents)
    ensures
        events_joined(events, no_events()) == events,
{
    lemma_or_facts();
    assert(events.completed_visible_lines + Seq::<u16>::empty() =~= events.completed_visible_lines);
}

proof fn lemma_joined_associative(a: ScanEvents, b: ScanEvents, c: ScanEvents)
    ensures
        events_joined(events_joined(a, b), c) == events_joined(a, events_joined(b, c)),
{
    lemma_or_facts();
    assert((a.completed_visible_lines + b.completed_visible_lines) + c.completed_visible_lines
        =~= a.completed_visible_lines + (b.completed_visible_lines + c.completed_visible_lines));
}

proof fn lemma_crossing_joined(ppu: Ppu, events: ScanEvents)
    ensures
        crossing_events(ppu, events) == events_joined(events, crossing_events(ppu, no_events())),
{
    lemma_or_facts();
    let lines = events.completed_visible_lines;
    assert(lines.push(ppu.vcount) =~= lines + Seq::<u16>::empty().push(ppu.vcount));
    assert(lines =~= lines + Seq::<u16>::empty());
}

/// The events gathered so far only ride along: scanning from them leaves
/// the PPU where scanning from no events does, and adds the scan's own
/// events to them.
pub proof fn law_scan_state_ignores_events(ppu: Ppu, cycles: nat, events: ScanEvents)
    requires
        ppu.wf(),
    ensures
        scan(ppu, cycles, events).0 == scan(ppu, cycles, no_events()).0,
        scan(ppu, cycles, events).1 == events_joined(events, scan(ppu, cycles, no_events()).1),
    decreases cycles,
{
    let until = cycles_to_boundary(ppu);
    lemma_crossed_wf(ppu);
    if cycles < until {
        lemma_joined_empty(events);
    } else {
        let rest = (cycles - until) as nat;
        let next = crossed(ppu);
        let c = crossing_events(ppu, no_events());
        law_scan_state_ignores_events(next, rest, crossing_events(ppu, events));
        law_scan_state_ignores_events(next, rest, c);
        lemma_crossing_joined(ppu, events);
        lemma_joined_associative(events, c, scan(next, rest, no_events()).1);
    }
}

/// Event counts add up: the events of `a + b` cycles are those of `a`
/// cycles joined with those of the `b` cycles that follow, however the
/// caller batches its cycles.
pub proof fn law_scan_events_add_up(ppu: Ppu, a: nat, b: nat)
    requires
        ppu.wf(),
    ensures
        scan(ppu, a + b, no_events()).1 == events_joined(
            scan(ppu, a, no_events()).1,
            scan(scan(ppu, a, no_events()).0, b, no_events()).1,
        ),
{
    law_scan_is_additive(ppu, a, b, no_events());
    let (mid, first) = scan(ppu, a, no_events());
    law_scan_keeps_flags_consistent(ppu, a, no_events());
    law_scan_state_ignores_events(mid, b, first);
}

/// Ticking `a + b` cycles leaves the PPU where ticking `a` cycles and then
/// `b` cycles does.
pub proof fn law_tick_state_is_additive(ppu: Ppu, a: nat, b: nat)
    requires
        ppu.wf(),
    ensures
        scan(ppu, a + b, no_events()).0 == scan(scan(ppu, a, no_events()).0, b, no_events()).0,
{
    law_scan_is_additive(ppu, a, b, no_events());
    let (mid, first) = scan(ppu, a, no_events());
    law_scan_keeps_flags_consistent(ppu, a, no_events());
    law_scan_state_ignores_events(mid, b, first);
}

/// Crossing a boundary keeps the PPU well formed.
pub proof fn lemma_crossed_wf(ppu: Ppu)
    requires
        ppu.wf(),
    ensures
        crossed(ppu).wf(),
        cycles_to_boundary(ppu) > 0,
{
}

/// Scanning keeps the PPU well formed: the HBlank, VBlank and match flags
/// always agree with the scan position and the comparison value.
pub proof fn law_scan_keeps_flags_consistent(ppu: Ppu, cycles: nat, events: ScanEvents)
    requires
        ppu.wf(),
    ensures
        scan(ppu, cycles, events).0.wf(),
    decreases cycles,
{
    let until = cycles_to_boundary(ppu);
    if cycles >= until {
        lemma_crossed_wf(ppu);
        law_scan_keeps_flags_consistent(crossed(ppu), (cycles - until) as nat, crossing_events(ppu, events));
    }
}

} // verus!
