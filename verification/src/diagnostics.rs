use vstd::prelude::*;

use crate::gba::{machine_stepped, machine_wf, Gba, GbaView};

verus! {

/// The FNV-1a offset basis and prime of 64-bit hashes.
pub const FNV_OFFSET_BASIS: u64 = 0xCBF2_9CE4_8422_2325;

pub const FNV_PRIME: u64 = 0x0000_0100_0000_01B3;

/// One FNV-1a step: xor the byte in, multiply by the prime modulo 2^64.
pub open spec fn fnv_step(hash: u64, byte: u8) -> u64 {
    (((hash ^ (byte as u64)) as int * FNV_PRIME as int) % 0x1_0000_0000_0000_0000) as u64
}

/// Byte `k` of a pixel in little-endian order.
pub open spec fn pixel_byte(pixel: u32, k: u32) -> u8 {
    (pixel >> (8 * k)) as u8
}

/// The hash after a pixel's four bytes, lowest first.
pub open spec fn pixel_step(hash: u64, pixel: u32) -> u64 {
    fnv_step(
        fnv_step(fnv_step(fnv_step(hash, pixel_byte(pixel, 0)), pixel_byte(pixel, 1)), pixel_byte(pixel, 2)),
        pixel_byte(pixel, 3),
    )
}

/// FNV-1a over the little-endian bytes of the pixels.
pub open spec fn spec_framebuffer_hash(pixels: Seq<u32>) -> u64
    decreases pixels.len(),
{
    if pixels.len() == 0 {
        FNV_OFFSET_BASIS
    } else {
        pixel_step(spec_framebuffer_hash(pixels.drop_last()), pixels.last())
    }
}

fn fnv(hash: u64, byte: u8) -> (r: u64)
    ensures
        r == fnv_step(hash, byte),
{
    let mixed = hash ^ (byte as u64);
    proof {
        vstd::arithmetic::mul::lemma_mul_upper_bound(
            mixed as int,
            0xFFFF_FFFF_FFFF_FFFF,
            FNV_PRIME as int,
            FNV_PRIME as int,
        );
    }
    ((mixed as u128 * FNV_PRIME as u128) % 0x1_0000_0000_0000_0000) as u64
}

/// A stable hash of a frame, to compare frames across runs: FNV-1a over
/// the pixels' little-endian bytes.
pub fn framebuffer_hash(framebuffer: &[u32]) -> (r: u64)
    ensures
        r == spec_framebuffer_hash(framebuffer@),
{
    let mut hash: u64 = FNV_OFFSET_BASIS;
    let mut index: usize = 0;
    while index < framebuffer.len()
        invariant
            index <= framebuffer@.len(),
            hash == spec_framebuffer_hash(framebuffer@.take(index as int)),
        decreases framebuffer@.len() - index,
    {
        let pixel = framebuffer[index];
        hash = fnv(hash, pixel as u8);
        hash = fnv(hash, (pixel >> 8) as u8);
        hash = fnv(hash, (pixel >> 16) as u8);
        hash = fnv(hash, (pixel >> 24) as u8);
        proof {
            assert(framebuffer@.take(index as int + 1).drop_last() =~= framebuffer@.take(index as int));
            assert((pixel >> 0u32) == pixel) by (bit_vector);
        }
        index = index + 1;
    }
    proof {
        assert(framebuffer@.take(index as int) =~= framebuffer@);
    }
    hash
}

/// Changes seen at a watched word.
#[derive(Debug, Clone, PartialEq, Eq)]
pub struct WatchStats {
    pub last: u32,
    pub changes: u64,
    /// For each bit, how often it went from 0 to 1.
    pub rising_edges: [u64; 32],
}

/// The edge counts after `value` replaces `last`: each bit that rose
/// counts once more, modulo 2^64.
pub open spec fn counted_edges(edges: Seq<u64>, last: u32, value: u32) -> Seq<u64> {
    Seq::new(
        32,
        |bit: int|
            if (value & !last) & (1u32 << bit as u32) != 0 {
                edges[bit].wrapping_add(1)
            } else {
                edges[bit]
            },
    )
}

/// Statistics that have seen only `initial`.
pub open spec fn fresh_watch(initial: u32) -> (u32, u64, Seq<u64>) {
    (initial, 0, Seq::new(32, |bit: int| 0u64))
}

/// The statistics as plain values: the last value, the changes and the
/// rising edges of each bit.
pub open spec fn watch_view(stats: WatchStats) -> (u32, u64, Seq<u64>) {
    (stats.last, stats.changes, stats.rising_edges@)
}

/// The statistics after observing `value`.
pub open spec fn observed(watch: (u32, u64, Seq<u64>), value: u32) -> (u32, u64, Seq<u64>) {
    if value == watch.0 {
        watch
    } else {
        (value, watch.1.wrapping_add(1), counted_edges(watch.2, watch.0, value))
    }
}

impl WatchStats {
    pub fn new(initial: u32) -> (r: Self)
        ensures
            r.last == initial,
            r.changes == 0,
            forall|bit: int| 0 <= bit < 32 ==> r.rising_edges@[bit] == 0,
            watch_view(r) == fresh_watch(initial),
    {
        let r = WatchStats { last: initial, changes: 0, rising_edges: [0; 32] };
        assert(r.rising_edges@ =~= Seq::new(32, |bit: int| 0u64));
        r
    }

    /// Records a new value: a different one counts as a change, and each
    /// bit that went from 0 to 1 counts as a rising edge.
    pub fn observe(&mut self, value: u32)
        ensures
            value == old(self).last ==> *final(self) == *old(self),
            value != old(self).last ==> {
                &&& final(self).last == value
                &&& final(self).changes == old(self).changes.wrapping_add(1)
                &&& final(self).rising_edges@ == counted_edges(old(self).rising_edges@, old(self).last, value)
            },
            watch_view(*final(self)) == observed(watch_view(*old(self)), value),
    {
        if value == self.last {
            return;
        }
        self.changes = self.changes.wrapping_add(1);
        let rising = value & !self.last;
        let ghost before = self.rising_edges@;
        let mut bit: u32 = 0;
        while bit < 32
            invariant
                bit <= 32,
                rising == value & !old(self).last,
                before == old(self).rising_edges@,
                self.rising_edges@.len() == 32,
                self.last == old(self).last,
                self.changes == old(self).changes.wrapping_add(1),
                forall|b: int| 0 <= b < bit ==> self.rising_edges@[b] == counted_edges(before, old(self).last, value)[b],
                forall|b: int| bit <= b < 32 ==> self.rising_edges@[b] == before[b],
            decreases 32 - bit,
        {
            if rising & (1u32 << bit) != 0 {
                let index = bit as usize;
                self.rising_edges[index] = self.rising_edges[index].wrapping_add(1);
            }
            bit = bit + 1;
        }
        self.last = value;
        assert(self.rising_edges@ =~= counted_edges(before, old(self).last, value));
    }
}

/// What a headless run reports.
#[derive(Debug, Clone)]
pub struct HeadlessRun {
    /// Cycles that elapsed.
    pub consumed: u64,
    /// The statistics of the watched word, if one was watched.
    pub watch: Option<WatchStats>,
}

/// The watch after `machine`'s word at `address` is observed; nothing
/// when no word is watched.
pub open spec fn watch_updated(
    watch: Option<(u32, u64, Seq<u64>)>,
    address: Option<u32>,
    machine: GbaView,
) -> Option<(u32, u64, Seq<u64>)> {
    match (address, watch) {
        (Some(a), Some(w)) => Some(observed(w, machine.bus.spec_read32(a))),
        _ => watch,
    }
}

/// The watch a headless run starts with.
pub open spec fn initial_watch(machine: GbaView, address: Option<u32>) -> Option<(u32, u64, Seq<u64>)> {
    match address {
        Some(a) => Some(fresh_watch(machine.bus.spec_read32(a))),
        None => None,
    }
}

/// The statistics of an optional watch as plain values.
pub open spec fn watch_of(watch: Option<WatchStats>) -> Option<(u32, u64, Seq<u64>)> {
    match watch {
        Some(stats) => Some(watch_view(stats)),
        None => None,
    }
}

/// `after` is `before` after `n` scheduling steps that took `total`
/// cycles (summed with saturation), each begun with fewer than `bound`
/// spent and followed by an observation of the watched word, which took
/// the watch from `watch_before` to `watch_after`.
pub open spec fn watched_steps_run(
    before: GbaView,
    after: GbaView,
    n: nat,
    total: u64,
    bound: int,
    address: Option<u32>,
    watch_before: Option<(u32, u64, Seq<u64>)>,
    watch_after: Option<(u32, u64, Seq<u64>)>,
) -> bool
    decreases n,
{
    if n == 0 {
        after == before && total == 0 && watch_after == watch_before
    } else {
        exists|last: (GbaView, u64, u32, Option<(u32, u64, Seq<u64>)>)|
            #[trigger] machine_stepped(last.0, after, last.2) && watched_steps_run(
                before,
                last.0,
                (n - 1) as nat,
                last.1,
                bound,
                address,
                watch_before,
                last.3,
            ) && last.1 < bound && total == last.1.saturating_add(last.2 as u64) && watch_after
                == watch_updated(last.3, address, after)
    }
}

proof fn lemma_watched_step(
    before: GbaView,
    middle: GbaView,
    after: GbaView,
    n: nat,
    spent: u64,
    cycles: u32,
    bound: int,
    address: Option<u32>,
    watch_before: Option<(u32, u64, Seq<u64>)>,
    watch_middle: Option<(u32, u64, Seq<u64>)>,
)
    requires
        watched_steps_run(before, middle, n, spent, bound, address, watch_before, watch_middle),
        machine_stepped(middle, after, cycles),
        spent < bound,
    ensures
        watched_steps_run(
            before,
            after,
            n + 1,
            spent.saturating_add(cycles as u64),
            bound,
            address,
            watch_before,
            watch_updated(watch_middle, address, after),
        ),
{
    let last = (middle, spent, cycles, watch_middle);
    assert(((n + 1) - 1) as nat == n);
    assert(machine_stepped(last.0, after, last.2));
}

/// Runs the machine until at least `cycle_budget` cycles have elapsed,
/// observing the word at `watch_address` after each step; a stopped
/// machine takes one step that changes nothing.
pub fn run_headless(gba: &mut Gba, cycle_budget: u64, watch_address: Option<u32>) -> (r: HeadlessRun)
    requires
        machine_wf(old(gba)@),
    ensures
        machine_wf(final(gba)@),
        r.consumed == final(gba)@.elapsed_cycles.wrapping_sub(old(gba)@.elapsed_cycles),
        watch_address is None ==> r.watch is None,
        watch_address matches Some(address) ==> (r.watch matches Some(stats) && stats.last
            == final(gba)@.bus.spec_read32(address)),
        old(gba)@.stopped ==> final(gba)@ == old(gba)@ && watch_of(r.watch) == initial_watch(
            old(gba)@,
            watch_address,
        ),
        !old(gba)@.stopped ==> exists|n: nat, total: u64|
            #[trigger] watched_steps_run(
                old(gba)@,
                final(gba)@,
                n,
                total,
                cycle_budget as int,
                watch_address,
                initial_watch(old(gba)@, watch_address),
                watch_of(r.watch),
            ) && total >= cycle_budget,
{
    let starting_cycles = gba.elapsed_cycles();
    let mut watch: Option<WatchStats> = match watch_address {
        Some(address) => Some(WatchStats::new(gba.bus().read32(address))),
        None => None,
    };
    let ghost start = gba@;
    let ghost mut n: nat = 0;
    let mut consumed: u64 = 0;
    while consumed < cycle_budget
        invariant
            machine_wf(gba@),
            start == old(gba)@,
            starting_cycles == old(gba)@.elapsed_cycles,
            gba@.stopped == start.stopped,
            watch_address is None ==> watch is None,
            watch_address matches Some(address) ==> (watch matches Some(stats) && stats.last
                == gba@.bus.spec_read32(address)),
            start.stopped ==> gba@ == start && watch_of(watch) == initial_watch(start, watch_address),
            !start.stopped ==> watched_steps_run(
                start,
                gba@,
                n,
                consumed,
                cycle_budget as int,
                watch_address,
                initial_watch(start, watch_address),
                watch_of(watch),
            ),
        ensures
            machine_wf(gba@),
            starting_cycles == old(gba)@.elapsed_cycles,
            watch_address is None ==> watch is None,
            watch_address matches Some(address) ==> (watch matches Some(stats) && stats.last
                == gba@.bus.spec_read32(address)),
            start.stopped ==> gba@ == start && watch_of(watch) == initial_watch(start, watch_address),
            !start.stopped ==> watched_steps_run(
                start,
                gba@,
                n,
                consumed,
                cycle_budget as int,
                watch_address,
                initial_watch(start, watch_address),
                watch_of(watch),
            ) && consumed >= cycle_budget,
        decreases cycle_budget - if consumed < cycle_budget {
            consumed
        } else {
            cycle_budget
        },
    {
        let ghost middle = gba@;
        let ghost watch_middle = watch_of(watch);
        let cycles = gba.step();
        match watch_address {
            Some(address) => {
                let value = gba.bus().read32(address);
                match watch {
                    Some(ref mut stats) => stats.observe(value),
                    None => {},
                }
            },
            None => {},
        }
        proof {
            if !start.stopped {
                lemma_watched_step(
                    start,
                    middle,
                    gba@,
                    n,
                    consumed,
                    cycles,
                    cycle_budget as int,
                    watch_address,
                    initial_watch(start, watch_address),
                    watch_middle,
                );
            }
            n = n + 1;
        }
        if cycles == 0 {
            break;
        }
        consumed = consumed.saturating_add(cycles as u64);
    }
    proof {
        if !start.stopped {
            assert(watched_steps_run(
                start,
                gba@,
                n,
                consumed,
                cycle_budget as int,
                watch_address,
                initial_watch(start, watch_address),
                watch_of(watch),
            ));
        }
    }
    HeadlessRun { consumed: gba.elapsed_cycles().wrapping_sub(starting_cycles), watch }
}

} // verus!
