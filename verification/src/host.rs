use vstd::prelude::*;

verus! {

/// Cycles between two state reports of the windowed frontend.
pub const DEBUG_INTERVAL_CYCLES: u64 = 1_000_000;

/// Steps the frontend runs between two looks at the frame flag.
pub const STEPS_PER_BATCH: usize = 1_024;

/// Batches the frontend runs per host frame at most.
pub const MAX_BATCHES_PER_HOST_FRAME: usize = 1_024;

/// Batches between two polls of the host's events.
pub const EVENT_POLL_BATCHES: usize = 4;

/// Emulated cycles between two flushes of a changed save: five seconds
/// of the 16.78 MHz clock.
pub const SAVE_FLUSH_INTERVAL_CYCLES: u64 = 83_886_080;

/// Whether a changed save is due to be written, the last flush having
/// been at `last_flush` cycles: when five emulated seconds have passed
/// since, or when the cycle count went back (the machine was reset).
pub fn save_flush_due(last_flush: u64, elapsed: u64) -> (r: bool)
    ensures
        r == (elapsed < last_flush || elapsed - last_flush >= SAVE_FLUSH_INTERVAL_CYCLES),
{
    elapsed < last_flush || elapsed - last_flush >= SAVE_FLUSH_INTERVAL_CYCLES
}

/// The first report point after `elapsed`: `next` if it lies beyond,
/// otherwise the first of `next + k * DEBUG_INTERVAL_CYCLES` beyond it.
pub open spec fn report_point(next: u64, elapsed: u64) -> int {
    if next > elapsed {
        next as int
    } else {
        next + DEBUG_INTERVAL_CYCLES * ((elapsed - next) / DEBUG_INTERVAL_CYCLES as int + 1)
    }
}

/// The next report point after `elapsed`, saturating at `u64::MAX`.
pub fn next_debug_cycle_after(next: u64, elapsed: u64) -> (r: u64)
    requires
        elapsed < u64::MAX,
    ensures
        r == if report_point(next, elapsed) > u64::MAX {
            u64::MAX
        } else {
            report_point(next, elapsed) as u64
        },
{
    let ghost k: int = if next > elapsed {
        0
    } else {
        (elapsed - next) / DEBUG_INTERVAL_CYCLES as int + 1
    };
    proof {
        if next <= elapsed {
            vstd::arithmetic::div_mod::lemma_fundamental_div_mod(
                (elapsed - next) as int,
                DEBUG_INTERVAL_CYCLES as int,
            );
            vstd::arithmetic::div_mod::lemma_mod_bound((elapsed - next) as int, DEBUG_INTERVAL_CYCLES as int);
        }
    }
    let mut current = next;
    let ghost mut j: int = 0;
    while current <= elapsed
        invariant
            elapsed < u64::MAX,
            0 <= j <= k,
            k == if next > elapsed {
                0
            } else {
                (elapsed - next) / DEBUG_INTERVAL_CYCLES as int + 1
            },
            next <= elapsed ==> DEBUG_INTERVAL_CYCLES * (k - 1) <= elapsed - next
                < DEBUG_INTERVAL_CYCLES * k,
            (current == next + DEBUG_INTERVAL_CYCLES * j) || (current == u64::MAX && next
                + DEBUG_INTERVAL_CYCLES * j > u64::MAX),
        decreases k - j,
    {
        proof {
            assert(j < k) by (nonlinear_arith)
                requires
                    current == next + DEBUG_INTERVAL_CYCLES * j,
                    current <= elapsed,
                    next <= elapsed,
                    elapsed - next < DEBUG_INTERVAL_CYCLES * k,
                    0 <= j,
            ;
        }
        current = current.saturating_add(DEBUG_INTERVAL_CYCLES);
        proof {
            j = j + 1;
        }
    }
    proof {
        if current == next + DEBUG_INTERVAL_CYCLES * j && next <= elapsed {
            assert(j >= k) by (nonlinear_arith)
                requires
                    current == next + DEBUG_INTERVAL_CYCLES * j,
                    current > elapsed,
                    DEBUG_INTERVAL_CYCLES * (k - 1) <= elapsed - next,
            ;
        }
        if current == u64::MAX && next + DEBUG_INTERVAL_CYCLES * j > u64::MAX {
            assert(next + DEBUG_INTERVAL_CYCLES * k >= next + DEBUG_INTERVAL_CYCLES * j) by (nonlinear_arith)
                requires
                    j <= k,
            ;
        }
    }
    current
}

} // verus!
