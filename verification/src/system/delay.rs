//! The blocking delay.
//!
//! A delay is a snapshot of the tick counter taken when the wait begins. The
//! caller spins, reading the counter, for as long as [`Delay::is_waiting`]
//! says so. Waits given in microseconds are served by the same tick
//! mechanism: they are rounded up to whole ticks, and never last less than
//! one tick.

use vstd::prelude::*;
use crate::system::systick::{tick_after, ticks_between, TickType};

verus! {

/// Microseconds in one tick.
pub const MICROS_PER_TICK: u32 = 1000;

/// The number of ticks to wait for a delay of `us` microseconds: `us / 1000`
/// rounded up, and one tick at least.
pub open spec fn spec_ticks_for_us(us: u32) -> int {
    if us <= MICROS_PER_TICK {
        1
    } else {
        (us + MICROS_PER_TICK - 1) / (MICROS_PER_TICK as int)
    }
}

/// Computes the number of ticks to wait for a delay of `us` microseconds.
pub fn ticks_for_us(us: u32) -> (ticks: u32)
    ensures
        ticks == spec_ticks_for_us(us),
        ticks >= 1,
        ticks * 1000 >= us,
        us > 1000 ==> (ticks - 1) * 1000 < us,
{
    if us > MICROS_PER_TICK {
        let whole: u32 = us / MICROS_PER_TICK;
        if us % MICROS_PER_TICK != 0 {
            whole + 1
        } else {
            whole
        }
    } else {
        1
    }
}

/// A blocking wait in progress. Its view is the tick at which the wait began.
#[derive(Clone, Copy)]
pub struct Delay {
    tick: TickType,
}

impl View for Delay {
    type V = TickType;

    closed spec fn view(&self) -> TickType {
        self.tick
    }
}

impl Delay {
    /// A delay whose snapshot is tick zero.
    pub fn new() -> (delay: Self)
        ensures
            delay@ == 0,
    {
        Delay { tick: 0 }
    }

    /// Begins a wait at the tick `now`.
    pub fn begin(&mut self, now: TickType)
        ensures
            final(self)@ == now,
    {
        self.tick = now;
    }

    /// Whether a wait of `ms` ticks that began at the snapshot is still going
    /// on at the tick `now`: true exactly while fewer than `ms` ticks have
    /// passed.
    pub fn is_waiting(&self, now: TickType, ms: u32) -> (waiting: bool)
        ensures
            waiting == (ticks_between(self@, now) < ms),
    {
        now.wrapping_sub(self.tick) < ms
    }
}

/// A wait never ends early and always ends: `n` ticks after it began, a wait
/// of `ms` ticks is still going on exactly if `n < ms`.
pub proof fn lemma_delay_ends_after_duration(began: TickType, ms: u32, n: u32)
    ensures
        (ticks_between(began, tick_after(began, n as nat)) < ms) <==> n < ms,
{
}

/// A wait given in microseconds lasts at least as long as was asked for.
pub proof fn lemma_ticks_cover_micros(us: u32)
    ensures
        spec_ticks_for_us(us) >= 1,
        spec_ticks_for_us(us) * MICROS_PER_TICK >= us,
        spec_ticks_for_us(us) <= u32::MAX,
{
}

} // verus!
