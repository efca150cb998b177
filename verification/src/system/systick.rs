//! The monotonic tick counter.
//!
//! The counter is a 32-bit value that the periodic timer interrupt increments
//! by one and that rolls over to zero after `u32::MAX`. Durations are always
//! measured as the distance from an earlier snapshot to a later one, which
//! stays correct across one rollover.

use vstd::prelude::*;

verus! {

/// The type of a tick count.
pub type TickType = u32;

/// Ticks the counter makes per second: one tick is one millisecond.
pub const TICKS_PER_SECOND: u32 = 1000;

/// The number of ticks from the snapshot `start` to the later reading `now`,
/// given that the counter rolled over at most once in between.
pub open spec fn ticks_between(start: TickType, now: TickType) -> int {
    if now >= start {
        now - start
    } else {
        now - start + 0x1_0000_0000
    }
}

/// The reading of a counter that stood at `start` and then ticked `n` times.
pub open spec fn tick_after(start: TickType, n: nat) -> TickType {
    ((start + n) % 0x1_0000_0000) as TickType
}

/// The reload count that makes a timer clocked at `clock_hz` fire once per
/// millisecond.
pub open spec fn spec_reload_value(clock_hz: u32) -> u32 {
    clock_hz / TICKS_PER_SECOND
}

/// Computes the reload count for a timer clocked at `clock_hz`.
#[verifier::when_used_as_spec(spec_reload_value)]
pub fn reload_value(clock_hz: u32) -> (reload: u32)
    ensures
        reload == spec_reload_value(clock_hz),
        reload * 1000 <= clock_hz < (reload + 1) * 1000,
{
    clock_hz / TICKS_PER_SECOND
}

/// Ticks elapsed from `start` to `now`, by wraparound subtraction.
pub fn elapsed_ticks(start: TickType, now: TickType) -> (elapsed: TickType)
    ensures
        elapsed == ticks_between(start, now),
{
    now.wrapping_sub(start)
}

/// The counter itself. Its view is the current count.
pub struct TickCounter {
    count: TickType,
}

impl View for TickCounter {
    type V = TickType;

    closed spec fn view(&self) -> TickType {
        self.count
    }
}

impl TickCounter {
    /// A counter that starts at zero.
    pub fn new() -> (counter: Self)
        ensures
            counter@ == 0,
    {
        TickCounter { count: 0 }
    }

    /// Advances the counter by exactly one tick, rolling over after
    /// `u32::MAX`. This is the whole body of the tick interrupt.
    pub fn increment(&mut self)
        ensures
            final(self)@ == tick_after(old(self)@, 1),
            ticks_between(old(self)@, final(self)@) == 1,
    {
        self.count = self.count.wrapping_add(1);
    }
}

/// Reads the counter.
pub fn current_tick(counter: &TickCounter) -> (now: TickType)
    ensures
        now == counter@,
{
    counter.count
}

/// Wraparound subtraction measures elapsed time correctly: a counter read as
/// `start` and read again after `n` further ticks, with `n` below 2^32, is
/// `n` ticks later, whether or not it rolled over in between.
pub proof fn lemma_elapsed_across_rollover(start: TickType, n: TickType)
    ensures
        ticks_between(start, tick_after(start, n as nat)) == n,
{
}

/// For any two readings, advancing the earlier one by their wraparound
/// distance gives the later one.
pub proof fn lemma_advance_by_elapsed(start: TickType, now: TickType)
    ensures
        0 <= ticks_between(start, now) <= u32::MAX,
        tick_after(start, ticks_between(start, now) as nat) == now,
{
}

/// Ticks accumulate: `m` ticks followed by `n` ticks are `m + n` ticks.
pub proof fn lemma_tick_after_add(start: TickType, m: nat, n: nat)
    ensures
        tick_after(tick_after(start, m), n) == tick_after(start, m + n),
{
    vstd::arithmetic::div_mod::lemma_add_mod_noop(
        (start + m) as int,
        n as int,
        0x1_0000_0000,
    );
    vstd::arithmetic::div_mod::lemma_small_mod(
        ((start + m) % 0x1_0000_0000) as nat,
        0x1_0000_0000,
    );
}

} // verus!
