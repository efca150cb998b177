//! The polled software timer.
//!
//! A timer is armed with a timeout and a snapshot of the tick counter, and is
//! then polled: it has wrapped once at least `timeout` ticks have passed since
//! the snapshot. Polling never changes the timer; re-arming a periodic timer
//! is up to the caller.

use vstd::prelude::*;
use crate::system::systick::{tick_after, ticks_between, TickType};

verus! {

/// Why a timer operation was refused.
#[derive(Clone, Copy, Debug, PartialEq, Eq, Structural)]
pub enum Error {
    /// The timer was not started, so there was nothing to cancel.
    Canceled,
}

/// The answer of a poll that came too early.
#[derive(Clone, Copy, Debug, PartialEq, Eq, Structural)]
pub struct WouldBlock;

/// What a timer is: the tick it was armed at, its timeout in ticks, and
/// whether it is armed.
pub struct TimerState {
    pub start_tick: TickType,
    pub timeout: TickType,
    pub started: bool,
}

impl TimerState {
    /// The state of a timer that was never started.
    pub open spec fn idle() -> TimerState {
        TimerState { start_tick: 0, timeout: 0, started: false }
    }

    /// Armed at `now` with `timeout`.
    pub open spec fn start(self, timeout: TickType, now: TickType) -> TimerState {
        TimerState { start_tick: now, timeout, started: true }
    }

    /// The snapshot moved to `now`; timeout and arming as they were.
    pub open spec fn reset(self, now: TickType) -> TimerState {
        TimerState { start_tick: now, ..self }
    }

    /// Disarmed; snapshot and timeout as they were.
    pub open spec fn stop(self) -> TimerState {
        TimerState { started: false, ..self }
    }

    /// Whether the timeout has run out at the tick `now`: the timer is armed
    /// and at least `timeout` ticks lie between the snapshot and `now`.
    pub open spec fn has_wrapped(self, now: TickType) -> bool {
        self.started && ticks_between(self.start_tick, now) >= self.timeout
    }

    /// What a poll at the tick `now` answers.
    pub open spec fn wait(self, now: TickType) -> Result<(), WouldBlock> {
        if self.has_wrapped(now) {
            Ok(())
        } else {
            Err(WouldBlock)
        }
    }

    /// What cancelling answers: an error unless the timer is armed.
    pub open spec fn cancel(self) -> Result<(), Error> {
        if self.started {
            Ok(())
        } else {
            Err(Error::Canceled)
        }
    }
}

/// A software timer.
#[derive(Clone, Copy)]
pub struct Timer {
    start_tick: TickType,
    timeout: TickType,
    is_started: bool,
}

impl View for Timer {
    type V = TimerState;

    closed spec fn view(&self) -> TimerState {
        TimerState {
            start_tick: self.start_tick,
            timeout: self.timeout,
            started: self.is_started,
        }
    }
}

impl Timer {
    /// An idle timer.
    pub fn new() -> (timer: Self)
        ensures
            timer@ == TimerState::idle(),
    {
        Timer { start_tick: 0, timeout: 0, is_started: false }
    }

    /// Arms the timer at the tick `now` to run out `timeout` ticks later.
    pub fn start(&mut self, timeout: TickType, now: TickType)
        ensures
            final(self)@ == old(self)@.start(timeout, now),
    {
        self.timeout = timeout;
        self.start_tick = now;
        self.is_started = true;
    }

    /// Takes a new snapshot at the tick `now` and keeps the timeout, so that
    /// a running timer starts its period over.
    pub fn reset(&mut self, now: TickType)
        ensures
            final(self)@ == old(self)@.reset(now),
    {
        self.start_tick = now;
    }

    /// Whether the timer is armed.
    pub fn is_started(&self) -> (started: bool)
        ensures
            started == self@.started,
    {
        self.is_started
    }

    /// Whether the timeout has run out at the tick `now`.
    pub fn has_wrapped(&self, now: TickType) -> (wrapped: bool)
        ensures
            wrapped == self@.has_wrapped(now),
    {
        if self.is_started {
            now.wrapping_sub(self.start_tick) >= self.timeout
        } else {
            false
        }
    }

    /// Disarms the timer.
    pub fn stop(&mut self)
        ensures
            final(self)@ == old(self)@.stop(),
    {
        self.is_started = false;
    }

    /// Polls the timer at the tick `now` without blocking: `Ok` once an armed
    /// timer has run out, `Err(WouldBlock)` before that and when idle.
    pub fn wait(&self, now: TickType) -> (ready: Result<(), WouldBlock>)
        ensures
            ready == self@.wait(now),
            ready.is_ok() <==> self@.has_wrapped(now),
    {
        if self.has_wrapped(now) {
            Ok(())
        } else {
            Err(WouldBlock)
        }
    }

    /// Disarms an armed timer. A timer that is not armed is left as it is and
    /// the call fails with [`Error::Canceled`].
    pub fn cancel(&mut self) -> (done: Result<(), Error>)
        ensures
            done == old(self)@.cancel(),
            done.is_ok() <==> old(self)@.started,
            final(self)@ == old(self)@.stop(),
    {
        if !self.is_started {
            return Err(Error::Canceled);
        }
        self.stop();
        Ok(())
    }
}

/// A timer armed with a non-zero timeout has not run out at the tick it was
/// armed at. `n` ticks later, with `n` below 2^32, it has run out exactly if
/// `n` is at least the timeout, also where the counter rolled over in
/// between. Polling is a function of the timer and the tick alone: it leaves
/// the timer as it is, so polling again at the same tick answers the same.
pub proof fn lemma_runs_out_after_timeout(
    before: TimerState,
    timeout: TickType,
    now: TickType,
    n: u32,
)
    requires
        timeout > 0,
    ensures
        !before.start(timeout, now).has_wrapped(now),
        before.start(timeout, now).has_wrapped(tick_after(now, n as nat)) <==> n >= timeout,
        before.start(timeout, now).wait(tick_after(now, n as nat)).is_ok() <==> n >= timeout,
{
}

/// Resetting an armed timer starts the same timeout over from the new tick.
pub proof fn lemma_reset_restarts_period(timer: TimerState, now: TickType, n: u32)
    requires
        timer.started,
    ensures
        timer.reset(now) == timer.start(timer.timeout, now),
        timer.reset(now).has_wrapped(tick_after(now, n as nat)) <==> n >= timer.timeout,
{
}

/// Cancelling fails on a timer that was never started, on one that was
/// stopped, and on one that was already cancelled; it succeeds on an armed
/// one.
pub proof fn lemma_cancel_needs_armed_timer(timer: TimerState, timeout: TickType, now: TickType)
    ensures
        TimerState::idle().cancel() == Err::<(), Error>(Error::Canceled),
        timer.stop().cancel() == Err::<(), Error>(Error::Canceled),
        timer.start(timeout, now).cancel().is_ok(),
        timer.start(timeout, now).stop().cancel() == Err::<(), Error>(Error::Canceled),
{
}

/// An idle timer never runs out.
pub proof fn lemma_idle_never_runs_out(timer: TimerState, now: TickType)
    requires
        !timer.started,
    ensures
        !timer.has_wrapped(now),
        timer.wait(now) == Err::<(), WouldBlock>(WouldBlock),
{
}

} // verus!
