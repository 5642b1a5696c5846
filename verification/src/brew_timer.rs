//! A stopwatch for brews. Times are milliseconds of a monotonic clock supplied by the caller.
use vstd::prelude::*;

verus! {

/// A stopwatch that remembers the whole seconds of its last run.
#[derive(Clone, Copy)]
pub struct BrewTimer {
    started_at: Option<u64>,
    secs: u64,
}

/// Milliseconds from `since` to `now`, zero when `now` is earlier.
pub open spec fn span_ms(since: u64, now: u64) -> u64 {
    if now >= since { (now - since) as u64 } else { 0 }
}

/// A call that changes a timer: `start` or `stop` at a time.
pub enum BrewCall {
    Start(u64),
    Stop(u64),
}

/// The timer (start time of the running brew, stored seconds) after one call.
pub open spec fn brew_step(t: (Option<u64>, u64), call: BrewCall) -> (Option<u64>, u64) {
    match call {
        BrewCall::Start(now) => (Some(now), t.1),
        BrewCall::Stop(now) => (
            None,
            match t.0 {
                Some(s) => span_ms(s, now) / 1000,
                None => t.1,
            },
        ),
    }
}

/// The timer after `calls` in order.
pub open spec fn brew_run(t: (Option<u64>, u64), calls: Seq<BrewCall>) -> (Option<u64>, u64)
    decreases calls.len(),
{
    if calls.len() == 0 {
        t
    } else {
        brew_step(brew_run(t, calls.drop_last()), calls.last())
    }
}

impl Default for BrewTimer {
    fn default() -> (t: Self)
        ensures
            t.start_time() == None::<u64>,
            t.stored_secs() == 0,
    {
        BrewTimer::new()
    }
}

impl BrewTimer {
    /// When the running brew started.
    pub closed spec fn start_time(&self) -> Option<u64> {
        self.started_at
    }

    /// Whole seconds of the last completed run.
    pub closed spec fn stored_secs(&self) -> u64 {
        self.secs
    }

    /// A stopped timer with no recorded run.
    pub fn new() -> (t: Self)
        ensures
            t.start_time() == None::<u64>,
            t.stored_secs() == 0,
    {
        BrewTimer { started_at: None, secs: 0 }
    }

    /// Whether the timer is running.
    pub fn is_running(&self) -> (b: bool)
        ensures
            b == self.start_time().is_some(),
    {
        self.started_at.is_some()
    }

    /// Starts (or restarts) the timer at `now`.
    pub fn start(&mut self, now: u64)
        ensures
            (final(self).start_time(), final(self).stored_secs()) == brew_step(
                (old(self).start_time(), old(self).stored_secs()),
                BrewCall::Start(now),
            ),
    {
        self.started_at = Some(now);
    }

    /// Stops the timer at `now`, remembering the elapsed whole seconds.
    pub fn stop(&mut self, now: u64)
        ensures
            (final(self).start_time(), final(self).stored_secs()) == brew_step(
                (old(self).start_time(), old(self).stored_secs()),
                BrewCall::Stop(now),
            ),
    {
        self.secs = self.elapsed_secs(now);
        self.started_at = None;
    }

    /// Milliseconds since the start while running, zero when stopped.
    pub fn elapsed(&self, now: u64) -> (r: u64)
        ensures
            r == (match self.start_time() {
                Some(t) => span_ms(t, now),
                None => 0,
            }),
    {
        match self.started_at {
            Some(t) => if now >= t { now - t } else { 0 },
            None => 0,
        }
    }

    /// Whole seconds of the run in progress, or of the last run when stopped.
    pub fn elapsed_secs(&self, now: u64) -> (r: u64)
        ensures
            r == (match self.start_time() {
                Some(t) => span_ms(t, now) / 1000,
                None => self.stored_secs(),
            }),
    {
        if self.started_at.is_none() {
            self.secs
        } else {
            self.elapsed(now) / 1000
        }
    }
}

} // verus!
