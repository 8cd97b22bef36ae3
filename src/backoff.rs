use vstd::prelude::*;

verus! {

/// The bounds of the reconnection backoff of a pool slot, in milliseconds.
#[derive(Debug, Clone, Copy, PartialEq, Eq, Structural)]
pub struct BackoffConfig {
    pub min_delay_ms: u64,
    pub max_delay_ms: u64,
}

impl BackoffConfig {
    pub open spec fn wf(self) -> bool {
        self.min_delay_ms <= self.max_delay_ms
    }
}

/// The delay that follows `delay` after one more failed attempt: twice as
/// long, but never beyond the cap.
pub open spec fn next_delay(cfg: BackoffConfig, delay: u64) -> u64 {
    if 2 * delay >= cfg.max_delay_ms {
        cfg.max_delay_ms
    } else {
        (2 * delay) as u64
    }
}

/// The delay handed out after the given number of consecutive failures.
pub open spec fn delay_after(cfg: BackoffConfig, failures: nat) -> u64
    decreases failures,
{
    if failures == 0 {
        cfg.min_delay_ms
    } else {
        next_delay(cfg, delay_after(cfg, (failures - 1) as nat))
    }
}

/// The jittered delay: at least half of `delay`, at most `delay`, chosen by `sample`.
pub open spec fn jitter(delay: u64, sample: u64) -> u64 {
    (delay / 2 + sample % (delay - delay / 2 + 1) as u64) as u64
}

/// The reconnection backoff state of one pool slot: the delay before the next attempt.
#[derive(Debug, Clone, Copy, PartialEq, Eq, Structural)]
pub struct Backoff {
    pub delay_ms: u64,
}

impl Backoff {
    pub open spec fn wf(self, cfg: BackoffConfig) -> bool {
        cfg.min_delay_ms <= self.delay_ms <= cfg.max_delay_ms
    }

    /// The backoff of a slot that has not failed yet.
    pub fn new(cfg: BackoffConfig) -> (r: Backoff)
        ensures
            r.delay_ms == cfg.min_delay_ms,
    {
        Backoff { delay_ms: cfg.min_delay_ms }
    }

    /// Returns the delay before the next attempt, and lengthens the one after it.
    pub fn next(&mut self, cfg: BackoffConfig) -> (r: u64)
        requires
            old(self).wf(cfg),
        ensures
            r == old(self).delay_ms,
            final(self).delay_ms == next_delay(cfg, old(self).delay_ms),
            final(self).wf(cfg),
    {
        let d = self.delay_ms;
        if d >= cfg.max_delay_ms - d {
            self.delay_ms = cfg.max_delay_ms;
        } else {
            self.delay_ms = 2 * d;
        }
        d
    }

    /// Back to the minimum delay, after a successful connection.
    pub fn reset(&mut self, cfg: BackoffConfig)
        ensures
            final(self).delay_ms == cfg.min_delay_ms,
    {
        self.delay_ms = cfg.min_delay_ms;
    }
}

/// Spreads `delay` over its upper half by a random `sample`, so that slots
/// failing together do not reconnect together.
pub fn jittered(delay: u64, sample: u64) -> (r: u64)
    ensures
        r == jitter(delay, sample),
        delay / 2 <= r <= delay,
{
    let half = delay / 2;
    let span = delay - half;
    let r = half + sample % (span + 1);
    r
}

/// Backoff is non-decreasing from one failure to the next until it reaches
/// the cap, which it never passes; it doubles while below the cap.
pub proof fn lemma_backoff_monotone(cfg: BackoffConfig, failures: nat)
    requires
        cfg.wf(),
    ensures
        cfg.min_delay_ms <= delay_after(cfg, failures) <= cfg.max_delay_ms,
        delay_after(cfg, failures) <= delay_after(cfg, failures + 1),
        delay_after(cfg, failures + 1) == cfg.max_delay_ms || delay_after(cfg, failures + 1) == 2
            * delay_after(cfg, failures),
    decreases failures,
{
    if failures > 0 {
        lemma_backoff_monotone(cfg, (failures - 1) as nat);
    }
}

} // verus!
