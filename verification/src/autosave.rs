//! When to take an autosave: the quiet-period, interval and overlap gates,
//! as a state machine the UI loop polls once per frame.

use vstd::prelude::*;
use crate::backup::{AUTOSAVE_INTERVAL_SECS, QUIET_SETTLE_SECS};

verus! {

/// Quiet period before an autosave, in milliseconds.
pub const QUIET_SETTLE_MS: u64 = QUIET_SETTLE_SECS * 1000;
/// Minimum spacing between autosaves, in milliseconds.
pub const AUTOSAVE_INTERVAL_MS: u64 = AUTOSAVE_INTERVAL_SECS * 1000;

/// What the UI observed this frame.
pub struct AutosaveInputs {
    /// A show file path is set (unnamed shows are never autosaved).
    pub show_named: bool,
    /// The corruption-recovery dialog is open.
    pub recovery_open: bool,
    /// The console state's change counter; `None` when its lock is held (a
    /// write is in flight, so the state is not quiet).
    pub generation: Option<u64>,
    /// Recall / cue marks are suppressed (also `true` when that lock is
    /// busy).
    pub suppressed: bool,
    /// Monotonic clock, milliseconds.
    pub now_ms: u64,
}

/// Autosave bookkeeping carried between frames.
pub struct AutosaveGate {
    pub last_seen_generation: u64,
    pub generation_changed_at_ms: u64,
    pub last_autosave_at_ms: u64,
    /// An autosave task is running.
    pub in_flight: bool,
    /// Fingerprint of the last autosaved bytes.
    pub last_fingerprint: u64,
}

/// `now - then`, saturating at zero (as `Instant::duration_since`).
pub open spec fn elapsed(now: u64, then: u64) -> int {
    if now >= then { now - then } else { 0 }
}

/// Every gate passes: a named show, no recovery dialog, an unchanged and
/// settled state, no suppression, the interval elapsed, nothing in flight.
pub open spec fn gates_pass(g: AutosaveGate, i: AutosaveInputs) -> bool {
    &&& i.show_named
    &&& !i.recovery_open
    &&& i.generation == Some(g.last_seen_generation)
    &&& elapsed(i.now_ms, g.generation_changed_at_ms) >= QUIET_SETTLE_MS
    &&& !i.suppressed
    &&& elapsed(i.now_ms, g.last_autosave_at_ms) >= AUTOSAVE_INTERVAL_MS
    &&& !g.in_flight
}

/// The frame saw a new generation (on a named show with no recovery
/// dialog): the quiet period restarts.
pub open spec fn restarts_quiet(g: AutosaveGate, i: AutosaveInputs) -> bool {
    &&& i.show_named
    &&& !i.recovery_open
    &&& i.generation is Some
    &&& i.generation->0 != g.last_seen_generation
}

impl AutosaveGate {
    /// Fresh bookkeeping at start-up (`now_ms`): nothing in flight, the
    /// interval counted from now.
    pub fn new(now_ms: u64) -> (g: AutosaveGate)
        ensures
            g.last_seen_generation == 0,
            g.generation_changed_at_ms == now_ms,
            g.last_autosave_at_ms == now_ms,
            !g.in_flight,
            g.last_fingerprint == 0,
    {
        AutosaveGate {
            last_seen_generation: 0,
            generation_changed_at_ms: now_ms,
            last_autosave_at_ms: now_ms,
            in_flight: false,
            last_fingerprint: 0,
        }
    }

    /// One frame's check. Returns `true` when an autosave should start now
    /// (and marks it in flight); a changed generation only restarts the
    /// quiet period.
    pub fn poll(&mut self, inputs: &AutosaveInputs) -> (start: bool)
        ensures
            start == gates_pass(*old(self), *inputs),
            start ==> final(self).in_flight && final(self).last_autosave_at_ms == inputs.now_ms,
            !start ==> final(self).in_flight == old(self).in_flight
                && final(self).last_autosave_at_ms == old(self).last_autosave_at_ms,
            final(self).last_fingerprint == old(self).last_fingerprint,
            restarts_quiet(*old(self), *inputs) ==> final(self).last_seen_generation == inputs.generation->0
                && final(self).generation_changed_at_ms == inputs.now_ms,
            !restarts_quiet(*old(self), *inputs) ==> final(self).last_seen_generation
                == old(self).last_seen_generation && final(self).generation_changed_at_ms
                == old(self).generation_changed_at_ms,
    {
        if !inputs.show_named || inputs.recovery_open {
            return false;
        }
        let generation = match inputs.generation {
            Some(g) => g,
            None => return false,
        };
        if generation != self.last_seen_generation {
            self.last_seen_generation = generation;
            self.generation_changed_at_ms = inputs.now_ms;
            return false;
        }
        let quiet = if inputs.now_ms >= self.generation_changed_at_ms {
            inputs.now_ms - self.generation_changed_at_ms
        } else {
            0
        };
        if quiet < QUIET_SETTLE_MS {
            return false;
        }
        if inputs.suppressed {
            return false;
        }
        let since = if inputs.now_ms >= self.last_autosave_at_ms {
            inputs.now_ms - self.last_autosave_at_ms
        } else {
            0
        };
        if since < AUTOSAVE_INTERVAL_MS {
            return false;
        }
        if self.in_flight {
            return false;
        }
        self.in_flight = true;
        self.last_autosave_at_ms = inputs.now_ms;
        true
    }

    /// Whether freshly serialized show bytes with this fingerprint differ
    /// from the last autosave (identical bytes are not written again).
    pub fn should_write(&self, fingerprint: u64) -> (w: bool)
        ensures
            w == (fingerprint != self.last_fingerprint),
    {
        fingerprint != self.last_fingerprint
    }

    /// The autosave task finished (written or not): remember its
    /// fingerprint and clear the in-flight mark.
    pub fn complete(&mut self, fingerprint: u64)
        ensures
            final(self).last_fingerprint == fingerprint,
            !final(self).in_flight,
            final(self).last_seen_generation == old(self).last_seen_generation,
            final(self).generation_changed_at_ms == old(self).generation_changed_at_ms,
            final(self).last_autosave_at_ms == old(self).last_autosave_at_ms,
    {
        self.last_fingerprint = fingerprint;
        self.in_flight = false;
    }
}


/// Autosaves never overlap: while one is in flight no frame starts
/// another.
pub proof fn law_autosaves_never_overlap(g: AutosaveGate, i: AutosaveInputs)
    requires
        g.in_flight,
    ensures
        !gates_pass(g, i),
{
}

/// An autosave starts only on a named show with no recovery dialog open,
/// after the state has been unchanged for the quiet period and at least the
/// autosave interval after the previous one.
pub proof fn law_autosave_waits(g: AutosaveGate, i: AutosaveInputs)
    requires
        gates_pass(g, i),
    ensures
        i.show_named,
        !i.recovery_open,
        i.generation == Some(g.last_seen_generation),
        i.now_ms >= g.generation_changed_at_ms + QUIET_SETTLE_MS,
        i.now_ms >= g.last_autosave_at_ms + AUTOSAVE_INTERVAL_MS,
{
}

} // verus!
