//! The state that one connection keeps about its peer's liveness.

use std::sync::Arc;
use vstd::prelude::*;

use crate::clock::Clock;
use crate::state::Config;
use crate::state::Nanos;

verus! {

/// What one liveness check calls for.
#[derive(Clone, Copy, Debug, PartialEq, Eq, Structural)]
pub enum Assessment {
    /// The peer was heard from recently enough: nothing to do.
    Alive,
    /// The peer has been silent for too long: ask whether it is there.
    Probe,
    /// The peer has been silent for too long and has left more probes
    /// unanswered than the configuration tolerates: give the connection up.
    Expired,
}

/// Liveness bookkeeping of one connection. Times are readings of the
/// connection's own clock, which starts at zero when the state is created.
pub struct WsState {
    /// The settings shared by all connections.
    pub cfg: Arc<Config>,
    /// Probes sent since the peer was last heard from.
    pub timeout_count: u32,
    /// When the peer was last heard from.
    pub heartbeat: Nanos,
    /// The clock that `heartbeat` is a reading of.
    pub clock: Clock,
}

impl WsState {
    /// How long the peer has been silent at `now`. A reading that lies
    /// before the last sign of life counts as no silence at all.
    pub open spec fn silence(&self, now: Nanos) -> nat {
        if now >= self.heartbeat {
            (now - self.heartbeat) as nat
        } else {
            0
        }
    }

    /// At `now` the peer has been silent for longer than the configured
    /// timeout.
    pub open spec fn timed_out(&self, now: Nanos) -> bool {
        self.silence(now) > self.cfg.timeout
    }

    /// More probes have gone unanswered than the configuration tolerates.
    /// Never so when the configuration sets no limit.
    pub open spec fn exhausted(&self) -> bool {
        self.cfg.max_timeout != 0 && self.timeout_count > self.cfg.max_timeout
    }

    /// What a liveness check at `now` calls for.
    pub open spec fn assessment(&self, now: Nanos) -> Assessment {
        if !self.timed_out(now) {
            Assessment::Alive
        } else if self.exhausted() {
            Assessment::Expired
        } else {
            Assessment::Probe
        }
    }

    /// The state once the peer was heard from at `now`.
    pub open spec fn refreshed(self, now: Nanos) -> WsState {
        WsState { timeout_count: 0, heartbeat: now, ..self }
    }

    /// The state once one more probe was sent. The count stops at the
    /// largest value it can hold.
    pub open spec fn probed(self) -> WsState {
        WsState {
            timeout_count: if self.timeout_count < u32::MAX {
                (self.timeout_count + 1) as u32
            } else {
                u32::MAX
            },
            ..self
        }
    }

    /// How many of the ticks at `ticks` find the peer silent for longer than
    /// the configured timeout.
    pub open spec fn overdue(&self, ticks: Seq<Nanos>) -> nat
        decreases ticks.len(),
    {
        if ticks.len() == 0 {
            0
        } else if self.timed_out(ticks.last()) {
            self.overdue(ticks.drop_last()) + 1
        } else {
            self.overdue(ticks.drop_last())
        }
    }

    /// The state of a connection that is being set up now: a fresh clock,
    /// the peer heard from at time zero, no probe sent.
    pub fn new(cfg: Arc<Config>) -> (state: Self)
        ensures
            state.cfg == cfg,
            state.timeout_count == 0,
            state.heartbeat == 0,
    {
        WsState::with_clock(cfg, Clock::start())
    }

    /// The state of a connection that measures time with `clock` and was
    /// set up when `clock` was started.
    pub fn with_clock(cfg: Arc<Config>, clock: Clock) -> (state: Self)
        ensures
            state == (WsState { cfg, timeout_count: 0, heartbeat: 0, clock }),
    {
        WsState { cfg, timeout_count: 0, heartbeat: 0, clock }
    }

    /// Reads the connection's clock.
    pub fn now(&self) -> Nanos {
        self.clock.now()
    }

    /// Computes how long the peer has been silent at `now`.
    pub fn elapsed(&self, now: Nanos) -> (span: Nanos)
        ensures
            span == self.silence(now),
    {
        if now >= self.heartbeat {
            now - self.heartbeat
        } else {
            0
        }
    }

    /// Decides what a liveness check at `now` calls for.
    pub fn assess(&self, now: Nanos) -> (verdict: Assessment)
        ensures
            verdict == self.assessment(now),
    {
        let limit: u8 = self.cfg.max_timeout;
        if self.elapsed(now) <= self.cfg.timeout {
            Assessment::Alive
        } else if limit != 0 && self.timeout_count > limit as u32 {
            Assessment::Expired
        } else {
            Assessment::Probe
        }
    }

    /// Records that the peer was heard from at `now`: the silence starts
    /// anew and no probe is outstanding any more. To be called for every
    /// inbound frame, whether it answers a probe or carries a payload.
    pub fn on_liveness_observed(&mut self, now: Nanos)
        ensures
            *final(self) == old(self).refreshed(now),
    {
        self.heartbeat = now;
        self.timeout_count = 0;
    }

    /// Records that one more probe was sent.
    pub fn on_probe_sent(&mut self)
        ensures
            *final(self) == old(self).probed(),
    {
        if self.timeout_count < u32::MAX {
            self.timeout_count = self.timeout_count + 1;
        }
    }
}

} // verus!
