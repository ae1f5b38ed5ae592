//! The heartbeat monitor: on every tick of its timer it decides whether to
//! leave the peer alone, to probe it, or to give the connection up.

use ntex::channel::mpsc::Sender;
use ntex::ws::Message;
use std::sync::Arc;
use vstd::prelude::*;

use crate::outbound::enqueue_probe;
use crate::state::Config;
use crate::state::Nanos;
use crate::ws::Assessment;
use crate::ws::WsState;

verus! {

/// Where the monitor stands.
#[derive(Clone, Copy, Debug, PartialEq, Eq, Structural)]
pub enum MonitorPhase {
    /// Waiting for the next tick of the timer or for a shutdown request.
    Waiting,
    /// A tick called for a probe; the outcome of queueing it is awaited.
    Probing,
    /// Closed: the peer left more probes unanswered than tolerated.
    ClosedByTimeout,
    /// Closed: a probe could not be queued, the connection is gone.
    ClosedByError,
    /// Closed: the connection is being torn down.
    ClosedByRequest,
}

/// What happened to the monitor.
#[derive(Clone, Copy, Debug, PartialEq, Eq, Structural)]
pub enum MonitorEvent {
    /// The timer fired; the connection's clock read `now`.
    Tick { now: Nanos },
    /// The outbound queue took the probe.
    ProbeQueued,
    /// The outbound queue refused the probe.
    ProbeRejected,
    /// The peer was heard from; the connection's clock read `now`.
    Liveness { now: Nanos },
    /// The connection is closing.
    Shutdown,
}

/// What the monitor expects of whoever drives it.
#[derive(Clone, Copy, Debug, PartialEq, Eq, Structural)]
pub enum MonitorAction {
    /// Wait one heartbeat interval, or less if a shutdown request arrives
    /// first, and report which of the two happened.
    Wait,
    /// Queue a probe for the peer and report whether the queue took it.
    Probe,
    /// Stop: the monitor is closed.
    Stop,
}

impl MonitorPhase {
    /// The phase is one of the closed ones.
    pub open spec fn closed(self) -> bool {
        self is ClosedByTimeout || self is ClosedByError || self is ClosedByRequest
    }

    /// What a monitor in this phase expects of its driver.
    pub open spec fn pending(self) -> MonitorAction {
        match self {
            MonitorPhase::Waiting => MonitorAction::Wait,
            MonitorPhase::Probing => MonitorAction::Probe,
            _ => MonitorAction::Stop,
        }
    }

    /// Tells whether the phase is one of the closed ones.
    pub fn is_closed(self) -> (yes: bool)
        ensures
            yes == self.closed(),
    {
        match self {
            MonitorPhase::Waiting | MonitorPhase::Probing => false,
            _ => true,
        }
    }

    /// Tells what a monitor in this phase expects of its driver.
    pub fn action(self) -> (action: MonitorAction)
        ensures
            action == self.pending(),
    {
        match self {
            MonitorPhase::Waiting => MonitorAction::Wait,
            MonitorPhase::Probing => MonitorAction::Probe,
            _ => MonitorAction::Stop,
        }
    }
}

/// The heartbeat monitor of one connection.
pub struct Monitor {
    /// What the connection knows of its peer's liveness.
    pub state: WsState,
    /// Where the monitor stands.
    pub phase: MonitorPhase,
}

impl Monitor {
    /// The monitor after `event`.
    ///
    /// A closed monitor stays as it is. An open one is closed by a shutdown
    /// request and takes note of every sign of life. While waiting, a tick
    /// is assessed: it leaves the monitor alone, or sends it probing with
    /// one more probe counted, or closes it. While probing, only the outcome
    /// of the probe moves it on. An event that the phase has no use for is
    /// ignored.
    pub open spec fn next(self, event: MonitorEvent) -> Monitor {
        match self.phase {
            MonitorPhase::Waiting => match event {
                MonitorEvent::Tick { now } => match self.state.assessment(now) {
                    Assessment::Alive => self,
                    Assessment::Probe => Monitor {
                        state: self.state.probed(),
                        phase: MonitorPhase::Probing,
                    },
                    Assessment::Expired => Monitor {
                        phase: MonitorPhase::ClosedByTimeout,
                        ..self
                    },
                },
                MonitorEvent::Liveness { now } => Monitor {
                    state: self.state.refreshed(now),
                    ..self
                },
                MonitorEvent::Shutdown => Monitor { phase: MonitorPhase::ClosedByRequest, ..self },
                _ => self,
            },
            MonitorPhase::Probing => match event {
                MonitorEvent::ProbeQueued => Monitor { phase: MonitorPhase::Waiting, ..self },
                MonitorEvent::ProbeRejected => Monitor {
                    phase: MonitorPhase::ClosedByError,
                    ..self
                },
                MonitorEvent::Liveness { now } => Monitor {
                    state: self.state.refreshed(now),
                    ..self
                },
                MonitorEvent::Shutdown => Monitor { phase: MonitorPhase::ClosedByRequest, ..self },
                _ => self,
            },
            _ => self,
        }
    }

    /// The monitor after a tick at `now`, the probe, if the tick called for
    /// one, having been taken by the queue (`queued`) or refused.
    pub open spec fn ticked(self, now: Nanos, queued: bool) -> Monitor {
        let asked = self.next(MonitorEvent::Tick { now });
        if asked.phase is Probing {
            asked.next(
                if queued {
                    MonitorEvent::ProbeQueued
                } else {
                    MonitorEvent::ProbeRejected
                },
            )
        } else {
            asked
        }
    }

    /// The monitor after the events of `events`, first to last.
    pub open spec fn run(self, events: Seq<MonitorEvent>) -> Monitor
        decreases events.len(),
    {
        if events.len() == 0 {
            self
        } else {
            self.run(events.drop_last()).next(events.last())
        }
    }

    /// The monitor after a tick at each reading of `ticks`, first to last,
    /// the outbound queue having taken every probe, and nothing else having
    /// happened: no sign of life, no shutdown request.
    pub open spec fn unanswered(self, ticks: Seq<Nanos>) -> Monitor
        decreases ticks.len(),
    {
        if ticks.len() == 0 {
            self
        } else {
            self.unanswered(ticks.drop_last()).ticked(ticks.last(), true)
        }
    }

    /// A monitor for a connection that is being set up now.
    pub fn new(cfg: Arc<Config>) -> (monitor: Self)
        ensures
            monitor.phase is Waiting,
            monitor.state.cfg == cfg,
            monitor.state.timeout_count == 0,
            monitor.state.heartbeat == 0,
    {
        Monitor::watch(WsState::new(cfg))
    }

    /// A monitor that waits for its first tick, for a connection in `state`.
    pub fn watch(state: WsState) -> (monitor: Self)
        ensures
            monitor == (Monitor { state, phase: MonitorPhase::Waiting }),
    {
        Monitor { state, phase: MonitorPhase::Waiting }
    }

    /// Takes `event` in and tells what to do next.
    pub fn step(&mut self, event: MonitorEvent) -> (action: MonitorAction)
        ensures
            *final(self) == old(self).next(event),
            action == final(self).phase.pending(),
    {
        match self.phase {
            MonitorPhase::Waiting => match event {
                MonitorEvent::Tick { now } => match self.state.assess(now) {
                    Assessment::Alive => {},
                    Assessment::Probe => {
                        self.state.on_probe_sent();
                        self.phase = MonitorPhase::Probing;
                    },
                    Assessment::Expired => {
                        self.phase = MonitorPhase::ClosedByTimeout;
                    },
                },
                MonitorEvent::Liveness { now } => {
                    self.state.on_liveness_observed(now);
                },
                MonitorEvent::Shutdown => {
                    self.phase = MonitorPhase::ClosedByRequest;
                },
                _ => {},
            },
            MonitorPhase::Probing => match event {
                MonitorEvent::ProbeQueued => {
                    self.phase = MonitorPhase::Waiting;
                },
                MonitorEvent::ProbeRejected => {
                    self.phase = MonitorPhase::ClosedByError;
                },
                MonitorEvent::Liveness { now } => {
                    self.state.on_liveness_observed(now);
                },
                MonitorEvent::Shutdown => {
                    self.phase = MonitorPhase::ClosedByRequest;
                },
                _ => {},
            },
            _ => {},
        }
        self.phase.action()
    }

    /// Handles a tick at `now` from beginning to end: assesses the peer
    /// and, where a probe is called for, puts it on `queue` and takes the
    /// outcome in. Whether the queue takes the probe is the queue's to say,
    /// so the result is one of two.
    pub fn tick_at(&mut self, now: Nanos, queue: &Sender<Message>) -> (action: MonitorAction)
        ensures
            *final(self) == old(self).ticked(now, true)
                || *final(self) == old(self).ticked(now, false),
            !(old(self).next(MonitorEvent::Tick { now }).phase is Probing)
                ==> *final(self) == old(self).next(MonitorEvent::Tick { now }),
            action == final(self).phase.pending(),
            !(action is Probe),
    {
        let asked = self.step(MonitorEvent::Tick { now });
        match asked {
            MonitorAction::Probe => {
                if enqueue_probe(queue) {
                    self.step(MonitorEvent::ProbeQueued)
                } else {
                    self.step(MonitorEvent::ProbeRejected)
                }
            },
            _ => asked,
        }
    }

    /// Handles a tick at the present reading of the connection's clock.
    pub fn tick(&mut self, queue: &Sender<Message>) -> (action: MonitorAction)
        ensures
            exists|now: Nanos, queued: bool| *final(self) == #[trigger] old(self).ticked(now, queued),
            action == final(self).phase.pending(),
            !(action is Probe),
    {
        let now = self.state.now();
        self.tick_at(now, queue)
    }

    /// Takes note that the peer was heard from at `now`.
    pub fn on_liveness_observed(&mut self, now: Nanos)
        ensures
            *final(self) == old(self).next(MonitorEvent::Liveness { now }),
    {
        self.step(MonitorEvent::Liveness { now });
    }

    /// Takes note that the connection is closing.
    pub fn shutdown(&mut self)
        ensures
            *final(self) == old(self).next(MonitorEvent::Shutdown),
            final(self).phase.closed(),
    {
        self.step(MonitorEvent::Shutdown);
    }
}

/// A closed monitor is closed for good: no event changes it, and all it
/// asks of its driver is to stop. A shutdown request that finds the monitor
/// closed is one such event: it does nothing and is no error.
pub proof fn law_closed_is_terminal(monitor: Monitor, events: Seq<MonitorEvent>)
    requires
        monitor.phase.closed(),
    ensures
        monitor.run(events) == monitor,
        monitor.run(events).phase.pending() == MonitorAction::Stop,
    decreases events.len(),
{
    if events.len() > 0 {
        law_closed_is_terminal(monitor, events.drop_last());
    }
}

/// No event changes the configuration that a monitor works with, nor its
/// clock.
pub proof fn law_configuration_is_kept(monitor: Monitor, events: Seq<MonitorEvent>)
    ensures
        monitor.run(events).state.cfg == monitor.state.cfg,
        monitor.run(events).state.clock == monitor.state.clock,
    decreases events.len(),
{
    if events.len() > 0 {
        law_configuration_is_kept(monitor, events.drop_last());
    }
}

/// A tick that is handled from beginning to end is a run of one or two
/// events: the tick, and the outcome of the probe if the tick called for
/// one. So what holds after every run of events holds after every such tick.
pub proof fn law_tick_is_a_run(monitor: Monitor, now: Nanos, queued: bool)
    ensures
        monitor.ticked(now, queued) == monitor.run(seq![MonitorEvent::Tick { now }])
            || monitor.ticked(now, queued) == monitor.run(
            seq![
                MonitorEvent::Tick { now },
                if queued {
                    MonitorEvent::ProbeQueued
                } else {
                    MonitorEvent::ProbeRejected
                },
            ],
        ),
{
    let tick = MonitorEvent::Tick { now };
    let outcome = if queued {
        MonitorEvent::ProbeQueued
    } else {
        MonitorEvent::ProbeRejected
    };
    let one = seq![tick];
    let two = seq![tick, outcome];
    assert(one.drop_last() =~= Seq::<MonitorEvent>::empty());
    assert(two.drop_last() =~= one);
    assert(monitor.run(one.drop_last()) == monitor);
    assert(monitor.run(one) == monitor.next(tick));
    assert(monitor.run(two) == monitor.next(tick).next(outcome));
}

/// Where the configuration sets no limit on unanswered probes, the monitor
/// never closes for want of an answer, whatever happens to it and however
/// long the peer stays silent. It can still be closed by a shutdown request
/// or by a probe that the queue refuses.
pub proof fn law_unlimited_never_times_out(monitor: Monitor, events: Seq<MonitorEvent>)
    requires
        monitor.state.cfg.unlimited(),
        !(monitor.phase is ClosedByTimeout),
    ensures
        !(monitor.run(events).phase is ClosedByTimeout),
    decreases events.len(),
{
    if events.len() > 0 {
        law_unlimited_never_times_out(monitor, events.drop_last());
        law_configuration_is_kept(monitor, events.drop_last());
    }
}

/// Where the configuration sets no limit, a monitor whose peer is never
/// heard from again goes on probing: it sends one probe at each tick that
/// finds the peer silent for too long and is waiting after every tick. Its
/// count of probes follows until it holds the largest value it can.
pub proof fn law_unlimited_probes_forever(monitor: Monitor, ticks: Seq<Nanos>)
    requires
        monitor.phase is Waiting,
        monitor.state.timeout_count == 0,
        monitor.state.cfg.unlimited(),
    ensures
        monitor.unanswered(ticks) == (Monitor {
            state: WsState {
                timeout_count: if monitor.state.overdue(ticks) <= u32::MAX {
                    monitor.state.overdue(ticks) as u32
                } else {
                    u32::MAX
                },
                ..monitor.state
            },
            phase: MonitorPhase::Waiting,
        }),
    decreases ticks.len(),
{
    if ticks.len() > 0 {
        law_unlimited_probes_forever(monitor, ticks.drop_last());
    }
}

/// How a monitor gives up a peer that is never heard from again. Let the
/// configuration tolerate `max_timeout > 0` unanswered probes, and let the
/// monitor start waiting with no probe sent. Over any ticks, it sends one
/// probe at each tick that finds the peer silent for too long, until
/// `max_timeout + 1` probes are out. It is still waiting then. The next such
/// tick, which comes after more than `max_timeout` others, closes it, and no
/// tick before that does.
pub proof fn law_silent_peer_is_given_up(monitor: Monitor, ticks: Seq<Nanos>)
    requires
        monitor.phase is Waiting,
        monitor.state.timeout_count == 0,
        monitor.state.cfg.max_timeout > 0,
    ensures
        monitor.state.overdue(ticks) <= monitor.state.cfg.max_timeout + 1
            ==> monitor.unanswered(ticks) == (Monitor {
                state: WsState {
                    timeout_count: monitor.state.overdue(ticks) as u32,
                    ..monitor.state
                },
                phase: MonitorPhase::Waiting,
            }),
        monitor.state.overdue(ticks) > monitor.state.cfg.max_timeout + 1
            ==> monitor.unanswered(ticks) == (Monitor {
                state: WsState {
                    timeout_count: (monitor.state.cfg.max_timeout + 1) as u32,
                    ..monitor.state
                },
                phase: MonitorPhase::ClosedByTimeout,
            }),
    decreases ticks.len(),
{
    if ticks.len() > 0 {
        law_silent_peer_is_given_up(monitor, ticks.drop_last());
    }
}

/// A shutdown request closes a monitor that is waiting for its timer, or
/// for the outcome of a probe, at once: the monitor asks its driver to stop
/// and takes no further tick. The connection state is left as it was.
pub proof fn law_shutdown_closes_at_once(monitor: Monitor)
    requires
        !monitor.phase.closed(),
    ensures
        monitor.next(MonitorEvent::Shutdown) == (Monitor {
            phase: MonitorPhase::ClosedByRequest,
            ..monitor
        }),
        monitor.next(MonitorEvent::Shutdown).phase.pending() == MonitorAction::Stop,
{
}

/// Until the peer has been silent for longer than the timeout, a tick does
/// nothing: no probe is asked for and the monitor keeps waiting.
pub proof fn law_no_probe_before_timeout(monitor: Monitor, now: Nanos)
    requires
        monitor.phase is Waiting,
        monitor.state.silence(now) <= monitor.state.cfg.timeout,
    ensures
        monitor.next(MonitorEvent::Tick { now }) == monitor,
        monitor.next(MonitorEvent::Tick { now }).phase.pending() == MonitorAction::Wait,
{
}

/// After a sign of life at `seen`, no tick asks for a probe before the
/// timeout has passed once more, and the count of unanswered probes starts
/// again at zero.
pub proof fn law_liveness_restarts_the_timeout(monitor: Monitor, seen: Nanos, now: Nanos)
    requires
        monitor.phase is Waiting,
        now <= seen + monitor.state.cfg.timeout,
    ensures
        monitor.next(MonitorEvent::Liveness { now: seen }).state.timeout_count == 0,
        monitor.next(MonitorEvent::Liveness { now: seen }).next(MonitorEvent::Tick { now })
            == monitor.next(MonitorEvent::Liveness { now: seen }),
{
}

} // verus!
