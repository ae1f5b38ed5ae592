use std::sync::Arc;
use std::task::Context;
use std::task::Poll;

use cw_manager_server::monitor::Monitor;
use cw_manager_server::monitor::MonitorAction;
use cw_manager_server::monitor::MonitorEvent;
use cw_manager_server::monitor::MonitorPhase;
use cw_manager_server::state::Config;
use cw_manager_server::ws::WsState;
use futures::task::noop_waker;
use ntex::channel::mpsc;
use ntex::channel::mpsc::Receiver;
use ntex::util::Bytes;
use ntex::ws::Message;

const SEC: u128 = 1_000_000_000;

fn config(max_timeout: u8) -> Arc<Config> {
    Arc::new(Config { db: "db.sqlite".to_string(), heartbeat: 5 * SEC, timeout: 20 * SEC, max_timeout })
}

fn monitor(max_timeout: u8) -> Monitor {
    Monitor::new(config(max_timeout))
}

/// A tick whose probe, if one is asked for, the queue takes.
fn answered_tick(monitor: &mut Monitor, now: u128) -> MonitorAction {
    match monitor.step(MonitorEvent::Tick { now }) {
        MonitorAction::Probe => monitor.step(MonitorEvent::ProbeQueued),
        action => action,
    }
}

fn queued(rx: &Receiver<Message>) -> Vec<Message> {
    let waker = noop_waker();
    let mut cx = Context::from_waker(&waker);
    let mut found = Vec::new();
    while let Poll::Ready(Some(message)) = rx.poll_recv(&mut cx) {
        found.push(message);
    }
    found
}

#[test]
fn new_monitor_waits_with_a_fresh_state() {
    let cfg = config(6);
    let monitor = Monitor::new(cfg.clone());
    assert_eq!(monitor.phase, MonitorPhase::Waiting);
    assert!(Arc::ptr_eq(&monitor.state.cfg, &cfg));
    assert_eq!(monitor.state.timeout_count, 0);
    assert_eq!(monitor.state.heartbeat, 0);
}

#[test]
fn watch_takes_the_state_as_it_is() {
    let mut state = WsState::new(config(6));
    state.timeout_count = 3;
    state.heartbeat = 9 * SEC;
    let monitor = Monitor::watch(state);
    assert_eq!(monitor.phase, MonitorPhase::Waiting);
    assert_eq!(monitor.state.timeout_count, 3);
    assert_eq!(monitor.state.heartbeat, 9 * SEC);
}

#[test]
fn phases_tell_what_they_expect() {
    assert_eq!(MonitorPhase::Waiting.action(), MonitorAction::Wait);
    assert_eq!(MonitorPhase::Probing.action(), MonitorAction::Probe);
    assert_eq!(MonitorPhase::ClosedByTimeout.action(), MonitorAction::Stop);
    assert_eq!(MonitorPhase::ClosedByError.action(), MonitorAction::Stop);
    assert_eq!(MonitorPhase::ClosedByRequest.action(), MonitorAction::Stop);
}

#[test]
fn only_the_closed_phases_are_closed() {
    assert!(!MonitorPhase::Waiting.is_closed());
    assert!(!MonitorPhase::Probing.is_closed());
    assert!(MonitorPhase::ClosedByTimeout.is_closed());
    assert!(MonitorPhase::ClosedByError.is_closed());
    assert!(MonitorPhase::ClosedByRequest.is_closed());
}

#[test]
fn silent_peer_is_probed_after_the_timeout_and_given_up_after_the_limit() {
    let mut monitor = monitor(6);
    // Ticks at 5 s, 10 s, 15 s and 20 s: the timeout has not passed.
    for tick in 1..=4u128 {
        assert_eq!(monitor.step(MonitorEvent::Tick { now: tick * 5 * SEC }), MonitorAction::Wait);
        assert_eq!(monitor.phase, MonitorPhase::Waiting);
        assert_eq!(monitor.state.timeout_count, 0);
    }
    // Ticks at 25 s up to 55 s: one probe each, seven in all.
    for tick in 5..=11u128 {
        assert_eq!(monitor.step(MonitorEvent::Tick { now: tick * 5 * SEC }), MonitorAction::Probe);
        assert_eq!(monitor.phase, MonitorPhase::Probing);
        assert_eq!(monitor.state.timeout_count, (tick - 4) as u32);
        assert_eq!(monitor.step(MonitorEvent::ProbeQueued), MonitorAction::Wait);
        assert_eq!(monitor.phase, MonitorPhase::Waiting);
    }
    // The tick at 60 s comes after more than six unanswered ones.
    assert_eq!(monitor.step(MonitorEvent::Tick { now: 60 * SEC }), MonitorAction::Stop);
    assert_eq!(monitor.phase, MonitorPhase::ClosedByTimeout);
    assert_eq!(monitor.state.timeout_count, 7);
}

#[test]
fn first_overdue_tick_sends_the_first_probe() {
    let mut monitor = monitor(6);
    assert_eq!(monitor.step(MonitorEvent::Tick { now: 20 * SEC }), MonitorAction::Wait);
    assert_eq!(monitor.step(MonitorEvent::Tick { now: 20 * SEC + 1 }), MonitorAction::Probe);
    assert_eq!(monitor.state.timeout_count, 1);
}

#[test]
fn shutdown_during_the_wait_stops_the_monitor_at_once() {
    // Two seconds into the first interval of five, nothing probed so far.
    let mut monitor = monitor(6);
    assert_eq!(monitor.step(MonitorEvent::Shutdown), MonitorAction::Stop);
    assert_eq!(monitor.phase, MonitorPhase::ClosedByRequest);
    assert_eq!(monitor.state.timeout_count, 0);
    assert_eq!(monitor.state.heartbeat, 0);
    // The tick that would have come at five seconds changes nothing.
    assert_eq!(monitor.step(MonitorEvent::Tick { now: 5 * SEC }), MonitorAction::Stop);
    assert_eq!(monitor.phase, MonitorPhase::ClosedByRequest);
}

#[test]
fn shutdown_method_closes_by_request() {
    let mut monitor = monitor(6);
    monitor.shutdown();
    assert_eq!(monitor.phase, MonitorPhase::ClosedByRequest);
    assert!(monitor.phase.is_closed());
}

#[test]
fn shutdown_while_probing_closes_by_request() {
    let mut monitor = monitor(6);
    assert_eq!(monitor.step(MonitorEvent::Tick { now: 25 * SEC }), MonitorAction::Probe);
    assert_eq!(monitor.step(MonitorEvent::Shutdown), MonitorAction::Stop);
    assert_eq!(monitor.phase, MonitorPhase::ClosedByRequest);
}

#[test]
fn second_shutdown_is_a_no_op() {
    let mut monitor = monitor(6);
    monitor.shutdown();
    monitor.shutdown();
    assert_eq!(monitor.step(MonitorEvent::Shutdown), MonitorAction::Stop);
    assert_eq!(monitor.phase, MonitorPhase::ClosedByRequest);
}

#[test]
fn shutdown_after_a_timeout_leaves_the_reason_as_it_is() {
    let mut monitor = monitor(1);
    for tick in 0..3u128 {
        answered_tick(&mut monitor, (25 + tick) * SEC);
    }
    assert_eq!(monitor.phase, MonitorPhase::ClosedByTimeout);
    monitor.shutdown();
    assert_eq!(monitor.phase, MonitorPhase::ClosedByTimeout);
}

#[test]
fn refused_probe_closes_by_error() {
    let mut monitor = monitor(6);
    assert_eq!(monitor.step(MonitorEvent::Tick { now: 25 * SEC }), MonitorAction::Probe);
    assert_eq!(monitor.step(MonitorEvent::ProbeRejected), MonitorAction::Stop);
    assert_eq!(monitor.phase, MonitorPhase::ClosedByError);
}

#[test]
fn closed_monitor_ignores_every_event() {
    let mut monitor = monitor(6);
    monitor.step(MonitorEvent::Tick { now: 25 * SEC });
    monitor.step(MonitorEvent::ProbeRejected);
    let events = [
        MonitorEvent::Tick { now: 90 * SEC },
        MonitorEvent::ProbeQueued,
        MonitorEvent::ProbeRejected,
        MonitorEvent::Liveness { now: 90 * SEC },
        MonitorEvent::Shutdown,
    ];
    for event in events {
        assert_eq!(monitor.step(event), MonitorAction::Stop);
        assert_eq!(monitor.phase, MonitorPhase::ClosedByError);
        assert_eq!(monitor.state.timeout_count, 1);
        assert_eq!(monitor.state.heartbeat, 0);
    }
}

#[test]
fn probe_outcome_without_a_probe_is_ignored() {
    let mut monitor = monitor(6);
    assert_eq!(monitor.step(MonitorEvent::ProbeQueued), MonitorAction::Wait);
    assert_eq!(monitor.step(MonitorEvent::ProbeRejected), MonitorAction::Wait);
    assert_eq!(monitor.phase, MonitorPhase::Waiting);
    assert_eq!(monitor.state.timeout_count, 0);
}

#[test]
fn tick_while_probing_is_ignored() {
    let mut monitor = monitor(6);
    assert_eq!(monitor.step(MonitorEvent::Tick { now: 25 * SEC }), MonitorAction::Probe);
    assert_eq!(monitor.step(MonitorEvent::Tick { now: 30 * SEC }), MonitorAction::Probe);
    assert_eq!(monitor.phase, MonitorPhase::Probing);
    assert_eq!(monitor.state.timeout_count, 1);
}

#[test]
fn no_limit_means_probing_without_end() {
    let mut monitor = monitor(0);
    for tick in 0..1000u128 {
        assert_eq!(answered_tick(&mut monitor, (21 + tick) * SEC), MonitorAction::Wait);
    }
    assert_eq!(monitor.phase, MonitorPhase::Waiting);
    assert_eq!(monitor.state.timeout_count, 1000);
}

#[test]
fn no_limit_still_closes_on_a_refused_probe() {
    let mut monitor = monitor(0);
    answered_tick(&mut monitor, 25 * SEC);
    assert_eq!(monitor.step(MonitorEvent::Tick { now: 30 * SEC }), MonitorAction::Probe);
    assert_eq!(monitor.step(MonitorEvent::ProbeRejected), MonitorAction::Stop);
    assert_eq!(monitor.phase, MonitorPhase::ClosedByError);
}

#[test]
fn no_limit_still_closes_on_shutdown() {
    let mut monitor = monitor(0);
    answered_tick(&mut monitor, 25 * SEC);
    assert_eq!(monitor.step(MonitorEvent::Shutdown), MonitorAction::Stop);
    assert_eq!(monitor.phase, MonitorPhase::ClosedByRequest);
}

#[test]
fn limit_of_one_tolerates_two_probes() {
    let mut monitor = monitor(1);
    assert_eq!(answered_tick(&mut monitor, 21 * SEC), MonitorAction::Wait);
    assert_eq!(answered_tick(&mut monitor, 22 * SEC), MonitorAction::Wait);
    assert_eq!(monitor.state.timeout_count, 2);
    assert_eq!(answered_tick(&mut monitor, 23 * SEC), MonitorAction::Stop);
    assert_eq!(monitor.phase, MonitorPhase::ClosedByTimeout);
}

#[test]
fn largest_limit_is_reached_in_the_end() {
    let mut monitor = monitor(255);
    for tick in 0..256u128 {
        assert_eq!(answered_tick(&mut monitor, (21 + tick) * SEC), MonitorAction::Wait);
    }
    assert_eq!(monitor.state.timeout_count, 256);
    assert_eq!(answered_tick(&mut monitor, 400 * SEC), MonitorAction::Stop);
    assert_eq!(monitor.phase, MonitorPhase::ClosedByTimeout);
}

#[test]
fn ticks_within_the_timeout_do_not_count_towards_the_limit() {
    let mut monitor = monitor(1);
    for _ in 0..50 {
        assert_eq!(answered_tick(&mut monitor, 20 * SEC), MonitorAction::Wait);
    }
    assert_eq!(monitor.state.timeout_count, 0);
    assert_eq!(monitor.phase, MonitorPhase::Waiting);
}

#[test]
fn liveness_restarts_the_timeout_and_the_count() {
    let mut monitor = monitor(1);
    answered_tick(&mut monitor, 25 * SEC);
    answered_tick(&mut monitor, 30 * SEC);
    assert_eq!(monitor.state.timeout_count, 2);
    monitor.on_liveness_observed(31 * SEC);
    assert_eq!(monitor.phase, MonitorPhase::Waiting);
    assert_eq!(monitor.state.timeout_count, 0);
    assert_eq!(monitor.state.heartbeat, 31 * SEC);
    assert_eq!(answered_tick(&mut monitor, 35 * SEC), MonitorAction::Wait);
    assert_eq!(answered_tick(&mut monitor, 51 * SEC), MonitorAction::Wait);
    assert_eq!(monitor.state.timeout_count, 0);
    assert_eq!(monitor.step(MonitorEvent::Tick { now: 51 * SEC + 1 }), MonitorAction::Probe);
    assert_eq!(monitor.state.timeout_count, 1);
}

#[test]
fn liveness_while_probing_is_taken_in() {
    let mut monitor = monitor(6);
    monitor.step(MonitorEvent::Tick { now: 25 * SEC });
    assert_eq!(monitor.step(MonitorEvent::Liveness { now: 26 * SEC }), MonitorAction::Probe);
    assert_eq!(monitor.phase, MonitorPhase::Probing);
    assert_eq!(monitor.state.heartbeat, 26 * SEC);
    assert_eq!(monitor.state.timeout_count, 0);
}

#[test]
fn liveness_does_not_reopen_a_closed_monitor() {
    let mut monitor = monitor(6);
    monitor.shutdown();
    monitor.on_liveness_observed(3 * SEC);
    assert_eq!(monitor.phase, MonitorPhase::ClosedByRequest);
    assert_eq!(monitor.state.heartbeat, 0);
}

#[test]
fn tick_within_the_timeout_queues_nothing() {
    let (tx, rx) = mpsc::channel::<Message>();
    let mut monitor = monitor(6);
    assert_eq!(monitor.tick_at(20 * SEC, &tx), MonitorAction::Wait);
    assert_eq!(monitor.phase, MonitorPhase::Waiting);
    assert!(queued(&rx).is_empty());
}

#[test]
fn overdue_tick_queues_one_empty_ping() {
    let (tx, rx) = mpsc::channel::<Message>();
    let mut monitor = monitor(6);
    assert_eq!(monitor.tick_at(25 * SEC, &tx), MonitorAction::Wait);
    assert_eq!(monitor.phase, MonitorPhase::Waiting);
    assert_eq!(monitor.state.timeout_count, 1);
    assert_eq!(queued(&rx), vec![Message::Ping(Bytes::new())]);
}

#[test]
fn probes_share_the_queue_with_other_messages_in_order() {
    let (tx, rx) = mpsc::channel::<Message>();
    let mut monitor = monitor(6);
    assert!(tx.send(Message::Binary(Bytes::from_static(b"one"))).is_ok());
    monitor.tick_at(25 * SEC, &tx);
    assert!(tx.send(Message::Binary(Bytes::from_static(b"two"))).is_ok());
    monitor.tick_at(30 * SEC, &tx);
    assert_eq!(
        queued(&rx),
        vec![
            Message::Binary(Bytes::from_static(b"one")),
            Message::Ping(Bytes::new()),
            Message::Binary(Bytes::from_static(b"two")),
            Message::Ping(Bytes::new()),
        ]
    );
}

#[test]
fn tick_with_the_receiver_gone_closes_by_error() {
    let (tx, rx) = mpsc::channel::<Message>();
    drop(rx);
    let mut monitor = monitor(6);
    assert_eq!(monitor.tick_at(20 * SEC, &tx), MonitorAction::Wait);
    assert_eq!(monitor.tick_at(25 * SEC, &tx), MonitorAction::Stop);
    assert_eq!(monitor.phase, MonitorPhase::ClosedByError);
}

#[test]
fn silent_peer_on_a_live_queue_gets_seven_probes() {
    let (tx, rx) = mpsc::channel::<Message>();
    let mut monitor = monitor(6);
    let mut stopped_at = None;
    for tick in 1..=20u128 {
        if monitor.tick_at(tick * 5 * SEC, &tx) == MonitorAction::Stop {
            stopped_at = Some(tick * 5);
            break;
        }
    }
    assert_eq!(stopped_at, Some(60));
    assert_eq!(monitor.phase, MonitorPhase::ClosedByTimeout);
    let probes = queued(&rx);
    assert_eq!(probes.len(), 7);
    assert!(probes.iter().all(|probe| *probe == Message::Ping(Bytes::new())));
}

#[test]
fn tick_on_a_closed_monitor_queues_nothing() {
    let (tx, rx) = mpsc::channel::<Message>();
    let mut monitor = monitor(6);
    monitor.shutdown();
    assert_eq!(monitor.tick_at(25 * SEC, &tx), MonitorAction::Stop);
    assert_eq!(monitor.phase, MonitorPhase::ClosedByRequest);
    assert!(queued(&rx).is_empty());
}

#[test]
fn tick_settles_a_probe_that_was_left_open() {
    let (tx, rx) = mpsc::channel::<Message>();
    let mut monitor = monitor(6);
    assert_eq!(monitor.step(MonitorEvent::Tick { now: 25 * SEC }), MonitorAction::Probe);
    assert_eq!(monitor.tick_at(30 * SEC, &tx), MonitorAction::Wait);
    assert_eq!(monitor.phase, MonitorPhase::Waiting);
    assert_eq!(monitor.state.timeout_count, 1);
    assert_eq!(queued(&rx).len(), 1);
}

#[test]
fn tick_by_the_clock_leaves_a_fresh_connection_alone() {
    let (tx, rx) = mpsc::channel::<Message>();
    let mut monitor = monitor(6);
    assert_eq!(monitor.tick(&tx), MonitorAction::Wait);
    assert_eq!(monitor.phase, MonitorPhase::Waiting);
    assert_eq!(monitor.state.timeout_count, 0);
    assert!(queued(&rx).is_empty());
}

#[test]
fn tick_by_the_clock_probes_once_the_timeout_has_passed() {
    let (tx, rx) = mpsc::channel::<Message>();
    let cfg = Arc::new(Config { db: String::new(), heartbeat: 1, timeout: 1_000_000, max_timeout: 6 });
    let mut monitor = Monitor::new(cfg);
    while monitor.state.now() <= 1_000_000 {
        std::hint::spin_loop();
    }
    assert_eq!(monitor.tick(&tx), MonitorAction::Wait);
    assert_eq!(monitor.state.timeout_count, 1);
    assert_eq!(queued(&rx), vec![Message::Ping(Bytes::new())]);
}
