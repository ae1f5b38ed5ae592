//! The outbound relay: the one consumer of a connection's outbound queue.
//! It hands each message to the sink in the order in which the queue gave
//! it out, and stops when the queue is closed or a write fails.

use vstd::prelude::*;

verus! {

/// Where the relay stands.
#[derive(Clone, Copy, Debug, PartialEq, Eq, Structural)]
pub enum RelayPhase {
    /// Taking messages from the queue and writing them to the sink.
    Forwarding,
    /// Stopped: the queue was closed and is empty.
    Drained,
    /// Stopped: a write to the sink failed.
    SinkError,
}

/// What happened to the relay.
#[derive(Clone, Debug, PartialEq, Eq)]
pub enum RelayEvent<M> {
    /// The queue gave out its next message.
    Dequeued(M),
    /// The queue is closed and holds nothing more.
    QueueClosed,
    /// The sink has written the message it was given.
    Written,
    /// The sink could not write the message it was given.
    WriteFailed,
}

/// What the relay expects of whoever drives it.
#[derive(Clone, Debug, PartialEq, Eq)]
pub enum RelayAction<M> {
    /// Wait for the queue's next message and report it.
    Receive,
    /// Write this message to the sink, wait for the write to end and
    /// report how it ended.
    Write(M),
    /// Stop: the relay is done.
    Stop,
}

impl RelayPhase {
    /// The phase is one of the stopped ones.
    pub open spec fn stopped(self) -> bool {
        self is Drained || self is SinkError
    }

    /// Tells whether the phase is one of the stopped ones.
    pub fn is_stopped(self) -> (yes: bool)
        ensures
            yes == self.stopped(),
    {
        match self {
            RelayPhase::Forwarding => false,
            _ => true,
        }
    }
}

/// The outbound relay of one connection.
pub struct Relay {
    /// Where the relay stands.
    pub phase: RelayPhase,
}

impl Relay {
    /// A relay that has not been told anything yet.
    pub open spec fn fresh() -> Relay {
        Relay { phase: RelayPhase::Forwarding }
    }

    /// The relay after `event`: the end of the queue and a failed write stop
    /// a forwarding relay, nothing else changes it.
    pub open spec fn next<M>(self, event: RelayEvent<M>) -> Relay {
        match self.phase {
            RelayPhase::Forwarding => match event {
                RelayEvent::QueueClosed => Relay { phase: RelayPhase::Drained },
                RelayEvent::WriteFailed => Relay { phase: RelayPhase::SinkError },
                _ => self,
            },
            _ => self,
        }
    }

    /// What the relay asks for in answer to `event`: a forwarding relay has
    /// each message it is given written and then waits for the next one; a
    /// stopped relay asks for nothing any more.
    pub open spec fn reply<M>(self, event: RelayEvent<M>) -> RelayAction<M> {
        match self.phase {
            RelayPhase::Forwarding => match event {
                RelayEvent::Dequeued(message) => RelayAction::Write(message),
                RelayEvent::Written => RelayAction::Receive,
                _ => RelayAction::Stop,
            },
            _ => RelayAction::Stop,
        }
    }

    /// The relay after the events of `events`, first to last.
    pub open spec fn run<M>(self, events: Seq<RelayEvent<M>>) -> Relay
        decreases events.len(),
    {
        if events.len() == 0 {
            self
        } else {
            self.next(events.first()).run(events.drop_first())
        }
    }

    /// The messages that the relay has written in answer to the events of
    /// `events`, in the order of its answers.
    pub open spec fn written<M>(self, events: Seq<RelayEvent<M>>) -> Seq<M>
        decreases events.len(),
    {
        if events.len() == 0 {
            Seq::empty()
        } else {
            let rest = self.next(events.first()).written(events.drop_first());
            match self.reply(events.first()) {
                RelayAction::Write(message) => seq![message] + rest,
                _ => rest,
            }
        }
    }

    /// A relay that is ready for the queue's first message.
    pub fn new() -> (relay: Self)
        ensures
            relay == Relay::fresh(),
    {
        Relay { phase: RelayPhase::Forwarding }
    }

    /// Takes `event` in and tells what to do next.
    pub fn step<M>(&mut self, event: RelayEvent<M>) -> (action: RelayAction<M>)
        ensures
            *final(self) == old(self).next(event),
            action == old(self).reply(event),
    {
        match self.phase {
            RelayPhase::Forwarding => match event {
                RelayEvent::Dequeued(message) => RelayAction::Write(message),
                RelayEvent::Written => RelayAction::Receive,
                RelayEvent::QueueClosed => {
                    self.phase = RelayPhase::Drained;
                    RelayAction::Stop
                },
                RelayEvent::WriteFailed => {
                    self.phase = RelayPhase::SinkError;
                    RelayAction::Stop
                },
            },
            _ => RelayAction::Stop,
        }
    }
}

/// The events that a driver reports when the queue gives out the messages
/// of `queue` and is then closed, and the sink answers the write of the
/// `i`-th message with `outcomes[i]`: `true` for written, `false` for failed.
pub open spec fn exchange<M>(queue: Seq<M>, outcomes: Seq<bool>) -> Seq<RelayEvent<M>>
    recommends
        outcomes.len() == queue.len(),
    decreases queue.len(),
{
    if queue.len() == 0 {
        seq![RelayEvent::QueueClosed]
    } else {
        seq![
            RelayEvent::Dequeued(queue.first()),
            if outcomes.first() {
                RelayEvent::Written
            } else {
                RelayEvent::WriteFailed
            },
        ] + exchange(queue.drop_first(), outcomes.drop_first())
    }
}

/// How many writes a sink that answers with `outcomes` is asked for: all of
/// them up to the first that fails, that one included.
pub open spec fn attempts(outcomes: Seq<bool>) -> nat
    decreases outcomes.len(),
{
    if outcomes.len() == 0 {
        0
    } else if !outcomes.first() {
        1
    } else {
        1 + attempts(outcomes.drop_first())
    }
}

/// Every write that `outcomes` answers is written.
pub open spec fn all_written(outcomes: Seq<bool>) -> bool {
    forall|i: int| 0 <= i < outcomes.len() ==> outcomes[i]
}

/// A stopped relay stays stopped and has nothing written, whatever it is
/// told.
pub proof fn law_stopped_relay_writes_nothing<M>(relay: Relay, events: Seq<RelayEvent<M>>)
    requires
        relay.phase.stopped(),
    ensures
        relay.run(events) == relay,
        relay.written(events) == Seq::<M>::empty(),
    decreases events.len(),
{
    if events.len() > 0 {
        law_stopped_relay_writes_nothing(relay.next(events.first()), events.drop_first());
    }
}

/// What a relay does over a whole exchange: it has the messages written in
/// the order in which the queue gave them out, up to and including the
/// first whose write fails, and no other. It ends drained if no write
/// failed and with a sink error otherwise.
pub proof fn law_relay_forwards_in_order<M>(queue: Seq<M>, outcomes: Seq<bool>)
    requires
        outcomes.len() == queue.len(),
    ensures
        attempts(outcomes) <= queue.len(),
        Relay::fresh().written(exchange(queue, outcomes))
            == queue.take(attempts(outcomes) as int),
        all_written(outcomes) ==> attempts(outcomes) == queue.len(),
        all_written(outcomes) ==> Relay::fresh().run(exchange(queue, outcomes)).phase is Drained,
        !all_written(outcomes)
            ==> Relay::fresh().run(exchange(queue, outcomes)).phase is SinkError,
    decreases queue.len(),
{
    let relay = Relay::fresh();
    let events = exchange(queue, outcomes);
    if queue.len() == 0 {
        assert(events =~= seq![RelayEvent::<M>::QueueClosed]);
        assert(events.len() == 1);
        assert(events.first() == RelayEvent::<M>::QueueClosed);
        law_stopped_relay_writes_nothing(relay.next(events.first()), events.drop_first());
        assert(queue.take(0) =~= Seq::<M>::empty());
    } else {
        let rest = exchange(queue.drop_first(), outcomes.drop_first());
        let outcome = if outcomes.first() {
            RelayEvent::<M>::Written
        } else {
            RelayEvent::<M>::WriteFailed
        };
        let tail = seq![outcome] + rest;
        assert(events.first() == RelayEvent::Dequeued(queue.first()));
        assert(events.drop_first() =~= tail);
        assert(tail.first() == outcome);
        assert(tail.drop_first() =~= rest);
        assert(relay.written(events) == seq![queue.first()] + relay.written(tail));
        assert(relay.run(events) == relay.run(tail));
        assert(relay.run(tail) == relay.next(outcome).run(rest));
        assert(relay.written(tail) == relay.next(outcome).written(rest));
        if outcomes.first() {
            law_relay_forwards_in_order(queue.drop_first(), outcomes.drop_first());
            let more = attempts(outcomes.drop_first()) as int;
            assert(seq![queue.first()] + queue.drop_first().take(more) =~= queue.take(more + 1));
            if all_written(outcomes) {
                assert forall|i: int| 0 <= i < outcomes.drop_first().len() implies outcomes.drop_first()[i] by {
                    assert(outcomes[i + 1]);
                }
            } else {
                let i = choose|i: int| 0 <= i < outcomes.len() && !outcomes[i];
                assert(!outcomes.drop_first()[i - 1]);
            }
        } else {
            law_stopped_relay_writes_nothing(relay.next(outcome), rest);
            assert(seq![queue.first()] + Seq::<M>::empty() =~= queue.take(1));
            assert(!outcomes[0]);
        }
    }
}

/// Messages are written in the order in which they were queued, whoever
/// queued them: what the relay has written is always the front of the
/// queue, and it is the whole queue if no write fails.
pub proof fn law_writes_follow_queue_order<M>(queue: Seq<M>, outcomes: Seq<bool>)
    requires
        outcomes.len() == queue.len(),
    ensures
        Relay::fresh().written(exchange(queue, outcomes)).is_prefix_of(queue),
        all_written(outcomes) ==> Relay::fresh().written(exchange(queue, outcomes)) == queue,
{
    law_relay_forwards_in_order(queue, outcomes);
    let done = attempts(outcomes) as int;
    assert(queue.take(done).is_prefix_of(queue));
    if all_written(outcomes) {
        assert(queue.take(done) =~= queue);
    }
}

/// One failed write ends the relay: if the write of the message at `failed`
/// is the first to fail, that message is the last that the relay has
/// written, however many remain queued.
pub proof fn law_first_failure_ends_relay<M>(queue: Seq<M>, outcomes: Seq<bool>, failed: int)
    requires
        outcomes.len() == queue.len(),
        0 <= failed < outcomes.len(),
        !outcomes[failed],
        forall|i: int| 0 <= i < failed ==> outcomes[i],
    ensures
        Relay::fresh().written(exchange(queue, outcomes)) == queue.take(failed + 1),
        Relay::fresh().run(exchange(queue, outcomes)).phase is SinkError,
{
    law_relay_forwards_in_order(queue, outcomes);
    lemma_attempts_stop_at_first_failure(outcomes, failed);
}

/// The writes asked for end with the first that fails.
proof fn lemma_attempts_stop_at_first_failure(outcomes: Seq<bool>, failed: int)
    requires
        0 <= failed < outcomes.len(),
        !outcomes[failed],
        forall|i: int| 0 <= i < failed ==> outcomes[i],
    ensures
        attempts(outcomes) == failed + 1,
    decreases outcomes.len(),
{
    if failed > 0 {
        assert(outcomes[0]);
        assert forall|i: int| 0 <= i < failed - 1 implies outcomes.drop_first()[i] by {
            assert(outcomes[i + 1]);
        }
        lemma_attempts_stop_at_first_failure(outcomes.drop_first(), failed - 1);
    }
}

} // verus!
