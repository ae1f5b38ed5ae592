//! Keeping long-lived duplex connections alive, and taking them down.
//!
//! Every connection has a heartbeat [`monitor`] and an outbound [`relay`].
//! The monitor looks at the connection's liveness state ([`ws`]) on every
//! tick of its timer and decides whether the peer is to be left alone, to
//! be probed, or to be given up. The relay hands the messages of the
//! outbound queue ([`outbound`]) to the connection's sink, one at a time and
//! in the order of the queue.
//!
//! Neither of the two waits or writes by itself. Each is a state machine
//! that is told what happened and answers with what is to be done next;
//! whoever runs the connection does the waiting and the writing. The
//! contracts of the two `step` functions say what the machines do with one
//! event, and the proof functions beside them say what follows for whole
//! runs of events.

pub mod clock;
pub mod monitor;
pub mod outbound;
pub mod relay;
pub mod state;
pub mod utils;
pub mod ws;
