//! The queue of frames that wait to be written to the peer.

use ntex::channel::mpsc::Sender;
use ntex::util::Bytes;
use ntex::ws::Message;
use vstd::prelude::*;

verus! {

/// `ntex::channel::mpsc::Sender`: the producers' end of an unbounded queue,
/// carried as it is.
#[verifier::external_type_specification]
#[verifier::external_body]
#[verifier::reject_recursive_types(T)]
pub struct ExSender<T>(ntex::channel::mpsc::Sender<T>);

/// `ntex::ws::Message`: a WebSocket message, carried as it is.
#[verifier::external_type_specification]
#[verifier::external_body]
pub struct ExMessage(ntex::ws::Message);

/// `Sender::send` of `ntex::channel::mpsc`, handed a `Message::Ping` with an
/// empty payload: appends the frame to the queue and tells whether the queue
/// took it. The queue refuses once its receiving end is closed or gone, so
/// the answer depends on the channel and nothing is claimed of it.
#[verifier::external_body]
pub(crate) fn enqueue_probe(queue: &Sender<Message>) -> (queued: bool) {
    queue.send(Message::Ping(Bytes::default())).is_ok()
}

} // verus!
