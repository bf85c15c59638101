use vstd::prelude::*;

use crate::errors::OpError;
use crate::model::Request;
use crate::worker::Message;

verus! {

/// What the worker reports back for one operation: the operation's own
/// typed result or its typed failure.
pub type Reply = Result<u64, OpError>;

#[verifier::external_type_specification]
#[verifier::external_body]
#[verifier::reject_recursive_types(T)]
pub struct ExFlumeSender<T>(flume::Sender<T>);

#[verifier::external_type_specification]
#[verifier::external_body]
#[verifier::reject_recursive_types(T)]
pub struct ExFlumeReceiver<T>(flume::Receiver<T>);

#[verifier::external_type_specification]
#[verifier::external_body]
#[verifier::reject_recursive_types(T)]
pub struct ExOneshotSender<T>(oneshot::Sender<T>);

#[verifier::external_type_specification]
#[verifier::external_body]
#[verifier::reject_recursive_types(T)]
pub struct ExOneshotReceiver<T>(oneshot::Receiver<T>);

/// The identity of the work channel a send half belongs to.
pub uninterp spec fn sender_channel(tx: flume::Sender<Message>) -> int;

/// The identity of the work channel a receive half belongs to.
pub uninterp spec fn receiver_channel(rx: flume::Receiver<Message>) -> int;

/// What a work channel has carried: every message ever sent on it, as
/// its request together with the identity of its completion channel.
/// Channel identities are never claimed distinct, so this is sound to
/// read as "sent on a channel of this identity"; every fact stated of
/// it is a membership, true of whatever the channel really carried.
pub uninterp spec fn messages_sent(chan: int) -> Set<(Request, int)>;

/// The identity of the completion channel a send half belongs to.
pub uninterp spec fn completion_id(tx: oneshot::Sender<Reply>) -> int;

/// The identity of the completion channel a receive half belongs to.
pub uninterp spec fn completion_source(rx: oneshot::Receiver<Reply>) -> int;

/// What a completion channel has carried: every reply ever sent on it.
pub uninterp spec fn replies_sent(chan: int) -> Set<Reply>;

/// Relies on flume::unbounded: a fresh connected channel pair — one
/// channel, both halves — whose queue is unbounded and first-in,
/// first-out, so sending on it never blocks.
#[verifier::external_body]
pub(crate) fn work_channel() -> (r: (flume::Sender<Message>, flume::Receiver<Message>))
    ensures
        sender_channel(r.0) == receiver_channel(r.1),
{
    flume::unbounded()
}

/// Relies on flume::Sender::send on an unbounded channel: it never blocks,
/// it fails only when every receiver is gone, on failure it hands the
/// unsent message back unchanged inside the error, and on success the
/// message was really placed on this sender's own channel.
#[verifier::external_body]
pub(crate) fn send_message(tx: &flume::Sender<Message>, msg: Message) -> (r: Result<(), Message>)
    ensures
        r matches Err(m) ==> m == msg,
        r is Ok ==> messages_sent(sender_channel(*tx)).contains(msg.entry()),
{
    match tx.send(msg) {
        Ok(()) => Ok(()),
        Err(flume::SendError(m)) => Err(m),
    }
}

/// Relies on flume::Receiver::recv: it blocks until a message arrives and
/// returns `None` only when every sender is gone and the queue is empty.
/// Which message arrives depends on the sending threads; what is promised
/// is that it was really sent on this receiver's own channel.
#[verifier::external_body]
pub(crate) fn recv_message(rx: &flume::Receiver<Message>) -> (r: Option<Message>)
    ensures
        r matches Some(m) ==> messages_sent(receiver_channel(*rx)).contains(m.entry()),
{
    match rx.recv() {
        Ok(m) => Some(m),
        Err(flume::RecvError::Disconnected) => None,
    }
}

/// Relies on oneshot::channel: a fresh connected single-use pair — one
/// channel, both halves — that carries at most one value from its sender
/// to its receiver.
#[verifier::external_body]
pub(crate) fn completion_channel() -> (r: (oneshot::Sender<Reply>, oneshot::Receiver<Reply>))
    ensures
        completion_id(r.0) == completion_source(r.1),
{
    oneshot::channel()
}

/// Relies on oneshot::Sender::send: it consumes the sender, it fails only
/// when the receiver is already gone, on failure it hands the unsent
/// value back unchanged inside the error, and on success the reply was
/// really placed on this sender's own channel.
#[verifier::external_body]
pub(crate) fn send_reply(tx: oneshot::Sender<Reply>, reply: Reply) -> (r: Result<(), Reply>)
    ensures
        r matches Err(rep) ==> rep == reply,
        r is Ok ==> replies_sent(completion_id(tx)).contains(reply),
{
    match tx.send(reply) {
        Ok(()) => Ok(()),
        Err(e) => Err(e.into_inner()),
    }
}

/// Relies on oneshot::Receiver::recv: it blocks until the sender has sent
/// or is gone, and returns `None` exactly when the sender was dropped
/// without sending. Which value was sent depends on the worker thread;
/// what is promised is that it was really sent on this receiver's own
/// channel.
#[verifier::external_body]
pub(crate) fn recv_reply(rx: oneshot::Receiver<Reply>) -> (r: Option<Reply>)
    ensures
        r matches Some(rep) ==> replies_sent(completion_source(rx)).contains(rep),
{
    match rx.recv() {
        Ok(reply) => Some(reply),
        Err(_) => None,
    }
}

} // verus!
