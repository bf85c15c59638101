//! An asynchronous-friendly access layer over a resource that must only
//! ever be touched by one thread at a time.
//!
//! A dedicated worker exclusively owns the [`resource::Resource`]; callers
//! never see it. They hand the worker self-contained
//! [`operation::Operation`] values over a multi-producer work channel and
//! wait for each result on a fresh one-shot completion channel. The worker
//! drains the channel in arrival order, runs each operation to completion
//! before pulling the next, and reports every outcome to the caller that
//! asked for it, so all access to the resource is funnelled through one
//! thread by construction.

use vstd::prelude::*;

pub mod channel;
pub mod errors;
pub mod model;
pub mod operation;
pub mod resource;
pub mod worker;

use crate::channel::{
    completion_channel, completion_source, messages_sent, recv_reply, replies_sent, send_message,
    sender_channel, work_channel, Reply,
};
use crate::errors::{wrap_kind, Error};
use crate::model::{as_request, Request};
use crate::operation::Operation;
use crate::worker::{Message, Worker};

verus! {

/// What wrapping one worker reply for the caller yields: a value is
/// returned as it is; an operation failure keeps its category and its
/// content, so the caller can recover the original by inspection.
pub open spec fn reply_to_result(reply: Reply) -> Result<u64, Error> {
    match reply {
        Ok(v) => Ok(v),
        Err(oe) => Err(Error { kind: wrap_kind(oe) }),
    }
}

/// What a finished delegation of `op`, under the given intent, on the
/// work channel `chan` may return: the `Closed` error — the bridge had
/// terminated at submission, or terminated before this operation's
/// result could be delivered — or else the faithful wrapping of a reply
/// really sent on the completion channel of a message really placed on
/// `chan` carrying this very operation under this very intent. A
/// delegation never invents a result.
pub open spec fn delegated_via(chan: int, mutating: bool, op: Operation, r: Result<
    u64,
    Error,
>) -> bool {
    ||| (r matches Err(e) && e.kind is Closed)
    ||| (exists|cid: int, rep: Reply|
        messages_sent(chan).contains((as_request(mutating, op), cid)) && #[trigger] replies_sent(
            cid,
        ).contains(rep) && r == reply_to_result(rep))
}

/// Wrap one worker reply for the caller, exactly as `reply_to_result`
/// says: a value is handed through untouched, a failure keeps its
/// category and its content.
pub fn interpret_reply(reply: Reply) -> (r: Result<u64, Error>)
    ensures
        r == reply_to_result(reply),
{
    match reply {
        Ok(v) => Ok(v),
        Err(oe) => Err(Error::from_op(oe)),
    }
}

/// A result not yet reported: the receive half of one delegation's
/// completion channel, together with a record of what was delegated. At
/// most one value ever arrives on it; if the worker stops first, waiting
/// ends with the `Closed` error instead of blocking forever.
pub struct Pending {
    rx: oneshot::Receiver<Reply>,
    chan: Ghost<int>,
    mutating: Ghost<bool>,
    op: Ghost<Operation>,
}

impl Pending {
    /// The identity of the work channel this delegation was submitted on.
    pub closed spec fn on_channel(self) -> int {
        self.chan@
    }

    /// Whether it was submitted with mutating intent.
    pub closed spec fn mutating_intent(self) -> bool {
        self.mutating@
    }

    /// The operation it submitted.
    pub closed spec fn operation(self) -> Operation {
        self.op@
    }

    /// The identity of its own completion channel.
    pub closed spec fn source(self) -> int {
        completion_source(self.rx)
    }

    /// A pending delegation is genuine: its operation, under its intent,
    /// really stands on its work channel as a message whose completion
    /// channel is this pending's own.
    pub closed spec fn wf(self) -> bool {
        messages_sent(self.chan@).contains(
            (as_request(self.mutating@, self.op@), completion_source(self.rx)),
        )
    }

    /// Block until the worker has reported this delegation's result, and
    /// wrap it for the caller. Returns the `Closed` error exactly when
    /// the worker stopped before reporting; anything else wraps a reply
    /// really sent for this delegation's own message.
    pub fn wait(self) -> (r: Result<u64, Error>)
        requires
            self.wf(),
        ensures
            delegated_via(self.on_channel(), self.mutating_intent(), self.operation(), r),
    {
        let ghost cid = self.source();
        match recv_reply(self.rx) {
            Some(reply) => {
                let r = interpret_reply(reply);
                proof {
                    assert(replies_sent(cid).contains(reply));
                    assert(reply_to_result(reply) == r);
                }
                r
            },
            None => Err(Error::closed()),
        }
    }

    /// Surrender the completion channel's receive half, for a caller that
    /// would rather await it under its own scheduler than block on
    /// [`Pending::wait`]. Whatever arrives is wrapped with
    /// [`interpret_reply`]; a closed channel means the `Closed` error.
    pub fn into_receiver(self) -> (r: oneshot::Receiver<Reply>)
        ensures
            completion_source(r) == self.source(),
    {
        self.rx
    }
}

/// The caller-facing half of a bridge: it holds a send side of the work
/// channel and is the only way to reach the confined resource. It may be
/// used from any thread; the resource itself never leaves the worker.
pub struct Connection {
    channel: flume::Sender<Message>,
}

impl Connection {
    /// The identity of the work channel this handle sends on.
    pub closed spec fn chan(self) -> int {
        sender_channel(self.channel)
    }

    /// Open a bridge: a connected handle and worker pair over one fresh
    /// unbounded work channel — what the handle sends on is exactly what
    /// the worker receives on. The worker half must be brought to a
    /// dedicated thread and run there with the freshly opened resource;
    /// the handle is what callers keep.
    pub fn open_pair() -> (r: (Connection, Worker))
        ensures
            (r.0).chan() == (r.1).chan(),
    {
        let (tx, rx) = work_channel();
        (Connection { channel: tx }, Worker::from_receiver(rx))
    }

    /// Hand one operation to the worker without waiting on its result:
    /// pair it with a fresh completion channel, enqueue it — never
    /// blocking, the work channel is unbounded — and return the pending
    /// half. Fails with the `Closed` error exactly when the worker is
    /// gone, in which case the operation is discarded, never half-sent.
    pub fn submit(&self, mutating: bool, op: Operation) -> (r: Result<Pending, Error>)
        ensures
            r matches Err(e) ==> e.kind is Closed,
            r matches Ok(p) ==> p.wf() && p.on_channel() == self.chan() && p.mutating_intent()
                == mutating && p.operation() == op,
    {
        let (tx, rx) = completion_channel();
        let msg = if mutating {
            Message::QueryMut(op, tx)
        } else {
            Message::Query(op, tx)
        };
        proof {
            assert(msg.entry() == (as_request(mutating, op), completion_source(rx)));
        }
        match send_message(&self.channel, msg) {
            Ok(()) => Ok(
                Pending { rx, chan: Ghost(self.chan()), mutating: Ghost(mutating), op: Ghost(op) },
            ),
            Err(_) => Err(Error::closed()),
        }
    }

    /// Delegate one operation with shared, read-only intent and wait for
    /// its result. The intent is the caller's statement about its own
    /// operation; every operation runs on the one worker thread either
    /// way, and a read-only operation is proved to leave the resource
    /// unchanged.
    pub fn delegate(&self, op: Operation) -> (r: Result<u64, Error>)
        ensures
            delegated_via(self.chan(), false, op, r),
    {
        match self.submit(false, op) {
            Ok(pending) => pending.wait(),
            Err(e) => Err(e),
        }
    }

    /// Delegate one operation with exclusive, mutating intent and wait
    /// for its result.
    pub fn delegate_mut(&mut self, op: Operation) -> (r: Result<u64, Error>)
        ensures
            delegated_via(old(self).chan(), true, op, r),
            *final(self) == *old(self),
    {
        match self.submit(true, op) {
            Ok(pending) => pending.wait(),
            Err(e) => Err(e),
        }
    }

    /// Run one operation on the resource: the mutating delegation under
    /// its historical name.
    pub fn run(&mut self, op: Operation) -> (r: Result<u64, Error>)
        ensures
            delegated_via(old(self).chan(), true, op, r),
            *final(self) == *old(self),
    {
        self.delegate_mut(op)
    }

    /// Ask the worker to stop. The shutdown signal queues behind
    /// everything already submitted, so the worker still executes all of
    /// it first: shutdown drains, it does not discard. Fails with the
    /// `Closed` error exactly when the worker is already gone, which is
    /// no longer a failure to stop it.
    pub fn close(&self) -> (r: Result<(), Error>)
        ensures
            r matches Err(e) ==> e.kind is Closed,
            r is Ok ==> messages_sent(self.chan()).contains((Request::Close, 0)),
    {
        match send_message(&self.channel, Message::Close) {
            Ok(()) => Ok(()),
            Err(_) => Err(Error::closed()),
        }
    }
}

} // verus!
