use vstd::prelude::*;

use crate::channel::{
    completion_id, messages_sent, receiver_channel, recv_message, replies_sent, send_reply, Reply,
};
use crate::errors::Error;
use crate::model::{lemma_run_model_snoc, no_close, run_model, Request};
use crate::operation::{apply, execute_operation, outcome, Operation};
use crate::resource::Resource;

verus! {

/// One message on the work channel: a unit of work of either delegation
/// shape paired with the one-shot sender its result must be reported on,
/// or the shutdown signal. The queue carries them to the worker in
/// first-in, first-out order, with no priority and no reordering.
pub enum Message {
    /// An operation delegated with shared, read-only intent.
    Query(Operation, oneshot::Sender<Reply>),
    /// An operation delegated with exclusive, mutating intent.
    QueryMut(Operation, oneshot::Sender<Reply>),
    /// Stop the worker once every message queued before this one has been
    /// handled.
    Close,
}

impl Message {
    /// The pure request this message stands for, with the completion
    /// channel stripped: what the model of a worker run speaks of.
    pub open spec fn to_request(self) -> Request {
        match self {
            Message::Query(op, _) => Request::Query(op),
            Message::QueryMut(op, _) => Request::QueryMut(op),
            Message::Close => Request::Close,
        }
    }

    /// This message as the work channel's model carries it: its request,
    /// with the identity of its completion channel (the shutdown signal
    /// has none).
    pub open spec fn entry(self) -> (Request, int) {
        match self {
            Message::Query(op, tx) => (Request::Query(op), completion_id(tx)),
            Message::QueryMut(op, tx) => (Request::QueryMut(op), completion_id(tx)),
            Message::Close => (Request::Close, 0),
        }
    }
}

/// The worker loop's lifecycle. It only ever moves forward: `Running`
/// to `ShuttingDown` on the shutdown message or a closed channel, and
/// `ShuttingDown` to `Terminated` when the loop's driver lets go of the
/// worker. `Terminated` is final; a worker is never restarted.
#[derive(Clone, Copy, Debug, PartialEq, Eq, Structural)]
pub enum WorkerState {
    Running,
    ShuttingDown,
    Terminated,
}

/// The lifecycle's only lawful moves: a running worker may keep running
/// or begin shutting down, and a worker shutting down may only
/// terminate. There is no way back from either.
pub open spec fn allowed_transition(from: WorkerState, to: WorkerState) -> bool {
    ||| (from is Running && to is Running)
    ||| (from is Running && to is ShuttingDown)
    ||| (from is ShuttingDown && to is Terminated)
}

/// Handle one message of a running worker: execute its operation against
/// the resource, exactly as the model `apply` and `outcome` say, and
/// report that outcome — never anything else — on the operation's own
/// completion channel; or, on the shutdown message, touch nothing and
/// move to `ShuttingDown`. The second half of the result says whether
/// the reply was delivered.
///
/// If delivery fails because the caller abandoned its await, that is
/// unobservable to the caller and by policy not escalated: the step
/// still leaves the worker running.
pub fn worker_step(state: WorkerState, res: &mut Resource, msg: Message) -> (r: (
    WorkerState,
    bool,
))
    requires
        state is Running,
    ensures
        allowed_transition(state, r.0),
        msg matches Message::Query(op, tx) ==> r.0 is Running && final(res)@ == apply(
            op,
            old(res)@,
        ) && (r.1 ==> replies_sent(completion_id(tx)).contains(outcome(op, old(res)@))),
        msg matches Message::QueryMut(op, tx) ==> r.0 is Running && final(res)@ == apply(
            op,
            old(res)@,
        ) && (r.1 ==> replies_sent(completion_id(tx)).contains(outcome(op, old(res)@))),
        msg is Close ==> r.0 is ShuttingDown && final(res)@ == old(res)@ && !r.1,
{
    match msg {
        Message::Close => (WorkerState::ShuttingDown, false),
        Message::Query(op, reply) => {
            let out = execute_operation(res, &op);
            // A failed delivery means this caller dropped its receiver; by
            // policy that is not escalated and the worker carries on.
            let delivered = match send_reply(reply, out) {
                Ok(()) => true,
                Err(_) => false,
            };
            (WorkerState::Running, delivered)
        },
        Message::QueryMut(op, reply) => {
            let out = execute_operation(res, &op);
            let delivered = match send_reply(reply, out) {
                Ok(()) => true,
                Err(_) => false,
            };
            (WorkerState::Running, delivered)
        },
    }
}

/// The worker half of a freshly opened bridge: sole owner of the receive
/// side of the work channel, waiting to be given the resource.
pub struct Worker {
    pub(crate) rx: flume::Receiver<Message>,
}

impl Worker {
    /// The identity of the work channel this worker receives on.
    pub closed spec fn chan(self) -> int {
        receiver_channel(self.rx)
    }

    /// Package the receive half of a work channel as the worker that
    /// will drain it.
    pub(crate) fn from_receiver(rx: flume::Receiver<Message>) -> (w: Worker)
        ensures
            w.chan() == receiver_channel(rx),
    {
        Worker { rx }
    }

    /// Begin the worker's run by taking exclusive ownership of the
    /// freshly opened resource. A failure to open the resource is
    /// returned at once instead: the run never begins, the work channel's
    /// receive side is dropped with the worker, and every delegation then
    /// finds the bridge closed.
    pub fn start(self, init: Result<Resource, Error>) -> (r: Result<RunningWorker, Error>)
        ensures
            init matches Err(e) ==> r == Err::<RunningWorker, Error>(e),
            init matches Ok(res) ==> r matches Ok(w) && w.wf() && w.chan() == self.chan()
                && w.opened() == res@ && w.processed() == Seq::<Request>::empty(),
    {
        match init {
            Err(e) => Err(e),
            Ok(res) => {
                let w = RunningWorker {
                    rx: self.rx,
                    opened: Ghost(res@),
                    processed: Ghost(Seq::empty()),
                    res,
                };
                Ok(w)
            },
        }
    }
}

/// A worker in its `Running` state: the loop that owns the resource.
/// Its driver calls [`RunningWorker::step`] until it says the run is
/// over; dropping the worker then destroys the resource with it.
///
/// The run keeps a ledger: `opened` is the resource state the run began
/// in, `processed` the requests handled so far, in arrival order. The
/// well-formedness invariant ties the resource to the model, so the
/// whole run is proved to be exactly a `run_model` of whatever arrival
/// order the work channel delivered.
pub struct RunningWorker {
    rx: flume::Receiver<Message>,
    res: Resource,
    opened: Ghost<Seq<Seq<u64>>>,
    processed: Ghost<Seq<Request>>,
}

impl RunningWorker {
    /// The run's ledger is truthful: no shutdown signal has been handled
    /// yet, and the resource holds exactly what the model says the
    /// handled requests made of the state the run began in.
    pub closed spec fn wf(self) -> bool {
        &&& no_close(self.processed@)
        &&& self.res@ == run_model(self.opened@, self.processed@).tables
    }

    /// The resource state this run began in.
    pub closed spec fn opened(self) -> Seq<Seq<u64>> {
        self.opened@
    }

    /// The requests this run has handled so far, in arrival order.
    pub closed spec fn processed(self) -> Seq<Request> {
        self.processed@
    }

    /// The identity of the work channel this run receives on.
    pub closed spec fn chan(self) -> int {
        receiver_channel(self.rx)
    }

    /// One turn of the worker loop: pull the next message in arrival
    /// order — blocking while nothing is queued — handle it with
    /// [`worker_step`], and say whether the loop must go on. The run is
    /// over exactly when the shutdown message arrived or every sender is
    /// gone; everything queued earlier has been handled first, so
    /// shutdown drains, it does not discard.
    pub fn step(&mut self) -> (more: bool)
        requires
            old(self).wf(),
        ensures
            final(self).wf(),
            final(self).opened() == old(self).opened(),
            final(self).chan() == old(self).chan(),
            more ==> exists|req: Request, cid: int|
                #[trigger] messages_sent(old(self).chan()).contains((req, cid)) && req.op()
                    is Some && final(self).processed() == old(self).processed().push(req),
            !more ==> final(self).processed() == old(self).processed(),
    {
        let msg = match recv_message(&self.rx) {
            // Every sender is gone and the queue is drained: terminate.
            None => {
                return false;
            },
            Some(m) => m,
        };
        let ghost req = msg.to_request();
        let ghost cid = msg.entry().1;
        let (next, _delivered) = worker_step(WorkerState::Running, &mut self.res, msg);
        match next {
            WorkerState::Running => {
                proof {
                    lemma_run_model_snoc(self.opened@, self.processed@, req);
                    self.processed@ = self.processed@.push(req);
                    assert(messages_sent(old(self).chan()).contains((req, cid)) && req.op()
                        is Some && self.processed() == old(self).processed().push(req));
                }
                true
            },
            // The shutdown message: everything queued before it has
            // already been handled, so the run may end here.
            _ => false,
        }
    }
}

} // verus!
