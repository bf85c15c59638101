use vstd::prelude::*;

use crate::errors::{recovered, CallerError, OpError};
use crate::operation::{apply, outcome, Operation};
use crate::reply_to_result;

verus! {

/// A work-channel message as the model of a worker run sees it: the
/// operation and its delegation shape, with the completion channel
/// stripped.
#[derive(Clone, Copy, Debug, PartialEq, Eq, Structural)]
pub enum Request {
    /// An operation delegated with shared, read-only intent.
    Query(Operation),
    /// An operation delegated with exclusive, mutating intent.
    QueryMut(Operation),
    /// The shutdown signal.
    Close,
}

impl Request {
    /// The operation a request carries, unless it is the shutdown signal.
    pub open spec fn op(self) -> Option<Operation> {
        match self {
            Request::Query(op) => Some(op),
            Request::QueryMut(op) => Some(op),
            Request::Close => None,
        }
    }
}

/// The request a delegation of the given intent submits for `op`.
pub open spec fn as_request(mutating: bool, op: Operation) -> Request {
    if mutating {
        Request::QueryMut(op)
    } else {
        Request::Query(op)
    }
}

/// Whether no request in `reqs` is the shutdown signal.
pub open spec fn no_close(reqs: Seq<Request>) -> bool {
    forall|k: int| 0 <= k < reqs.len() ==> !((#[trigger] reqs[k]) is Close)
}

/// What one worker run makes of the requests it receives: for each
/// request, in arrival order, either the outcome its caller observes
/// (`Some`), or `None` where the caller observes no result at all —
/// the worker stopped first, so the caller's completion channel closes
/// and the caller sees the bridge as closed. `tables` is the resource
/// state once the run is over.
pub struct RunModel {
    pub outcomes: Seq<Option<Result<u64, OpError>>>,
    pub tables: Seq<Seq<u64>>,
}

/// The model of a worker run: starting from resource state `t`, handle
/// `reqs` strictly one after the other, each operation executed to
/// completion against the state the previous ones left, until the first
/// shutdown signal; every request after that one is never executed.
pub open spec fn run_model(t: Seq<Seq<u64>>, reqs: Seq<Request>) -> RunModel
    decreases reqs.len(),
{
    if reqs.len() == 0 {
        RunModel { outcomes: Seq::empty(), tables: t }
    } else {
        match reqs[0].op() {
            Option::None => RunModel {
                outcomes: Seq::new(reqs.len(), |i: int| None),
                tables: t,
            },
            Option::Some(op) => {
                let rest = run_model(apply(op, t), reqs.drop_first());
                RunModel {
                    outcomes: seq![Some(outcome(op, t))] + rest.outcomes,
                    tables: rest.tables,
                }
            },
        }
    }
}

/// A worker run answers every request: one outcome slot per request, in
/// arrival order.
pub proof fn lemma_run_model_len(t: Seq<Seq<u64>>, reqs: Seq<Request>)
    ensures
        run_model(t, reqs).outcomes.len() == reqs.len(),
    decreases reqs.len(),
{
    if reqs.len() == 0 {
    } else {
        match reqs[0].op() {
            Option::None => {},
            Option::Some(op) => {
                lemma_run_model_len(apply(op, t), reqs.drop_first());
            },
        }
    }
}

/// Every delegation submitted before any shutdown signal resolves: the
/// worker executes it and reports its outcome. In particular, however
/// many callers race and however much they submit, nothing is starved
/// and nothing is silently dropped.
pub proof fn lemma_every_request_resolves(t: Seq<Seq<u64>>, reqs: Seq<Request>, i: int)
    requires
        0 <= i < reqs.len(),
        forall|k: int| 0 <= k <= i ==> !((#[trigger] reqs[k]) is Close),
    ensures
        run_model(t, reqs).outcomes[i] is Some,
    decreases reqs.len(),
{
    lemma_run_model_len(t, reqs);
    let op = reqs[0].op()->Some_0;
    let rest = run_model(apply(op, t), reqs.drop_first());
    lemma_run_model_len(apply(op, t), reqs.drop_first());
    if i == 0 {
    } else {
        assert(forall|k: int| 0 <= k <= i - 1 ==> !((#[trigger] reqs.drop_first()[k]) is Close));
        lemma_every_request_resolves(apply(op, t), reqs.drop_first(), i - 1);
        assert(run_model(t, reqs).outcomes[i] == rest.outcomes[i - 1]);
    }
}

/// Handling one more request after a run without shutdown extends the
/// run: the new request executes against exactly the state the earlier
/// ones left, its outcome is appended, and no earlier outcome changes.
pub proof fn lemma_run_model_snoc(t: Seq<Seq<u64>>, reqs: Seq<Request>, req: Request)
    requires
        no_close(reqs),
        req.op() is Some,
    ensures
        run_model(t, reqs.push(req)).tables == apply(
            req.op()->Some_0,
            run_model(t, reqs).tables,
        ),
        run_model(t, reqs.push(req)).outcomes == run_model(t, reqs).outcomes.push(
            Some(outcome(req.op()->Some_0, run_model(t, reqs).tables)),
        ),
    decreases reqs.len(),
{
    let op = req.op()->Some_0;
    if reqs.len() == 0 {
        assert(reqs.push(req) =~= seq![req]);
        assert(run_model(t, seq![req]).tables == run_model(apply(op, t), seq![req].drop_first()).tables);
        assert(seq![req].drop_first() =~= Seq::<Request>::empty());
        assert(run_model(t, reqs.push(req)).outcomes =~= run_model(t, reqs).outcomes.push(
            Some(outcome(op, run_model(t, reqs).tables)),
        ));
    } else {
        let head = reqs[0].op()->Some_0;
        assert(!(reqs[0] is Close));
        assert(reqs.push(req)[0] == reqs[0]);
        assert(reqs.push(req).drop_first() =~= reqs.drop_first().push(req));
        assert(no_close(reqs.drop_first())) by {
            assert(forall|k: int|
                0 <= k < reqs.drop_first().len() ==> reqs.drop_first()[k] == reqs[k + 1]);
        }
        lemma_run_model_snoc(apply(head, t), reqs.drop_first(), req);
        assert(run_model(t, reqs.push(req)).outcomes =~= run_model(t, reqs).outcomes.push(
            Some(outcome(op, run_model(t, reqs).tables)),
        ));
    }
}

/// A worker run splits: handling `a` and then `b` is handling `a` whole
/// and then handling `b` from the state `a` left, as long as `a` holds
/// no shutdown signal — the earlier requests' outcomes are exactly the
/// outcomes of running `a` alone.
pub proof fn lemma_run_model_split(t: Seq<Seq<u64>>, a: Seq<Request>, b: Seq<Request>)
    requires
        no_close(a),
    ensures
        run_model(t, a + b).tables == run_model(run_model(t, a).tables, b).tables,
        run_model(t, a + b).outcomes == run_model(t, a).outcomes + run_model(
            run_model(t, a).tables,
            b,
        ).outcomes,
    decreases a.len(),
{
    if a.len() == 0 {
        assert(a + b =~= b);
        assert(run_model(t, a).outcomes + run_model(t, b).outcomes =~= run_model(t, b).outcomes);
    } else {
        let op = a[0].op()->Some_0;
        assert(!(a[0] is Close));
        assert((a + b)[0] == a[0]);
        assert((a + b).drop_first() =~= a.drop_first() + b);
        assert(no_close(a.drop_first())) by {
            assert(forall|k: int|
                0 <= k < a.drop_first().len() ==> a.drop_first()[k] == a[k + 1]);
        }
        lemma_run_model_split(apply(op, t), a.drop_first(), b);
        assert(run_model(t, a + b).outcomes =~= run_model(t, a).outcomes + run_model(
            run_model(t, a).tables,
            b,
        ).outcomes);
    }
}

/// Results are observed in submission order, and an outcome, once
/// earned, is final: whatever is submitted later — by the same caller
/// or by any other — the outcomes of the earlier requests are exactly
/// what they were without the later traffic, each in its own slot.
pub proof fn lemma_results_in_submission_order(
    t: Seq<Seq<u64>>,
    reqs: Seq<Request>,
    more: Seq<Request>,
)
    ensures
        run_model(t, reqs + more).outcomes.take(reqs.len() as int) == run_model(t, reqs).outcomes,
    decreases reqs.len(),
{
    lemma_run_model_len(t, reqs + more);
    lemma_run_model_len(t, reqs);
    if reqs.len() == 0 {
        assert(run_model(t, reqs + more).outcomes.take(0) =~= run_model(t, reqs).outcomes);
    } else {
        assert((reqs + more)[0] == reqs[0]);
        match reqs[0].op() {
            Option::None => {
                assert(run_model(t, reqs + more).outcomes.take(reqs.len() as int)
                    =~= run_model(t, reqs).outcomes);
            },
            Option::Some(op) => {
                assert((reqs + more).drop_first() =~= reqs.drop_first() + more);
                lemma_results_in_submission_order(apply(op, t), reqs.drop_first(), more);
                lemma_run_model_len(apply(op, t), reqs.drop_first() + more);
                lemma_run_model_len(apply(op, t), reqs.drop_first());
                assert(run_model(t, reqs + more).outcomes.take(reqs.len() as int)
                    =~= run_model(t, reqs).outcomes);
            },
        }
    }
}

/// The resource state each request executes against: what the model made
/// of everything that arrived before it.
pub open spec fn tables_before(t: Seq<Seq<u64>>, reqs: Seq<Request>, j: int) -> Seq<Seq<u64>> {
    run_model(t, reqs.take(j)).tables
}

/// Each request executed before shutdown observes exactly the state all
/// earlier requests left, and its outcome is the model's outcome on that
/// state.
pub proof fn lemma_outcome_observes_prior_state(t: Seq<Seq<u64>>, reqs: Seq<Request>, j: int)
    requires
        0 <= j < reqs.len(),
        forall|k: int| 0 <= k <= j ==> !((#[trigger] reqs[k]) is Close),
    ensures
        run_model(t, reqs).outcomes[j] == Some(
            outcome(reqs[j].op()->Some_0, tables_before(t, reqs, j)),
        ),
    decreases j,
{
    let a = reqs.take(j);
    let b = reqs.skip(j);
    assert(no_close(a)) by {
        assert(forall|k: int| 0 <= k < a.len() ==> a[k] == reqs[k]);
    }
    assert(a + b =~= reqs);
    lemma_run_model_split(t, a, b);
    lemma_run_model_len(t, a);
    assert(b[0] == reqs[j]);
    let op = reqs[j].op()->Some_0;
    assert(run_model(tables_before(t, reqs, j), b).outcomes[0] == Some(
        outcome(op, tables_before(t, reqs, j)),
    ));
    assert(run_model(t, reqs).outcomes[j] == run_model(tables_before(t, reqs, j), b).outcomes[0]);
}

/// Strict sequential consistency on the resource: for any two requests
/// A (earlier) and B (later) executed before shutdown, the state B
/// executes against is reached from the state left *after* A — A's
/// side effects included — by the requests between them alone.
pub proof fn lemma_effects_visible(t: Seq<Seq<u64>>, reqs: Seq<Request>, i: int, j: int)
    requires
        0 <= i < j < reqs.len(),
        forall|k: int| 0 <= k <= j ==> !((#[trigger] reqs[k]) is Close),
    ensures
        tables_before(t, reqs, j) == run_model(
            apply(reqs[i].op()->Some_0, tables_before(t, reqs, i)),
            reqs.subrange(i + 1, j),
        ).tables,
{
    let a = reqs.take(i + 1);
    let mid = reqs.subrange(i + 1, j);
    assert(no_close(a)) by {
        assert(forall|k: int| 0 <= k < a.len() ==> a[k] == reqs[k]);
    }
    assert(a + mid =~= reqs.take(j));
    lemma_run_model_split(t, a, mid);
    assert(reqs.take(i).push(reqs[i]) =~= a);
    assert(no_close(reqs.take(i))) by {
        assert(forall|k: int| 0 <= k < reqs.take(i).len() ==> reqs.take(i)[k] == reqs[k]);
    }
    lemma_run_model_snoc(t, reqs.take(i), reqs[i]);
}

/// Once the shutdown signal is in the queue, no request at or after it
/// is ever executed: its caller observes the closed bridge instead.
pub proof fn lemma_closed_after_shutdown(t: Seq<Seq<u64>>, reqs: Seq<Request>, k: int, i: int)
    requires
        0 <= k <= i < reqs.len(),
        reqs[k] is Close,
    ensures
        run_model(t, reqs).outcomes[i] is None,
    decreases reqs.len(),
{
    lemma_run_model_len(t, reqs);
    match reqs[0].op() {
        Option::None => {},
        Option::Some(op) => {
            let rest = run_model(apply(op, t), reqs.drop_first());
            lemma_run_model_len(apply(op, t), reqs.drop_first());
            assert(k >= 1);
            lemma_closed_after_shutdown(apply(op, t), reqs.drop_first(), k - 1, i - 1);
            assert(run_model(t, reqs).outcomes[i] == rest.outcomes[i - 1]);
        },
    }
}

/// However many callers race to increment one cell, no update is lost:
/// a run of nothing but increment requests on that cell leaves it larger
/// by exactly their number, and answers each caller with the cell's
/// value as of its own turn — provided the cell stays below its cap.
pub proof fn lemma_increments_accumulate(
    t: Seq<Seq<u64>>,
    table: u64,
    row: u64,
    reqs: Seq<Request>,
)
    requires
        (table as int) < t.len(),
        (row as int) < t[table as int].len(),
        forall|k: int| 0 <= k < reqs.len() ==> (#[trigger] reqs[k]) == Request::QueryMut(
            Operation::Increment { table, row },
        ),
        t[table as int][row as int] + reqs.len() <= u64::MAX,
    ensures
        run_model(t, reqs).tables[table as int][row as int] == t[table as int][row as int]
            + reqs.len(),
        forall|k: int| 0 <= k < reqs.len() ==> #[trigger] run_model(t, reqs).outcomes[k] == Some(
            Ok::<u64, OpError>(((t[table as int][row as int] + k + 1) as u64)),
        ),
    decreases reqs.len(),
{
    lemma_run_model_len(t, reqs);
    if reqs.len() == 0 {
    } else {
        let op = Operation::Increment { table, row };
        assert(reqs[0] == Request::QueryMut(op));
        let t2 = apply(op, t);
        assert(t2[table as int][row as int] == t[table as int][row as int] + 1);
        assert(forall|k: int|
            0 <= k < reqs.drop_first().len() ==> (#[trigger] reqs.drop_first()[k]) == reqs[k
                + 1]);
        lemma_increments_accumulate(t2, table, row, reqs.drop_first());
        let rest = run_model(t2, reqs.drop_first());
        lemma_run_model_len(t2, reqs.drop_first());
        assert(run_model(t, reqs).outcomes[0] == Some(outcome(op, t)));
        assert(outcome(op, t) == Ok::<u64, OpError>(
            ((t[table as int][row as int] + 1) as u64),
        ));
        assert(forall|k: int|
            1 <= k < reqs.len() ==> #[trigger] run_model(t, reqs).outcomes[k]
                == rest.outcomes[k - 1]);
    }
}

/// A caller-supplied error is recoverable by inspection, unchanged in
/// content: an operation that fails with the caller's own value touches
/// nothing, its outcome carries that value, the wrapping keeps it under
/// the `Other` kind, and inspection recovers it exactly.
pub proof fn lemma_caller_error_recoverable(code: u64, t: Seq<Seq<u64>>)
    ensures
        apply(Operation::Fail { code }, t) == t,
        outcome(Operation::Fail { code }, t) == Err::<u64, OpError>(
            OpError::Custom(CallerError { code }),
        ),
        reply_to_result(outcome(Operation::Fail { code }, t)) matches Err(e) && recovered(e)
            == Some(CallerError { code }),
{
}

} // verus!
