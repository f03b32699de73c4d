use vstd::prelude::*;
use crate::errors::Error;

verus! {

/// What one receipt query produced, as the transport hands it back.
///
/// The two distinct node error codes for a not-yet-observable transaction
/// are kept apart here, so that treating them alike is this module's
/// decision, stated and checked.
#[derive(Clone, Debug)]
pub enum ReceiptOutcome {
    /// Receipt present; the execution succeeded.
    Succeeded,
    /// Receipt present; the execution reverted, with the on-chain reason.
    Reverted(String),
    /// Query failed: the node does not know the transaction hash.
    TransactionHashNotFound,
    /// Query failed: the node calls the hash invalid. Older nodes answer
    /// this for a transaction that is merely not yet observable.
    InvalidTransactionHash,
    /// Query failed some other way; the message passes through unchanged.
    Failed(String),
}

/// The poller's state: starts `Pending`; `Confirmed`, `Reverted` and
/// `Fatal` are terminal.
#[derive(Clone, Debug)]
pub enum PollState {
    Pending,
    Confirmed,
    Reverted(String),
    Fatal(Error),
}

/// The event is one of the two "transaction not yet observable" answers,
/// on which the poller stays pending and retries.
pub open spec fn is_pending_event(e: ReceiptOutcome) -> bool {
    e is TransactionHashNotFound || e is InvalidTransactionHash
}

/// The state one receipt-query outcome drives the poller into.
pub open spec fn step_spec(e: ReceiptOutcome) -> PollState {
    match e {
        ReceiptOutcome::Succeeded => PollState::Confirmed,
        ReceiptOutcome::Reverted(reason) => PollState::Reverted(reason),
        ReceiptOutcome::TransactionHashNotFound => PollState::Pending,
        ReceiptOutcome::InvalidTransactionHash => PollState::Pending,
        ReceiptOutcome::Failed(msg) => PollState::Fatal(Error::TransportError(msg)),
    }
}

/// The final state and the number of queries spent on a finite sequence of
/// receipt-query outcomes: the poller consumes "not yet" answers one per
/// tick and settles on the first other answer.
pub open spec fn poll_trace_spec(s: Seq<ReceiptOutcome>) -> (PollState, nat)
    decreases s.len(),
{
    if s.len() == 0 {
        (PollState::Pending, 0)
    } else if is_pending_event(s[0]) {
        let rest = poll_trace_spec(s.skip(1));
        (rest.0, (rest.1 + 1) as nat)
    } else {
        (step_spec(s[0]), 1)
    }
}

/// One tick of the confirmation poller, from `Pending`, on one receipt
/// query's outcome: success confirms, a revert is terminal with its
/// reason, either of the two "not yet observable" codes stays pending,
/// and any other failure is fatal, the error passed through unchanged.
pub fn poll_step(event: &ReceiptOutcome) -> (r: PollState)
    ensures
        r == step_spec(*event),
{
    match event {
        ReceiptOutcome::Succeeded => PollState::Confirmed,
        ReceiptOutcome::Reverted(reason) => PollState::Reverted(reason.clone()),
        ReceiptOutcome::TransactionHashNotFound => PollState::Pending,
        ReceiptOutcome::InvalidTransactionHash => PollState::Pending,
        ReceiptOutcome::Failed(msg) => PollState::Fatal(Error::TransportError(msg.clone())),
    }
}

/// Splitting a trace after `i` pending answers adds `i` queries.
proof fn lemma_poll_trace_skip(s: Seq<ReceiptOutcome>, i: int)
    requires
        0 <= i <= s.len(),
        forall|j: int| 0 <= j < i ==> is_pending_event(#[trigger] s[j]),
    ensures
        poll_trace_spec(s).0 == poll_trace_spec(s.skip(i)).0,
        poll_trace_spec(s).1 == poll_trace_spec(s.skip(i)).1 + i,
    decreases i,
{
    if i > 0 {
        assert(is_pending_event(s[0]));
        assert(s.skip(1).skip(i - 1) =~= s.skip(i));
        assert(forall|j: int| 0 <= j < i - 1 ==> is_pending_event(#[trigger] s.skip(1)[j]));
        lemma_poll_trace_skip(s.skip(1), i - 1);
    } else {
        assert(s.skip(0) =~= s);
    }
}

/// Runs the confirmation poller over a finite sequence of receipt-query
/// outcomes, one query per tick, and returns the state it settles in
/// together with how many queries it made. A trace of nothing but "not
/// yet" answers leaves the poller `Pending` — in the live loop it simply
/// keeps waiting, without bound, at the fixed interval.
pub fn poll_exec_succeeded(events: &Vec<ReceiptOutcome>) -> (r: (PollState, usize))
    ensures
        r.0 == poll_trace_spec(events@).0,
        r.1 as nat == poll_trace_spec(events@).1,
{
    let n = events.len();
    let mut i: usize = 0;
    while i < n
        invariant
            i <= n,
            n == events@.len(),
            forall|j: int| 0 <= j < i ==> is_pending_event(#[trigger] events@[j]),
        decreases n - i,
    {
        let settled: bool = match &events[i] {
            ReceiptOutcome::TransactionHashNotFound => false,
            ReceiptOutcome::InvalidTransactionHash => false,
            _ => true,
        };
        if settled {
            let st = poll_step(&events[i]);
            proof {
                lemma_poll_trace_skip(events@, i as int);
                assert(events@.skip(i as int)[0] == events@[i as int]);
            }
            return (st, i + 1);
        }
        i += 1;
    }
    proof {
        lemma_poll_trace_skip(events@, n as int);
        assert(events@.skip(n as int) =~= Seq::<ReceiptOutcome>::empty());
    }
    (PollState::Pending, n)
}

/// Waits on a transaction the same way `poll_exec_succeeded` does; kept
/// as its own entry point because callers watch transactions both from
/// inside an operation and on explicit request.
pub fn watch_tx(events: &Vec<ReceiptOutcome>) -> (r: (PollState, usize))
    ensures
        r.0 == poll_trace_spec(events@).0,
        r.1 as nat == poll_trace_spec(events@).1,
{
    poll_exec_succeeded(events)
}

/// Turns a settled poll state into the operation's result: `Confirmed`
/// is success, a revert carries its reason, a fatal error passes
/// through, and a still-pending poller has no result yet.
pub fn poll_state_result(st: PollState) -> (r: Option<Result<(), Error>>)
    ensures
        match st {
            PollState::Pending => r is None,
            PollState::Confirmed => r == Some(Result::<(), Error>::Ok(())),
            PollState::Reverted(reason) => r matches Some(Err(e)) && (e matches
                Error::TransactionReverted(m) && m@ == reason@),
            PollState::Fatal(err) => r == Some(Result::<(), Error>::Err(err)),
        },
{
    match st {
        PollState::Pending => None,
        PollState::Confirmed => Some(Ok(())),
        PollState::Reverted(reason) => Some(Err(Error::TransactionReverted(reason))),
        PollState::Fatal(err) => Some(Err(err)),
    }
}

} // verus!
