use kipt::errors::Error;
use kipt::transaction::{
    poll_exec_succeeded, poll_state_result, poll_step, watch_tx, PollState, ReceiptOutcome,
};

#[test]
fn not_found_twice_then_succeeded_confirms_in_three_queries() {
    let events = vec![
        ReceiptOutcome::TransactionHashNotFound,
        ReceiptOutcome::TransactionHashNotFound,
        ReceiptOutcome::Succeeded,
    ];
    let (state, queries) = poll_exec_succeeded(&events);
    assert!(matches!(state, PollState::Confirmed));
    assert_eq!(queries, 3);
}

#[test]
fn both_not_found_codes_are_equivalent() {
    let events = vec![
        ReceiptOutcome::InvalidTransactionHash,
        ReceiptOutcome::TransactionHashNotFound,
        ReceiptOutcome::Succeeded,
    ];
    let (state, queries) = poll_exec_succeeded(&events);
    assert!(matches!(state, PollState::Confirmed));
    assert_eq!(queries, 3);
}

#[test]
fn revert_ends_after_one_query_with_reason() {
    let events = vec![ReceiptOutcome::Reverted(String::from("out of gas"))];
    let (state, queries) = poll_exec_succeeded(&events);
    match state {
        PollState::Reverted(reason) => assert_eq!(reason, "out of gas"),
        other => panic!("expected Reverted, got {:?}", other),
    }
    assert_eq!(queries, 1);
}

#[test]
fn unrelated_failure_is_fatal_after_one_query() {
    let events = vec![
        ReceiptOutcome::Failed(String::from("connection refused")),
        ReceiptOutcome::Succeeded,
    ];
    let (state, queries) = poll_exec_succeeded(&events);
    match state {
        PollState::Fatal(Error::TransportError(m)) => assert_eq!(m, "connection refused"),
        other => panic!("expected Fatal(TransportError), got {:?}", other),
    }
    assert_eq!(queries, 1);
}

#[test]
fn exhausted_trace_stays_pending() {
    let events = vec![
        ReceiptOutcome::TransactionHashNotFound,
        ReceiptOutcome::InvalidTransactionHash,
    ];
    let (state, queries) = poll_exec_succeeded(&events);
    assert!(matches!(state, PollState::Pending));
    assert_eq!(queries, 2);
}

#[test]
fn watch_tx_behaves_like_the_poller() {
    let events = vec![ReceiptOutcome::TransactionHashNotFound, ReceiptOutcome::Succeeded];
    let (state, queries) = watch_tx(&events);
    assert!(matches!(state, PollState::Confirmed));
    assert_eq!(queries, 2);
}

#[test]
fn single_step_transitions() {
    assert!(matches!(poll_step(&ReceiptOutcome::Succeeded), PollState::Confirmed));
    assert!(matches!(
        poll_step(&ReceiptOutcome::TransactionHashNotFound),
        PollState::Pending
    ));
    assert!(matches!(
        poll_step(&ReceiptOutcome::InvalidTransactionHash),
        PollState::Pending
    ));
    assert!(matches!(
        poll_step(&ReceiptOutcome::Reverted(String::from("r"))),
        PollState::Reverted(_)
    ));
    assert!(matches!(
        poll_step(&ReceiptOutcome::Failed(String::from("f"))),
        PollState::Fatal(Error::TransportError(_))
    ));
}

#[test]
fn results_of_settled_states() {
    assert!(matches!(poll_state_result(PollState::Pending), None));
    assert!(matches!(poll_state_result(PollState::Confirmed), Some(Ok(()))));
    match poll_state_result(PollState::Reverted(String::from("why"))) {
        Some(Err(Error::TransactionReverted(m))) => assert_eq!(m, "why"),
        other => panic!("expected TransactionReverted, got {:?}", other),
    }
    match poll_state_result(PollState::Fatal(Error::TransportError(String::from("down")))) {
        Some(Err(Error::TransportError(m))) => assert_eq!(m, "down"),
        other => panic!("expected the fatal error back, got {:?}", other),
    }
}
