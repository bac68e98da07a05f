use event_chain::chain_handler::{ChainHandler, ChainHandlerError};
use event_chain::event_processor::{CallRecord, EventHandler};
use event_chain::event_sub::Event;
use event_chain::fixed_handler::{FixedHandler, FixedHandlerError};
use event_chain::protocol::{chain_start, chain_step, ChainAction, ChainState};

#[test]
fn should_chain_handlers() {
    let height: u64 = 10;
    let handler_1 = FixedHandler::new(1, true);
    let handler_2 = FixedHandler::new(2, true);
    let chain = ChainHandler::new(handler_1, handler_2);
    let mut record = CallRecord::new();

    assert!(chain.handle(&Event::BlockEnd(height), &mut record).is_ok());
    assert_eq!(
        record.calls(),
        &vec![(1, Event::BlockEnd(height)), (2, Event::BlockEnd(height))]
    );
}

#[test]
fn should_fail_if_the_first_handler_fails() {
    let height: u64 = 10;
    let handler_1 = FixedHandler::new(1, false);
    let chain = ChainHandler::new(handler_1, FixedHandler::new(2, true));
    let mut record = CallRecord::new();

    assert!(chain.handle(&Event::BlockEnd(height), &mut record).is_err());
    // the second handler records zero calls
    assert_eq!(record.calls(), &vec![(1, Event::BlockEnd(height))]);
}

#[test]
fn should_fail_if_the_second_handler_fails() {
    let height: u64 = 10;
    let handler_1 = FixedHandler::new(1, true);
    let handler_2 = FixedHandler::new(2, false);
    let chain = ChainHandler::new(handler_1, handler_2);
    let mut record = CallRecord::new();

    assert!(chain.handle(&Event::BlockEnd(height), &mut record).is_err());
    assert_eq!(
        record.calls(),
        &vec![(1, Event::BlockEnd(height)), (2, Event::BlockEnd(height))]
    );
}

#[test]
fn chain_reports_one_failure_kind_whichever_handler_fails() {
    let event = Event::BlockEnd(10);

    let first_fails = ChainHandler::new(FixedHandler::new(1, false), FixedHandler::new(2, true));
    let mut record = CallRecord::new();
    let err = first_fails.handle(&event, &mut record).unwrap_err();
    assert_eq!(err, ChainHandlerError::ChainError);

    let second_fails = ChainHandler::new(FixedHandler::new(1, true), FixedHandler::new(2, false));
    let mut record = CallRecord::new();
    let err = second_fails.handle(&event, &mut record).unwrap_err();
    assert_eq!(err, ChainHandlerError::ChainError);
}

#[test]
fn first_handler_completes_before_second_begins() {
    let event = Event::BlockBegin(3);
    let chain = ChainHandler::new(FixedHandler::new(7, true), FixedHandler::new(8, true));
    let mut record = CallRecord::new();

    assert!(chain.handle(&event, &mut record).is_ok());
    let calls = record.calls();
    assert_eq!(calls.len(), 2);
    assert_eq!(calls[0], (7, event));
    assert_eq!(calls[1], (8, event));
}

#[test]
fn event_reaches_both_handlers_unchanged() {
    let event = Event::BlockBegin(42);
    let chain = ChainHandler::new(FixedHandler::new(1, true), FixedHandler::new(2, true));
    let mut record = CallRecord::new();

    assert!(chain.handle(&event, &mut record).is_ok());
    for call in record.calls() {
        assert_eq!(call.1, Event::BlockBegin(42));
        assert_ne!(call.1, Event::BlockEnd(42));
    }
}

fn run_nested(
    first_ok: bool,
    second_ok: bool,
    third_ok: bool,
) -> (Result<(), ChainHandlerError>, Vec<(u64, Event)>) {
    let inner = ChainHandler::new(FixedHandler::new(1, first_ok), FixedHandler::new(2, second_ok));
    let outer = ChainHandler::new(inner, FixedHandler::new(3, third_ok));
    let mut record = CallRecord::new();
    let result = outer.handle(&Event::BlockEnd(10), &mut record);
    (result, record.calls().clone())
}

#[test]
fn nested_chains_succeed_only_if_all_succeed() {
    let event = Event::BlockEnd(10);
    let (result, calls) = run_nested(true, true, true);
    assert!(result.is_ok());
    assert_eq!(calls, vec![(1, event), (2, event), (3, event)]);
}

#[test]
fn nested_chains_fail_fast_at_the_first_failure() {
    let event = Event::BlockEnd(10);

    let (result, calls) = run_nested(false, true, true);
    assert!(result.is_err());
    assert_eq!(calls, vec![(1, event)]);

    let (result, calls) = run_nested(true, false, true);
    assert!(result.is_err());
    assert_eq!(calls, vec![(1, event), (2, event)]);

    let (result, calls) = run_nested(true, true, false);
    assert!(result.is_err());
    assert_eq!(calls, vec![(1, event), (2, event), (3, event)]);
}

#[test]
fn fixed_handler_records_itself_and_returns_its_outcome() {
    let event = Event::BlockEnd(10);

    let succeeding = FixedHandler::new(5, true);
    let mut record = CallRecord::new();
    assert!(succeeding.handle(&event, &mut record).is_ok());
    assert_eq!(record.calls(), &vec![(5, event)]);

    let failing = FixedHandler::new(6, false);
    let mut record = CallRecord::new();
    assert_eq!(
        failing.handle(&event, &mut record).unwrap_err(),
        FixedHandlerError::Unknown
    );
    assert_eq!(record.calls(), &vec![(6, event)]);
}

#[test]
fn call_record_starts_empty() {
    let record = CallRecord::new();
    assert!(record.calls().is_empty());
}

#[test]
fn protocol_runs_fail_fast_in_order() {
    // both succeed: invoke first, then second, then report success
    let state = chain_start();
    assert_eq!(state, ChainState::FirstRunning);
    let (state, action) = chain_step(state, true);
    assert_eq!((state, action), (ChainState::SecondRunning, ChainAction::InvokeSecond));
    let (state, action) = chain_step(state, true);
    assert_eq!((state, action), (ChainState::DoneOk, ChainAction::ReturnSuccess));

    // the first fails: the second is never asked for
    let (state, action) = chain_step(chain_start(), false);
    assert_eq!((state, action), (ChainState::DoneErr, ChainAction::ReturnFailure));

    // the second fails: the chain fails
    let (state, _) = chain_step(chain_start(), true);
    let (state, action) = chain_step(state, false);
    assert_eq!((state, action), (ChainState::DoneErr, ChainAction::ReturnFailure));

    // a finished run keeps reporting the same outcome
    assert_eq!(
        chain_step(ChainState::DoneOk, false),
        (ChainState::DoneOk, ChainAction::ReturnSuccess)
    );
    assert_eq!(
        chain_step(ChainState::DoneErr, true),
        (ChainState::DoneErr, ChainAction::ReturnFailure)
    );
}
