use vstd::prelude::*;

verus! {

/// The state of one chain invocation, for a driver that awaits the two
/// wrapped handlers itself (for instance one whose handlers suspend) and
/// takes every decision from this module.
#[derive(Clone, Copy, PartialEq, Eq, Structural, Debug)]
pub enum ChainState {
    /// The first handler has been invoked; its outcome is pending.
    FirstRunning,
    /// The first handler succeeded; the second has been invoked and its
    /// outcome is pending.
    SecondRunning,
    /// Both handlers succeeded: the chain invocation succeeded.
    DoneOk,
    /// A handler failed: the chain invocation failed.
    DoneErr,
}

/// What the driver of a chain invocation must do next.
#[derive(Clone, Copy, PartialEq, Eq, Structural, Debug)]
pub enum ChainAction {
    /// Invoke the second handler with the same event and report its outcome.
    InvokeSecond,
    /// Report overall success to the caller.
    ReturnSuccess,
    /// Report the chain failure to the caller.
    ReturnFailure,
}

/// One transition of a chain invocation: from the given state, after the
/// running handler completed with the given outcome, the next state and what
/// the driver must do. A failure moves to `DoneErr` at once (fail-fast); the
/// second handler is asked for only from `FirstRunning` after a success.
pub open spec fn chain_transition(s: ChainState, ok: bool) -> (ChainState, ChainAction) {
    match s {
        ChainState::FirstRunning => if ok {
            (ChainState::SecondRunning, ChainAction::InvokeSecond)
        } else {
            (ChainState::DoneErr, ChainAction::ReturnFailure)
        },
        ChainState::SecondRunning => if ok {
            (ChainState::DoneOk, ChainAction::ReturnSuccess)
        } else {
            (ChainState::DoneErr, ChainAction::ReturnFailure)
        },
        ChainState::DoneOk => (ChainState::DoneOk, ChainAction::ReturnSuccess),
        ChainState::DoneErr => (ChainState::DoneErr, ChainAction::ReturnFailure),
    }
}

/// The state in which every chain invocation begins: the first handler is
/// invoked first, unconditionally.
pub fn chain_start() -> (s: ChainState)
    ensures
        s == ChainState::FirstRunning,
{
    ChainState::FirstRunning
}

/// Advance one chain invocation by the outcome of the handler whose result
/// was awaited, exactly as `chain_transition` says.
pub fn chain_step(s: ChainState, ok: bool) -> (r: (ChainState, ChainAction))
    ensures
        r == chain_transition(s, ok),
{
    match s {
        ChainState::FirstRunning => if ok {
            (ChainState::SecondRunning, ChainAction::InvokeSecond)
        } else {
            (ChainState::DoneErr, ChainAction::ReturnFailure)
        },
        ChainState::SecondRunning => if ok {
            (ChainState::DoneOk, ChainAction::ReturnSuccess)
        } else {
            (ChainState::DoneErr, ChainAction::ReturnFailure)
        },
        ChainState::DoneOk => (ChainState::DoneOk, ChainAction::ReturnSuccess),
        ChainState::DoneErr => (ChainState::DoneErr, ChainAction::ReturnFailure),
    }
}

/// Law: a run of the protocol from the start is fail-fast and ordered. The
/// second handler is asked for exactly when the first succeeded; the run ends
/// in `DoneOk` exactly when both outcomes were successes; a failed first
/// outcome ends the run at once.
pub proof fn lemma_protocol_fail_fast(ok1: bool, ok2: bool)
    ensures
        chain_transition(ChainState::FirstRunning, ok1).1 == ChainAction::InvokeSecond <==> ok1,
        ok1 ==> (chain_transition(chain_transition(ChainState::FirstRunning, ok1).0, ok2).0
            == ChainState::DoneOk <==> ok2),
        !ok1 ==> chain_transition(ChainState::FirstRunning, ok1).0 == ChainState::DoneErr,
{
}

} // verus!
