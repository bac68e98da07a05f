use crate::event_processor::{CallRecord, EventHandler};
use crate::event_sub::Event;
use crate::protocol::{chain_transition, ChainAction, ChainState};
use vstd::prelude::*;

verus! {

/// The failure a chain reports: one of the two chained handlers failed
/// handling the event. The chain exposes exactly this one failure kind; it
/// does not tell which of the two handlers failed, nor why.
#[derive(Clone, Copy, PartialEq, Eq, Structural, Debug)]
pub enum ChainHandlerError {
    /// One of the chained handlers failed handling an event.
    ChainError,
}

/// Two handlers presented as one: an event is dispatched to the first
/// handler and, only if that succeeds, to the second, with the same event.
/// A single failure fails the whole chain at once (fail-fast): the second
/// handler is never invoked after the first fails.
///
/// The chain itself satisfies [`EventHandler`], so chains nest: an instance
/// can serve as either handler of another chain.
pub struct ChainHandler<H1, H2> where H1: EventHandler, H2: EventHandler {
    handler_1: H1,
    handler_2: H2,
}

impl<H1, H2> ChainHandler<H1, H2> where H1: EventHandler, H2: EventHandler {
    /// The handler invoked first.
    pub closed spec fn first(&self) -> H1 {
        self.handler_1
    }

    /// The handler invoked second, and only if the first succeeded.
    pub closed spec fn second(&self) -> H2 {
        self.handler_2
    }

    /// A chain that owns the two given handlers and applies them in the
    /// given order.
    pub fn new(handler_1: H1, handler_2: H2) -> (r: Self)
        ensures
            r.first() == handler_1,
            r.second() == handler_2,
    {
        ChainHandler { handler_1, handler_2 }
    }
}

impl<H1, H2> EventHandler for ChainHandler<H1, H2> where H1: EventHandler, H2: EventHandler {
    type Err = ChainHandlerError;

    open spec fn succeeds_on(&self, event: Event) -> bool {
        self.first().succeeds_on(event) && self.second().succeeds_on(event)
    }

    open spec fn record_of(&self, event: Event) -> Seq<(u64, Event)> {
        if self.first().succeeds_on(event) {
            self.first().record_of(event) + self.second().record_of(event)
        } else {
            self.first().record_of(event)
        }
    }

    fn handle(&self, event: &Event, rec: &mut CallRecord) -> (r: Result<(), ChainHandlerError>) {
        match self.handler_1.handle(event, rec) {
            Err(_) => Err(ChainHandlerError::ChainError),
            Ok(()) => {
                let second = self.handler_2.handle(event, rec);
                match second {
                    Err(_) => Err(ChainHandlerError::ChainError),
                    Ok(()) => Ok(()),
                }
            },
        }
    }
}

/// Law: if both handlers succeed on an event, the chain succeeds on it, and
/// one chain invocation invokes the first handler exactly once and then the
/// second handler exactly once, each with that event.
pub proof fn lemma_chain_both_succeed<H1, H2>(c: &ChainHandler<H1, H2>, event: Event) where
    H1: EventHandler,
    H2: EventHandler,

    requires
        c.first().succeeds_on(event),
        c.second().succeeds_on(event),
    ensures
        c.succeeds_on(event),
        c.record_of(event) == c.first().record_of(event) + c.second().record_of(event),
{
}

/// Law: if the first handler fails on an event, the chain fails on it, the
/// first handler is invoked exactly once, and the second handler is never
/// invoked: the chain's record is the first handler's record alone.
pub proof fn lemma_chain_first_fails<H1, H2>(c: &ChainHandler<H1, H2>, event: Event) where
    H1: EventHandler,
    H2: EventHandler,

    requires
        !c.first().succeeds_on(event),
    ensures
        !c.succeeds_on(event),
        c.record_of(event) == c.first().record_of(event),
{
}

/// Law: if the first handler succeeds on an event and the second fails on
/// it, the chain fails on it, and both handlers are still invoked exactly
/// once each with that event.
pub proof fn lemma_chain_second_fails<H1, H2>(c: &ChainHandler<H1, H2>, event: Event) where
    H1: EventHandler,
    H2: EventHandler,

    requires
        c.first().succeeds_on(event),
        !c.second().succeeds_on(event),
    ensures
        !c.succeeds_on(event),
        c.record_of(event) == c.first().record_of(event) + c.second().record_of(event),
{
}

/// Law: whenever the second handler is invoked at all (that is, whenever the
/// first succeeds), the first handler's invocations all stand before the
/// second handler's in the chain's recorded call order: the first handler's
/// invocation completes before the second's begins.
pub proof fn lemma_chain_first_precedes_second<H1, H2>(c: &ChainHandler<H1, H2>, event: Event) where
    H1: EventHandler,
    H2: EventHandler,

    requires
        c.first().succeeds_on(event),
    ensures
        c.record_of(event).len() == c.first().record_of(event).len()
            + c.second().record_of(event).len(),
        c.record_of(event).take(c.first().record_of(event).len() as int)
            == c.first().record_of(event),
        c.record_of(event).skip(c.first().record_of(event).len() as int)
            == c.second().record_of(event),
{
    let r1 = c.first().record_of(event);
    let r2 = c.second().record_of(event);
    assert((r1 + r2).take(r1.len() as int) =~= r1);
    assert((r1 + r2).skip(r1.len() as int) =~= r2);
}

/// Law: the per-invocation protocol agrees with the chain's own contract.
/// A protocol run fed the two handlers' outcomes for an event asks for the
/// second handler exactly when the chain would invoke it, and ends in
/// `DoneOk` exactly when the chain succeeds on that event. A driver that
/// awaits the handlers itself and takes every decision from
/// [`crate::protocol::chain_transition`] therefore reproduces the chain's
/// success and fail-fast behaviour.
pub proof fn lemma_protocol_agrees_with_chain<H1, H2>(
    c: &ChainHandler<H1, H2>,
    event: Event,
) where
    H1: EventHandler,
    H2: EventHandler,

    ensures
        chain_transition(ChainState::FirstRunning, c.first().succeeds_on(event)).1
            == ChainAction::InvokeSecond <==> c.first().succeeds_on(event),
        chain_transition(
            chain_transition(ChainState::FirstRunning, c.first().succeeds_on(event)).0,
            c.second().succeeds_on(event),
        ).0 == ChainState::DoneOk <==> c.succeeds_on(event),
{
}

/// Law (composability): a chain of chains applies its three leaves in order
/// with fail-fast short-circuiting. The nested chain succeeds on an event
/// exactly when all three handlers succeed on it, and its recorded call
/// order is the first handler's invocations, then the second's (only if the
/// first succeeded), then the third's (only if the first two succeeded).
pub proof fn lemma_chain_composes<A, B, C>(
    outer: &ChainHandler<ChainHandler<A, B>, C>,
    event: Event,
) where
    A: EventHandler,
    B: EventHandler,
    C: EventHandler,

    ensures
        outer.succeeds_on(event) <==> (outer.first().first().succeeds_on(event)
            && outer.first().second().succeeds_on(event) && outer.second().succeeds_on(event)),
        !outer.first().first().succeeds_on(event) ==> outer.record_of(event)
            == outer.first().first().record_of(event),
        outer.first().first().succeeds_on(event) && !outer.first().second().succeeds_on(event)
            ==> outer.record_of(event) == outer.first().first().record_of(event)
            + outer.first().second().record_of(event),
        outer.first().first().succeeds_on(event) && outer.first().second().succeeds_on(event)
            ==> outer.record_of(event) == outer.first().first().record_of(event)
            + outer.first().second().record_of(event) + outer.second().record_of(event),
{
}

} // verus!
