use crate::event_processor::{CallRecord, EventHandler};
use crate::event_sub::Event;
use vstd::prelude::*;

verus! {

/// The failure a [`FixedHandler`] reports when it is built to fail.
#[derive(Clone, Copy, PartialEq, Eq, Structural, Debug)]
pub enum FixedHandlerError {
    /// The handler was built to fail; no further cause is known.
    Unknown,
}

/// A leaf handler with a fixed outcome: it records its invocation under its
/// identifier and then succeeds or fails according to the flag it was built
/// with, the same for every event. It stands in for business-logic handlers
/// when wiring or exercising chains.
pub struct FixedHandler {
    id: u64,
    succeeds: bool,
}

impl FixedHandler {
    /// The identifier under which this handler's invocations are recorded.
    pub closed spec fn spec_id(&self) -> u64 {
        self.id
    }

    /// Whether this handler succeeds.
    pub closed spec fn spec_succeeds(&self) -> bool {
        self.succeeds
    }

    /// A handler that records itself under `id` and always returns the same
    /// outcome: success if `succeeds` is true, `Unknown` failure otherwise.
    pub fn new(id: u64, succeeds: bool) -> (r: FixedHandler)
        ensures
            r.spec_id() == id,
            r.spec_succeeds() == succeeds,
    {
        FixedHandler { id, succeeds }
    }
}

impl EventHandler for FixedHandler {
    type Err = FixedHandlerError;

    open spec fn succeeds_on(&self, event: Event) -> bool {
        self.spec_succeeds()
    }

    open spec fn record_of(&self, event: Event) -> Seq<(u64, Event)> {
        seq![(self.spec_id(), event)]
    }

    fn handle(&self, event: &Event, rec: &mut CallRecord) -> (r: Result<(), FixedHandlerError>) {
        rec.record(self.id, *event);
        if self.succeeds {
            Ok(())
        } else {
            Err(FixedHandlerError::Unknown)
        }
    }
}

} // verus!
