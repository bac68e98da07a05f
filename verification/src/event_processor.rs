use crate::event_sub::Event;
use vstd::prelude::*;

verus! {

/// A log of handler invocations: which handler (by identifier) was invoked
/// with which event, oldest first. The record is the observable call order:
/// a leaf handler appends its entry the moment it is invoked, so the order of
/// entries is the order in which invocations began.
pub struct CallRecord {
    calls: Vec<(u64, Event)>,
}

impl CallRecord {
    /// The recorded invocations, oldest first.
    pub closed spec fn entries(&self) -> Seq<(u64, Event)> {
        self.calls@
    }

    /// A record with no invocations yet.
    pub fn new() -> (r: CallRecord)
        ensures
            r.entries() == Seq::<(u64, Event)>::empty(),
    {
        CallRecord { calls: Vec::new() }
    }

    /// Append one invocation: handler `id` was invoked with `event`.
    pub fn record(&mut self, id: u64, event: Event)
        ensures
            final(self).entries() == old(self).entries().push((id, event)),
    {
        self.calls.push((id, event));
    }

    /// The recorded invocations as a vector, oldest first.
    pub fn calls(&self) -> (r: &Vec<(u64, Event)>)
        ensures
            r@ == self.entries(),
    {
        &self.calls
    }
}

/// The event-handler capability: react to one event and report success or a
/// handler-specific failure.
///
/// Each implementation describes itself with two spec functions:
/// `succeeds_on` says on which events its `handle` succeeds, and `record_of`
/// says which invocations one `handle` call appends to the call record. A
/// leaf handler appends exactly one entry of its own; a combinator appends
/// the entries of the handlers it invokes, in invocation order, and none of
/// its own.
pub trait EventHandler: Sized {
    /// The handler-specific failure kind.
    type Err;

    /// Whether `handle` succeeds on the given event.
    spec fn succeeds_on(&self, event: Event) -> bool;

    /// The invocations one `handle` call on the given event appends to the
    /// call record, in the order in which they begin.
    spec fn record_of(&self, event: Event) -> Seq<(u64, Event)>;

    /// React to `event`, appending exactly this handler's invocations for
    /// `event` to `rec`, and succeed or fail as `succeeds_on` says.
    fn handle(&self, event: &Event, rec: &mut CallRecord) -> (r: Result<(), Self::Err>)
        ensures
            final(rec).entries() == old(rec).entries() + self.record_of(*event),
            r is Ok <==> self.succeeds_on(*event),
    ;
}

} // verus!
