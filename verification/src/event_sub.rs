use vstd::prelude::*;

verus! {

/// An occurrence delivered to event handlers: a block-boundary marker tagged
/// by the height at which it occurred. Handlers receive events by immutable
/// reference and never change them; the chain combinator passes the same
/// event to both of its handlers without interpreting it.
#[derive(Clone, Copy, PartialEq, Eq, Structural, Debug)]
pub enum Event {
    /// A new block has begun at the given height.
    BlockBegin(u64),
    /// The block at the given height has ended.
    BlockEnd(u64),
}

} // verus!
