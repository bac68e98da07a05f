//! An event-handler chain combinator.
//!
//! The library models an event-processing pipeline's basic composition
//! primitive: [`chain_handler::ChainHandler`] wraps two event handlers and
//! presents them as one handler that invokes both against the same event, in
//! a fixed order, succeeding only if both succeed. Because the combinator
//! itself satisfies the same [`event_processor::EventHandler`] capability it
//! consumes, chains nest to any fixed depth.
//!
//! Handler invocations are observable: every handler appends to a shared
//! [`event_processor::CallRecord`] the moment it is invoked, so contracts can
//! state exactly which handlers ran, how often, and in what order.

pub mod chain_handler;
pub mod event_processor;
pub mod event_sub;
pub mod fixed_handler;
pub mod protocol;
