//! Command-execution core of a chat-automation agent.
//!
//! Given an action name, an argument list and the channel it was invoked
//! from, [`dispatch::ActionHandler`] selects a handler and drives it as a
//! small state machine: each [`dispatch::Step`] either finishes with an
//! [`dispatch::ActionResult`], asks the host to perform one port
//! operation (persistence, an external API), or asks the host to wait out
//! a delay.  Outbound chat traffic is returned alongside each step, in
//! order.  The host loop that performs the port calls, the delays and the
//! actual channel sends lives outside this crate; everything the core
//! decides is specified in [`model`] and verified against it, and the
//! timed-moderation protocol's properties are proved in [`laws`].

pub mod dispatch;
pub mod laws;
pub mod model;
pub mod text;

pub use dispatch::{Action, ActionHandler, ActionResult, NextOp, OutboundMessage, PendingState,
    PortEvent, PortRequest, Step};
pub use model::ErrorKind;
