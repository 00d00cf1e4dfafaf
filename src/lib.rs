//! Request dispatch for a packet-based remote procedure call protocol.
//!
//! The library decides, frame by frame, what the dispatch path must do: look
//! the routing key up in an immutable endpoint registry, have the payload
//! decoded, run the handler under its execution mode and turn the outcome into
//! a reply frame or a protocol error frame. The surrounding program performs
//! each action (decoding, running handlers, sending) and reports back.

pub mod key;
pub mod wire;
pub mod registry;
pub mod dispatch;
pub mod guarantees;
pub mod fake;
