//! Session management and command dispatch for a WebSocket gateway.
//!
//! A connection becomes a [`socket::Session`]: an identity, a last-activity
//! time and a bounded outbound queue. Inbound frames are turned into plans by
//! [`socket::plan_frame`], commands are routed by
//! [`processor::CommandDispatcher`], and responses are laid out on the wire by
//! [`message::SocketResponse::as_json`].

pub mod message;
pub mod processor;
pub mod socket;
pub mod utils;
