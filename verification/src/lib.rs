//! A counter shared by every WebSocket channel of one process.
//!
//! The process owns one [`State`]: a signed 32-bit counter and the set of
//! channels that are open. Clients send a command on any channel and get the
//! counter back on that channel. The handlers of this crate decide what a
//! message does to the state and what is to be sent; receiving and sending is
//! left to the caller.

pub mod command;
pub mod envelope;
pub mod handlers;
pub mod json;
pub mod laws;
pub mod state;

pub use command::{CounterMessage, CounterResponse};
pub use envelope::{InboundEvent, InboundMessage, ServerRequest};
pub use handlers::{
    answer_path, handle_http_request, handle_message, handle_request, handle_ws_message, route,
    Action, HandlerError, Reply,
};
pub use state::State;
