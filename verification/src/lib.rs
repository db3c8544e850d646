//! Decision core of an interactive client for a request/response protocol
//! with server-pushed notifications.
//!
//! The crate holds the parts of such a client that decide something:
//!
//! - [`connect`]: the session loop as a state machine. It is handed the
//!   events of the notification queue and of the line queue and answers
//!   with what to render and what to do next.
//! - [`input`]: the line source as a state machine. It is handed what each
//!   read of the terminal gave and says what goes on the line queue and
//!   when the next prompt may be shown.
//! - [`calltool`] and [`args`]: the resolution of a tool call's arguments
//!   from exactly one of three sources.
//! - [`mcp`]: the command dispatcher, which turns a parsed command into
//!   the one request that carries it out.
//! - [`protocol`]: plain models of the protocol data that is rendered or
//!   decided on, and the rendering of notifications.
//! - [`script`]: sessions run over prepared queues, and [`laws`]: what
//!   holds of every such run.
//!
//! Reading the terminal, talking to the endpoint and printing are left to
//! the caller, which feeds events in and carries the returned actions out.

pub mod args;
pub mod calltool;
pub mod connect;
pub mod error;
pub mod input;
pub mod json;
pub mod laws;
pub mod mcp;
pub mod protocol;
pub mod script;
pub mod text;
