//! Core of an HTTP/2 protocol engine: the connection state machine, the
//! stream lifecycle, frame dispatch, and flow control, verified with Verus.

pub mod buffer;
pub mod codec;
pub mod connection;
pub mod control;
pub mod default;
pub mod dispatcher;
pub mod error;
pub mod flow;
pub mod frame;
pub mod header;
pub mod message;
pub mod stream;
