//! The client side of HTTP/3 as decisions: what a request must be, how its
//! stream, its body and its tunnel are driven, and when a connection ends.
//! Every decision takes and returns plain values; sockets, tasks and timers
//! stay with the caller.

pub mod body;
pub mod bounds;
pub mod buf;
pub mod client;
pub mod compat;
pub mod conn;
pub mod dispatch;
pub mod driver;
pub mod error;
pub mod exchange;
pub mod fields;
pub mod headers;
pub mod permits;
pub mod shared;
pub mod text;
pub mod transport;
pub mod tunnel_io;
pub mod tunnel_recv;
pub mod tunnel_send;
pub mod upgrade;
pub mod upload;
