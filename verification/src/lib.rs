//! Aloha: the verified core of a terminal chat room.
//!
//! The wire protocol, the room's membership and the decisions that the
//! server's and the client's loops take are stated and proved here; the
//! sockets, threads and terminal are driven by the program around it.

pub mod frame;
pub mod text;
pub mod room;
pub mod error;
pub mod session;
pub mod client;
