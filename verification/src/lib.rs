//! The decision core of a small forward proxy: which hosts a request may
//! reach, what a refused client is told, and where an accepted request goes.
//!
//! Sockets, the HTTP framing and the byte relay live with the caller; this
//! crate takes the parts of a request as plain values and answers with plain
//! values.

pub mod addon;
pub mod proxy;
pub mod response;
