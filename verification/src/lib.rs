//! Client-side codec and session logic for the binary control protocol spoken
//! by LEDENET-style Wi-Fi RGB(W) LED controllers.
//!
//! The codec builds checksummed command frames (query state, set color, set
//! power) and decodes the fixed fourteen-byte status reply. The session keeps
//! track of whether a transport connection has been established and decides,
//! for each operation, which frame to write and how to interpret what was
//! read; the transport itself (a TCP stream) lives outside this crate and
//! hands the session plain byte vectors.

pub mod codec;
pub mod session;
