//! Decision logic of a tunnel agent: the handshake requests it sends, the
//! upgrade negotiation, the duplex pump's reader and writer loops, and the
//! lifecycle controller that ties them together.
//!
//! Everything here is a function from plain values to plain values. The
//! caller performs the network calls, the reads and writes on the stream and
//! the waiting, and reports each outcome back as an event.

pub mod agent;
pub mod duplex;
pub mod error;
pub mod handshake;
pub mod keepalive;
pub mod pump;
pub mod trace;
pub mod upgrade;
