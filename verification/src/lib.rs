//! Verified core of a transparent TCP relay.
//!
//! The relay accepts inbound connections, dials a fixed destination for each
//! one, and copies bytes in both directions until either side closes or
//! errors. This crate holds the decision logic of that service as a verified
//! state machine: what a directional pump does with each read and write
//! outcome, how a connection pair is torn down exactly once, and what the
//! acceptor does when a dial succeeds or fails. The surrounding process
//! performs the actual socket operations and feeds their outcomes back in as
//! events.

pub mod chunk;
pub mod pump;
pub mod relay;
pub mod acceptor;
