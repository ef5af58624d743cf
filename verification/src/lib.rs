//! Client-side logic for ZKTeco time-and-attendance terminals.
//!
//! The crate holds the wire codec, the TCP and UDP session state machines,
//! the high-level client and the command policies. It performs no I/O of its
//! own: every operation is a state machine that hands out the next action to
//! perform and is resumed with the outcome of that action.

pub mod protocol;
pub mod text;
pub mod time;
pub mod session;
pub mod step;
pub mod transfer;
pub mod tcp;
pub mod udp;
pub mod types;
pub mod client;
pub mod commands;
