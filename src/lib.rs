//! The core of a driver for u-blox cellular modems driven over AT commands.
//!
//! - `lifecycle` and `runner` decide how the modem is brought from one
//!   operating stage to another; `state` holds what the tasks share.
//! - `stack` maps a pool of TCP sockets (`socket`) onto the modem's sockets,
//!   with host names resolved through `dns`.
//! - `broadcast` hands the modem's notifications (`urc`) to each reader in
//!   order; `frames` and `complete` read them from bytes, element by element
//!   of the grammar in `scan`.
//! - `command`, `ip`, `error` and `timing` are the shared vocabulary.
use vstd::prelude::*;

pub mod broadcast;
pub mod command;
pub mod complete;
pub mod dns;
pub mod error;
pub mod frames;
pub mod ip;
pub mod lifecycle;
pub mod network;
pub mod runner;
pub mod scan;
pub mod socket;
pub mod stack;
pub mod state;
pub mod timing;
pub mod urc;

verus! {

} // verus!
