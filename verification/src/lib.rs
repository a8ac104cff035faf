//! A small Redis server library: the RESP frame model, command parsing and
//! encoding, replies, and the server's configuration.

pub mod clients;
pub mod cmd;
pub mod config;
pub mod error;
pub mod frame;
pub mod parse;
pub mod startup;
pub mod text;
pub mod util;

use vstd::prelude::*;

verus! {

/// The port the server listens on when none is given.
pub const DEFAULT_PORT: u16 = 6379;

} // verus!
