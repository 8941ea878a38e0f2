//! Control-panel core for a loopback script executor.
//!
//! The library locates the executor's listening port within a fixed range,
//! tracks a live/dead connection state, and delivers script text and setting
//! commands over HTTP. All state transitions are verified; the HTTP calls
//! themselves are made through a small set of trusted wrappers.

use vstd::prelude::*;

mod net;
pub mod connection;
pub mod dispatch;
pub mod text;
pub mod history;
pub mod workspace;
pub mod flags;
pub mod autoexec;
pub mod tabs;
pub mod scripts;
pub mod logs;

verus! {

/// Loopback host every request is sent to.
pub const HOST: &'static str = "127.0.0.1";

/// Lowest port the executor may listen on.
pub const MIN_PORT: u16 = 6969;

/// Highest port the executor may listen on.
pub const MAX_PORT: u16 = 7069;

/// The port that follows `p` when the user advances the target port:
/// one above `p`, wrapping to `MIN_PORT` once `p` reaches `MAX_PORT`.
pub open spec fn spec_next_port(p: u16) -> u16 {
    if p >= MAX_PORT {
        MIN_PORT
    } else {
        (p + 1) as u16
    }
}

/// Advance a candidate port, wrapping from `MAX_PORT` back to `MIN_PORT`.
pub fn next_port(p: u16) -> (r: u16)
    ensures
        r == spec_next_port(p),
{
    if p >= MAX_PORT {
        MIN_PORT
    } else {
        p + 1
    }
}

} // verus!
