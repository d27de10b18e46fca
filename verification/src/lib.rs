//! Liveness heartbeat subsystem for a periodic collector, with an
//! edge-triggered alert state machine.
//!
//! The library holds the decision logic: when a recorded heartbeat counts as
//! healthy, how the heartbeat reply is framed on the wire, how the serve loop
//! reacts to each read outcome, and whether a cycle's error batch warrants a
//! notification. The surrounding process (sockets, files, timers, the
//! notification channel) supplies plain values and performs the actions.

pub mod alert;
pub mod file_health;
pub mod heartbeat;
pub mod protocol;
pub mod socket;

use vstd::prelude::*;

verus! {

/// Process exit flag for a healthy verdict.
pub const HEALTHY: u8 = 0;

/// Process exit flag for an unhealthy verdict.
pub const UNHEALTHY: u8 = 1;

/// Maps a health verdict to the process exit flag reported to the supervisor.
pub fn verdict_code(healthy: bool) -> (c: u8)
    ensures
        c == if healthy { HEALTHY } else { UNHEALTHY },
{
    if healthy { HEALTHY } else { UNHEALTHY }
}

} // verus!
