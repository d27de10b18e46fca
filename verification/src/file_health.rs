//! The file-based heartbeat channel, the fallback where sockets are not
//! available: a marker file whose modification timestamp is the heartbeat.
//!
//! The filesystem work — resolving the directory, creating and touching the
//! marker, reading its metadata — happens outside the library, which is
//! handed its plain outcome and answers with the verdict.

use crate::heartbeat::healthy_at;
use vstd::prelude::*;

verus! {

/// Maximum acceptable age, in seconds, of the marker file's modification
/// timestamp before the service is declared unhealthy (five minutes).
pub const FILE_HEALTHY_UPDATE_SECS: u64 = 300;

/// Failure conditions of the file-based heartbeat channel.
#[derive(Clone, Copy, PartialEq, Eq, Structural, Debug)]
pub enum HealthError {
    /// No location for the health directory could be resolved: neither a
    /// platform-local data directory nor the working directory. Fatal at
    /// startup.
    NoLocation,
    /// The health directory could not be created. Fatal at startup.
    CreateDir,
    /// The marker file could not be created. Fatal at startup.
    CreateFile,
    /// `touch` was called before `create`: the channel is uninitialized.
    Unset,
    /// The marker file could not be opened.
    Open,
    /// The marker file's modification time could not be set.
    Touch,
    /// The marker file's metadata could not be queried.
    QueryMetadata,
    /// The marker file's modification timestamp was not available.
    ModifiedNotAvailable,
}

/// The verdict over what the filesystem reported: any failure on the way to
/// the modification timestamp is unhealthy; a timestamp is judged by its age,
/// with a future timestamp tolerated as clock skew.
pub open spec fn file_verdict_spec(modified: Result<u64, HealthError>, now: int) -> bool {
    match modified {
        Ok(m) => healthy_at(m as int, now, FILE_HEALTHY_UPDATE_SECS as int),
        Err(_) => false,
    }
}

/// Turns the outcome of reading the marker file's modification timestamp
/// into the binary health verdict, given the prober's own clock reading.
pub fn check_verdict(modified: &Result<u64, HealthError>, now_secs: u64) -> (healthy: bool)
    ensures
        healthy == file_verdict_spec(*modified, now_secs as int),
{
    match modified {
        Ok(m) => {
            if now_secs < *m {
                // the marker was touched ahead of the prober's clock;
                // tolerate the skew rather than falsely fail
                true
            } else {
                now_secs - *m < FILE_HEALTHY_UPDATE_SECS
            }
        },
        Err(_) => false,
    }
}

/// Guards a `touch` of the marker file: touching before `create` has run is
/// the uninitialized-state error, and nothing else is.
pub fn touch_gate(initialized: bool) -> (r: Result<(), HealthError>)
    ensures
        initialized ==> (r matches Ok(())),
        !initialized ==> (r matches Err(HealthError::Unset)),
{
    if initialized {
        Ok(())
    } else {
        Err(HealthError::Unset)
    }
}

} // verus!
