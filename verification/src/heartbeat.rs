//! The heartbeat clock: the recorded instant of the last successful poll
//! cycle, and the rule that turns its age into a health verdict.

use vstd::prelude::*;

verus! {

/// Maximum acceptable age, in seconds, of the heartbeat before the service is
/// declared unhealthy over the socket channel (three poll intervals).
pub const HEALTHY_UPDATE_SECS: u64 = 180;

/// A heartbeat recorded at `last` is healthy when probed at `now` iff it is
/// newer than `threshold` seconds, or lies in the future (clock skew between
/// the probing and the recording process is tolerated rather than failed).
/// The boundary is exclusive: an age of exactly `threshold` is unhealthy.
pub open spec fn healthy_at(last: int, now: int, threshold: int) -> bool {
    now < last || now - last < threshold
}

/// The timestamp of the last successful poll cycle, in seconds since the
/// epoch. Starts at the epoch itself, so that before the first cycle the
/// recorded age is effectively infinite.
pub struct HeartbeatClock {
    secs: u64,
}

impl View for HeartbeatClock {
    type V = u64;

    closed spec fn view(&self) -> u64 {
        self.secs
    }
}

impl HeartbeatClock {
    /// A fresh clock, set to the epoch: no cycle has succeeded yet.
    pub fn new() -> (clock: HeartbeatClock)
        ensures
            clock@ == 0,
    {
        HeartbeatClock { secs: 0 }
    }

    /// Records that a poll cycle has just succeeded at `now_secs`.
    pub fn update(&mut self, now_secs: u64)
        ensures
            final(self)@ == now_secs,
    {
        self.secs = now_secs;
    }

    /// The currently recorded timestamp.
    pub fn snapshot(&self) -> (secs: u64)
        ensures
            secs == self@,
    {
        self.secs
    }
}

/// The failure the heartbeat subsystem surfaces to the process: whatever the
/// selected channel variant reported, passed through transparently.
#[derive(Clone, Copy, PartialEq, Eq, Structural, Debug)]
pub struct HealthError(pub crate::socket::HealthError);

/// Before the first update the clock still reads the epoch, so once the
/// probing clock has passed the threshold at all, the verdict is unhealthy.
pub proof fn lemma_fresh_clock_unhealthy(now: int, threshold: int)
    requires
        0 <= threshold <= now,
    ensures
        !healthy_at(0, now, threshold),
{
}

/// Immediately after an update the age is zero, which any positive threshold
/// accepts.
pub proof fn lemma_healthy_right_after_update(now: int, threshold: int)
    requires
        0 < threshold,
    ensures
        healthy_at(now, now, threshold),
{
}

/// For any elapsed time `t` since the last update, the verdict is healthy
/// exactly when `t` is still below the threshold; at `t == threshold` it is
/// already unhealthy.
pub proof fn lemma_healthy_iff_within_threshold(last: int, t: int, threshold: int)
    requires
        0 <= t,
    ensures
        healthy_at(last, last + t, threshold) <==> t < threshold,
        t == threshold ==> !healthy_at(last, last + t, threshold),
{
}

/// A recorded timestamp in the future relative to the probing clock is
/// healthy, whatever the magnitude of the skew and whatever the threshold.
pub proof fn lemma_future_timestamp_healthy(last: int, now: int, threshold: int)
    requires
        now < last,
    ensures
        healthy_at(last, now, threshold),
{
}

/// The update that is in force at probe time `t`: the latest entry of
/// `updates` that is not after `t`, or the epoch if none is.
pub open spec fn last_update_before(updates: Seq<int>, t: int) -> int
    decreases updates.len(),
{
    if updates.len() == 0 {
        0
    } else if updates.last() <= t {
        updates.last()
    } else {
        last_update_before(updates.drop_last(), t)
    }
}

/// Repeated updates extend the healthy window: along a non-decreasing run of
/// update times in which each next update lands before the previous one's
/// threshold expires, every probe between the first update and the expiry of
/// the last one sees a healthy verdict.
pub proof fn lemma_repeated_updates_stay_healthy(updates: Seq<int>, t: int, threshold: int)
    requires
        0 < threshold,
        updates.len() > 0,
        forall|i: int, j: int| 0 <= i < j < updates.len() ==> updates[i] <= updates[j],
        forall|i: int| 0 <= i < updates.len() - 1 ==> #[trigger] updates[i + 1] < updates[i] + threshold,
        updates[0] <= t < updates.last() + threshold,
    ensures
        healthy_at(last_update_before(updates, t), t, threshold),
    decreases updates.len(),
{
    if updates.last() <= t {
        // the latest update is in force and `t` is still inside its window
    } else {
        // `t` falls before the last update; the one in force is found in the
        // prefix, and the gap condition keeps `t` inside its window too
        let prefix = updates.drop_last();
        let k = updates.len() - 2;
        assert(updates[0] == prefix[0]);
        assert(prefix.last() == updates[k]);
        assert(updates[k + 1] < updates[k] + threshold);
        assert(updates.last() == updates[k + 1]);
        lemma_repeated_updates_stay_healthy(prefix, t, threshold);
    }
}

} // verus!
