//! The socket-based heartbeat channel: what the serve loop does with each
//! read outcome, what it writes back, and how the one-shot prober turns a
//! reply into a health verdict.
//!
//! The sockets themselves live outside the library; it is handed the plain
//! outcome of each I/O step and answers with the next action or the verdict.

use crate::heartbeat::healthy_at;
use crate::heartbeat::HeartbeatClock;
use crate::heartbeat::HEALTHY_UPDATE_SECS;
use crate::protocol::decode_reply;
use crate::protocol::encode_reply;
use crate::protocol::lemma_reply_round_trip;
use crate::protocol::REPLY_LEN;
use vstd::bytes::spec_u64_from_le_bytes;
use vstd::bytes::spec_u64_to_le_bytes;
use vstd::prelude::*;

verus! {

/// Failure conditions of the socket-based heartbeat channel.
#[derive(Clone, Copy, PartialEq, Eq, Structural, Debug)]
pub enum HealthError {
    /// The listening endpoint could not be created, or a new connection could
    /// not be accepted. Fatal: the server cannot continue.
    Create,
    /// The prober could not connect to the endpoint.
    ConnectSocket,
    /// Waiting for the socket to become readable or writable failed.
    SocketReady,
    /// Reading from an established connection failed.
    ReadSocket,
    /// Writing the reply to an established connection failed.
    WriteSocket,
}

/// The outcome of the server's attempt to read the one-byte query from an
/// accepted connection.
#[derive(Clone, Copy, PartialEq, Eq, Structural, Debug)]
pub enum ReadEvent {
    /// The peer closed without sending anything: normal traffic, not an error.
    Closed,
    /// No data was available yet: normal traffic, not an error.
    NotReady,
    /// A query byte arrived; its value does not matter, its presence is the
    /// signal.
    Ping,
    /// The read itself failed.
    Failed,
}

/// What the serve loop does next after one read outcome.
#[derive(Clone, Copy, PartialEq, Eq, Structural, Debug)]
pub enum ServerStep {
    /// Abandon this connection and accept the next one.
    AwaitNext,
    /// Write the heartbeat reply to this connection, then accept the next one.
    SendReply,
    /// Report the per-connection failure and keep accepting; a single bad
    /// connection does not bring the server down.
    LogAndContinue,
}

/// The serve loop's reaction to each read outcome. Only an accept failure is
/// fatal, and that never reaches this decision.
pub open spec fn server_step_spec(event: ReadEvent) -> ServerStep {
    match event {
        ReadEvent::Closed => ServerStep::AwaitNext,
        ReadEvent::NotReady => ServerStep::AwaitNext,
        ReadEvent::Ping => ServerStep::SendReply,
        ReadEvent::Failed => ServerStep::LogAndContinue,
    }
}

/// Decides the serve loop's next action from the outcome of one read.
pub fn handle_read_event(event: &ReadEvent) -> (step: ServerStep)
    ensures
        step == server_step_spec(*event),
{
    match event {
        ReadEvent::Closed => ServerStep::AwaitNext,
        ReadEvent::NotReady => ServerStep::AwaitNext,
        ReadEvent::Ping => ServerStep::SendReply,
        ReadEvent::Failed => ServerStep::LogAndContinue,
    }
}

/// The reply the server writes for a query: the clock's current snapshot on
/// the wire.
pub fn reply_for(clock: &HeartbeatClock) -> (reply: Vec<u8>)
    ensures
        reply@ == spec_u64_to_le_bytes(clock@),
        reply@.len() == REPLY_LEN,
{
    encode_reply(clock.snapshot())
}

/// How the prober's single query went: either some I/O step on the way
/// failed (connect, ready-wait, read or write), or a reply was read.
#[derive(Debug)]
pub enum ProbeOutcome {
    /// Connecting, writing the ping, or reading the reply failed.
    Failed,
    /// A reply was read; it may be shorter than a full frame.
    Reply(Vec<u8>),
}

/// A raw reply is healthy iff it is a full frame whose decoded timestamp is
/// still within the threshold of `now` (or ahead of it).
pub open spec fn reply_healthy_spec(reply: Seq<u8>, now: int) -> bool {
    reply.len() == REPLY_LEN && healthy_at(
        spec_u64_from_le_bytes(reply) as int,
        now,
        HEALTHY_UPDATE_SECS as int,
    )
}

/// The verdict over one query: an I/O failure or a short reply is unhealthy;
/// a full frame is judged by the age of its timestamp.
pub open spec fn probe_healthy_spec(outcome: ProbeOutcome, now: int) -> bool {
    match outcome {
        ProbeOutcome::Failed => false,
        ProbeOutcome::Reply(reply) => reply_healthy_spec(reply@, now),
    }
}

/// Turns the outcome of one probe query into the binary health verdict,
/// given the prober's own clock reading.
pub fn probe_verdict(outcome: &ProbeOutcome, now_secs: u64) -> (healthy: bool)
    ensures
        healthy == probe_healthy_spec(*outcome, now_secs as int),
{
    match outcome {
        ProbeOutcome::Failed => false,
        ProbeOutcome::Reply(reply) => {
            if reply.len() != REPLY_LEN {
                // fewer than eight bytes is a malformed reply
                false
            } else {
                let last = decode_reply(reply.as_slice());
                if now_secs < last {
                    // the recorded time is ahead of the prober's clock;
                    // tolerate the skew rather than falsely fail
                    true
                } else {
                    now_secs - last < HEALTHY_UPDATE_SECS
                }
            }
        },
    }
}

/// A reply framed from the recorded timestamp `last` probes healthy exactly
/// when `last` itself is healthy at `now`: the wire framing neither loses nor
/// invents health.
pub proof fn lemma_probe_reads_server_reply(last: u64, now: int)
    ensures
        reply_healthy_spec(spec_u64_to_le_bytes(last), now) == healthy_at(
            last as int,
            now,
            HEALTHY_UPDATE_SECS as int,
        ),
{
    lemma_reply_round_trip(last);
}

/// Before any update the server still replies with the epoch, so a prober
/// whose clock has passed the threshold at all reports unhealthy.
pub proof fn lemma_probe_unhealthy_before_first_update(now: u64)
    requires
        HEALTHY_UPDATE_SECS <= now,
    ensures
        !reply_healthy_spec(spec_u64_to_le_bytes(0), now as int),
{
    lemma_reply_round_trip(0);
}

/// Immediately after an update the server's reply carries the prober's own
/// present, and the verdict is healthy.
pub proof fn lemma_probe_healthy_after_update(now: u64)
    ensures
        reply_healthy_spec(spec_u64_to_le_bytes(now), now as int),
{
    lemma_reply_round_trip(now);
}

} // verus!
