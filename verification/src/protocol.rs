//! The wire framing of a heartbeat reply: the recorded timestamp as an
//! unsigned 64-bit count of seconds since the epoch, in exactly eight bytes.
//!
//! The byte order is pinned to little-endian so that a prober and a server on
//! different architectures agree on the framing.

use vstd::bytes::lemma_auto_spec_u64_to_from_le_bytes;
use vstd::bytes::spec_u64_from_le_bytes;
use vstd::bytes::spec_u64_to_le_bytes;
use vstd::bytes::u64_from_le_bytes;
use vstd::bytes::u64_to_le_bytes;
use vstd::prelude::*;

verus! {

/// Length in bytes of a heartbeat reply on the wire.
pub const REPLY_LEN: usize = 8;

/// Frames a heartbeat timestamp as the eight-byte reply the server writes.
pub fn encode_reply(secs: u64) -> (reply: Vec<u8>)
    ensures
        reply@ == spec_u64_to_le_bytes(secs),
        reply@.len() == REPLY_LEN,
{
    u64_to_le_bytes(secs)
}

/// Reads the heartbeat timestamp back out of a full eight-byte reply.
pub fn decode_reply(reply: &[u8]) -> (secs: u64)
    requires
        reply@.len() == REPLY_LEN,
    ensures
        secs == spec_u64_from_le_bytes(reply@),
{
    u64_from_le_bytes(reply)
}

/// A timestamp framed by the server is read back unchanged by the prober.
pub proof fn lemma_reply_round_trip(secs: u64)
    ensures
        spec_u64_to_le_bytes(secs).len() == REPLY_LEN,
        spec_u64_from_le_bytes(spec_u64_to_le_bytes(secs)) == secs,
{
    lemma_auto_spec_u64_to_from_le_bytes();
}

} // verus!
