//! Gossip messages and the fields derived from them.
//!
//! A message carries plain values only: the identifiers and policy fields the
//! persister reads, plus the full signed wire payload as an opaque byte
//! sequence. Decoding and re-encoding of the wire protocol happen outside
//! this crate.

use vstd::prelude::*;

use crate::dec::dec_of;
use crate::dec::u64_dec;
use crate::hex::bytes_of_hex;
use crate::hex::hex_of;
use crate::hex::hex_str;
use crate::hex::is_lower_hex;
use crate::hex::lemma_hex_of_len;
use crate::hex::lemma_hex_of_lower;
use crate::hex::lemma_hex_round_trip;

verus! {

/// A decoded channel announcement: the fields the persister reads and the
/// canonical signed wire encoding of the whole message.
pub struct AnnouncementContents {
    pub short_channel_id: u64,
    pub chain_hash: [u8; 32],
    pub payload: Vec<u8>,
}

/// A decoded channel update: the fields the persister reads and the
/// canonical signed wire encoding of the whole message.
pub struct UpdateContents {
    pub short_channel_id: u64,
    pub chain_hash: [u8; 32],
    pub timestamp: u32,
    pub channel_flags: u8,
    pub cltv_expiry_delta: u16,
    pub htlc_minimum_msat: u64,
    pub fee_base_msat: u32,
    pub fee_proportional_millionths: u32,
    pub htlc_maximum_msat: u64,
    pub payload: Vec<u8>,
}

/// One unit of the gossip stream.
pub enum GossipMessage {
    /// Control marker: historical backfill is complete. Carries no data.
    SyncComplete,
    Announcement(AnnouncementContents),
    Update(UpdateContents),
}

/// Block height of a channel: the top 24 bits of its short channel id.
pub fn block_height(short_channel_id: u64) -> (h: u32)
    ensures
        h == short_channel_id >> 40,
{
    proof {
        assert(short_channel_id >> 40 <= 0xff_ffff) by (bit_vector);
    }
    (short_channel_id >> 40) as u32
}

/// The block height reads only the top 24 bits: any value of the lower 40
/// bits leaves it unchanged.
pub proof fn lemma_block_height_ignores_low_bits(x: u64, low: u64)
    requires
        low < 0x100_0000_0000u64,
    ensures
        (((x >> 40) << 40) | low) >> 40 == x >> 40,
{
    assert(low < 0x100_0000_0000u64 ==> (((x >> 40) << 40) | low) >> 40 == x >> 40)
        by (bit_vector);
}

/// The big-endian byte string of a 64-bit identifier.
pub open spec fn u64_be_bytes(x: u64) -> Seq<u8> {
    seq![
        ((x >> 56) & 0xff) as u8,
        ((x >> 48) & 0xff) as u8,
        ((x >> 40) & 0xff) as u8,
        ((x >> 32) & 0xff) as u8,
        ((x >> 24) & 0xff) as u8,
        ((x >> 16) & 0xff) as u8,
        ((x >> 8) & 0xff) as u8,
        (x & 0xff) as u8,
    ]
}

/// The big-endian bytes of a short channel id.
pub fn scid_be_bytes(x: u64) -> (r: Vec<u8>)
    ensures
        r@ == u64_be_bytes(x),
{
    proof {
        assert(((x >> 56) & 0xff) < 256 && ((x >> 48) & 0xff) < 256 && ((x >> 40) & 0xff) < 256
            && ((x >> 32) & 0xff) < 256 && ((x >> 24) & 0xff) < 256 && ((x >> 16) & 0xff) < 256
            && ((x >> 8) & 0xff) < 256 && (x & 0xff) < 256) by (bit_vector);
    }
    let mut r: Vec<u8> = Vec::new();
    r.push(((x >> 56) & 0xff) as u8);
    r.push(((x >> 48) & 0xff) as u8);
    r.push(((x >> 40) & 0xff) as u8);
    r.push(((x >> 32) & 0xff) as u8);
    r.push(((x >> 24) & 0xff) as u8);
    r.push(((x >> 16) & 0xff) as u8);
    r.push(((x >> 8) & 0xff) as u8);
    r.push((x & 0xff) as u8);
    proof {
        assert(r@ =~= u64_be_bytes(x));
    }
    r
}

/// The hex key of a short channel id is always 16 characters, all of them
/// lowercase hex digits, and decoding it recovers the 8 big-endian bytes
/// exactly.
pub proof fn lemma_scid_hex_shape(x: u64)
    ensures
        hex_of(u64_be_bytes(x)).len() == 16,
        forall|i: int| 0 <= i < 16 ==> is_lower_hex(#[trigger] hex_of(u64_be_bytes(x))[i]),
        bytes_of_hex(hex_of(u64_be_bytes(x))) == u64_be_bytes(x),
{
    lemma_hex_of_len(u64_be_bytes(x));
    lemma_hex_of_lower(u64_be_bytes(x));
    lemma_hex_round_trip(u64_be_bytes(x));
}

/// The hex key of a short channel id: its 8 big-endian bytes, lowercase hex.
pub fn scid_hex(x: u64) -> (r: String)
    ensures
        r@ == hex_of(u64_be_bytes(x)),
{
    let bytes = scid_be_bytes(x);
    hex_str(bytes.as_slice())
}

/// The direction bit of an update's channel flags.
pub fn direction(channel_flags: u8) -> (d: u8)
    ensures
        d == channel_flags & 1,
{
    channel_flags & 1
}

/// The disable bit of an update's channel flags.
pub fn disable(channel_flags: u8) -> (b: bool)
    ensures
        b == ((channel_flags & 2) != 0),
{
    (channel_flags & 2) != 0
}

/// The unique key of an update row: `scid_hex`, timestamp and direction,
/// joined by `':'`.
pub open spec fn composite_index_of(scid: u64, timestamp: u32, channel_flags: u8) -> Seq<char> {
    hex_of(u64_be_bytes(scid)) + seq![':'] + dec_of(timestamp as int) + seq![':'] + dec_of(
        (channel_flags & 1) as int,
    )
}

/// Build the composite index key for an update.
pub fn composite_index(scid: u64, timestamp: u32, channel_flags: u8) -> (r: String)
    ensures
        r@ == composite_index_of(scid, timestamp, channel_flags),
{
    let mut r = scid_hex(scid);
    r.append(":");
    let ts = u64_dec(timestamp as u64);
    r.append(ts.as_str());
    r.append(":");
    let d = u64_dec((channel_flags & 1) as u64);
    r.append(d.as_str());
    proof {
        reveal_strlit(":");
        assert(r@ =~= composite_index_of(scid, timestamp, channel_flags));
    }
    r
}

} // verus!
