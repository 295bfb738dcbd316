//! The wire record that crosses from the packet path to the
//! collector, and its byte-packed encoding.
//!
//! The layout is the compatibility contract between the two sides of
//! that boundary: field order `src(16B) dst(16B) src_port(2B)
//! dst_port(2B) l3_protocol(1B) action(4B) is_ipv4(1B)`, each field
//! little-endian, 42 bytes in all, with no alignment padding. Both
//! address fields are 16 bytes wide; an IPv4 address occupies the low
//! 32 bits with the high bits zero, and `is_ipv4` tells the families
//! apart. Decoding reads every field independently at its offset and
//! never assumes natural alignment.

use vstd::bytes::{
    lemma_auto_spec_u128_to_from_le_bytes, lemma_auto_spec_u16_to_from_le_bytes,
    lemma_auto_spec_u32_to_from_le_bytes, spec_u128_from_le_bytes, spec_u128_to_le_bytes,
    spec_u16_from_le_bytes, spec_u16_to_le_bytes, spec_u32_from_le_bytes, spec_u32_to_le_bytes,
    u128_from_le_bytes, u128_to_le_bytes, u16_from_le_bytes, u16_to_le_bytes, u32_from_le_bytes,
    u32_to_le_bytes,
};
use vstd::prelude::*;
use vstd::slice::slice_subrange;

verus! {

/// Size in bytes of one encoded [`PacketLog`].
pub const PACKET_LOG_BYTES: usize = 42;

/// One examined frame's record: the decoded identifying fields plus
/// the decision taken, in the form that crosses the kernel/user
/// boundary.
#[derive(Clone, Copy, Debug, PartialEq, Eq, Structural)]
pub struct PacketLog {
    pub src: u128,
    pub dst: u128,
    pub src_port: u16,
    pub dst_port: u16,
    pub l3_protocol: u8,
    pub action: u32,
    pub is_ipv4: bool,
}

/// The raw bytes of one record as drained from a per-CPU channel
/// slot, before field-wise decoding.
pub struct PacketLogWrapper {
    pub data: Vec<u8>,
}

/// The encoded form of a record: every field at its fixed offset,
/// little-endian, with the family flag as one trailing byte.
pub open spec fn spec_encode_packet_log(rec: PacketLog) -> Seq<u8> {
    spec_u128_to_le_bytes(rec.src) + spec_u128_to_le_bytes(rec.dst) + spec_u16_to_le_bytes(
        rec.src_port,
    ) + spec_u16_to_le_bytes(rec.dst_port) + seq![rec.l3_protocol] + spec_u32_to_le_bytes(
        rec.action,
    ) + seq![
        if rec.is_ipv4 {
            1u8
        } else {
            0u8
        },
    ]
}

/// The record held in a byte buffer, if the buffer carries one: the
/// buffer must cover the 42 record bytes and the family flag must be
/// a valid boolean byte; bytes past the record are ignored, as the
/// channel hands out fixed-size slots larger than the record.
pub open spec fn spec_decode_packet_log(buf: Seq<u8>) -> Option<PacketLog> {
    if buf.len() < PACKET_LOG_BYTES {
        None
    } else if buf[41] != 0 && buf[41] != 1 {
        None
    } else {
        Some(
            PacketLog {
                src: spec_u128_from_le_bytes(buf.subrange(0, 16)),
                dst: spec_u128_from_le_bytes(buf.subrange(16, 32)),
                src_port: spec_u16_from_le_bytes(buf.subrange(32, 34)),
                dst_port: spec_u16_from_le_bytes(buf.subrange(34, 36)),
                l3_protocol: buf[36],
                action: spec_u32_from_le_bytes(buf.subrange(37, 41)),
                is_ipv4: buf[41] == 1,
            },
        )
    }
}

impl PacketLog {
    /// Packs the record into its 42-byte wire form.
    pub fn encode(&self) -> (out: Vec<u8>)
        ensures
            out@ == spec_encode_packet_log(*self),
            out@.len() == PACKET_LOG_BYTES,
    {
        proof {
            lemma_auto_spec_u128_to_from_le_bytes();
            lemma_auto_spec_u16_to_from_le_bytes();
            lemma_auto_spec_u32_to_from_le_bytes();
        }
        let mut out = u128_to_le_bytes(self.src);
        let mut dst = u128_to_le_bytes(self.dst);
        let mut src_port = u16_to_le_bytes(self.src_port);
        let mut dst_port = u16_to_le_bytes(self.dst_port);
        let mut action = u32_to_le_bytes(self.action);
        out.append(&mut dst);
        out.append(&mut src_port);
        out.append(&mut dst_port);
        out.push(self.l3_protocol);
        out.append(&mut action);
        out.push(if self.is_ipv4 { 1u8 } else { 0u8 });
        proof {
            assert(out@ =~= spec_encode_packet_log(*self));
        }
        out
    }

    /// Unpacks a record from a channel buffer, reading each field
    /// independently at its offset; a buffer too short for the
    /// record, or one whose family flag is not a boolean byte, is
    /// malformed and yields nothing.
    pub fn decode(buf: &[u8]) -> (r: Option<PacketLog>)
        ensures
            r == spec_decode_packet_log(buf@),
    {
        if buf.len() < PACKET_LOG_BYTES {
            return None;
        }
        let flag = buf[41];
        if flag != 0 && flag != 1 {
            return None;
        }
        let rec = PacketLog {
            src: u128_from_le_bytes(slice_subrange(buf, 0, 16)),
            dst: u128_from_le_bytes(slice_subrange(buf, 16, 32)),
            src_port: u16_from_le_bytes(slice_subrange(buf, 32, 34)),
            dst_port: u16_from_le_bytes(slice_subrange(buf, 34, 36)),
            l3_protocol: buf[36],
            action: u32_from_le_bytes(slice_subrange(buf, 37, 41)),
            is_ipv4: flag == 1,
        };
        Some(rec)
    }
}

impl PacketLogWrapper {
    /// Decodes the wrapped channel bytes as one record.
    pub fn decode(&self) -> (r: Option<PacketLog>)
        ensures
            r == spec_decode_packet_log(self.data@),
    {
        PacketLog::decode(self.data.as_slice())
    }
}

/// Decoding inverts encoding: a record packed into its wire form and
/// unpacked again comes back unchanged.
pub proof fn lemma_packet_log_round_trip(rec: PacketLog)
    ensures
        spec_decode_packet_log(spec_encode_packet_log(rec)) == Some(rec),
{
    lemma_auto_spec_u128_to_from_le_bytes();
    lemma_auto_spec_u16_to_from_le_bytes();
    lemma_auto_spec_u32_to_from_le_bytes();
    let enc = spec_encode_packet_log(rec);
    assert(enc.subrange(0, 16) =~= spec_u128_to_le_bytes(rec.src));
    assert(enc.subrange(16, 32) =~= spec_u128_to_le_bytes(rec.dst));
    assert(enc.subrange(32, 34) =~= spec_u16_to_le_bytes(rec.src_port));
    assert(enc.subrange(34, 36) =~= spec_u16_to_le_bytes(rec.dst_port));
    assert(enc.subrange(37, 41) =~= spec_u32_to_le_bytes(rec.action));
}

} // verus!
