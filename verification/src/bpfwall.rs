//! Shared types of the earlier, log-only revision of the classifier:
//! an IPv4-only wire record, its IPv6 counterpart, and the protocol
//! names it printed. Superseded by the two-family record in
//! [`crate::packet_log`], but still part of the shared vocabulary.

use vstd::bytes::{
    lemma_auto_spec_u16_to_from_le_bytes, lemma_auto_spec_u32_to_from_le_bytes,
    spec_u16_from_le_bytes, spec_u16_to_le_bytes, spec_u32_from_le_bytes, spec_u32_to_le_bytes,
    u16_from_le_bytes, u16_to_le_bytes, u32_from_le_bytes, u32_to_le_bytes,
};
use vstd::prelude::*;
use vstd::slice::slice_subrange;

use crate::protocol::{TCP_PROTOCOL, UDP_PROTOCOL};

verus! {

/// Size in bytes of one encoded [`IPv4PacketLog`].
pub const IPV4_PACKET_LOG_BYTES: usize = 17;

/// Wire record of the earlier revision: one examined IPv4 frame.
/// Byte-packed on the wire; see [`IPv4PacketLog::encode`].
#[derive(Clone, Copy, Debug, PartialEq, Eq, Structural)]
pub struct IPv4PacketLog {
    pub src: u32,
    pub dst: u32,
    pub src_port: u16,
    pub dst_port: u16,
    pub l3_protocol: u8,
    pub action: u32,
}

/// IPv6 counterpart of [`IPv4PacketLog`] in the earlier revision,
/// which kept only 64 bits of each address.
#[derive(Clone, Copy, Debug, PartialEq, Eq, Structural)]
pub struct IPv6PacketLog {
    pub src: u64,
    pub dst: u64,
    pub src_port: u16,
    pub dst_port: u16,
    pub action: u32,
}

/// Either wire record of the earlier revision.
#[derive(Clone, Copy, Debug, PartialEq, Eq, Structural)]
pub enum PacketLog {
    V4(IPv4PacketLog),
    V6(IPv6PacketLog),
}

/// The byte-packed form of the earlier revision's record: field order
/// `src(4B) dst(4B) src_port(2B) dst_port(2B) l3_protocol(1B)
/// action(4B)`, each field little-endian, 17 bytes, no padding.
pub open spec fn spec_encode_ipv4_packet_log(rec: IPv4PacketLog) -> Seq<u8> {
    spec_u32_to_le_bytes(rec.src) + spec_u32_to_le_bytes(rec.dst) + spec_u16_to_le_bytes(
        rec.src_port,
    ) + spec_u16_to_le_bytes(rec.dst_port) + seq![rec.l3_protocol] + spec_u32_to_le_bytes(
        rec.action,
    )
}

/// The record held in a channel buffer of the earlier revision, if
/// the buffer covers one; bytes past the record are ignored.
pub open spec fn spec_decode_ipv4_packet_log(buf: Seq<u8>) -> Option<IPv4PacketLog> {
    if buf.len() < IPV4_PACKET_LOG_BYTES {
        None
    } else {
        Some(
            IPv4PacketLog {
                src: spec_u32_from_le_bytes(buf.subrange(0, 4)),
                dst: spec_u32_from_le_bytes(buf.subrange(4, 8)),
                src_port: spec_u16_from_le_bytes(buf.subrange(8, 10)),
                dst_port: spec_u16_from_le_bytes(buf.subrange(10, 12)),
                l3_protocol: buf[12],
                action: spec_u32_from_le_bytes(buf.subrange(13, 17)),
            },
        )
    }
}

impl IPv4PacketLog {
    /// Packs the record into its 17-byte wire form.
    pub fn encode(&self) -> (out: Vec<u8>)
        ensures
            out@ == spec_encode_ipv4_packet_log(*self),
            out@.len() == IPV4_PACKET_LOG_BYTES,
    {
        proof {
            lemma_auto_spec_u16_to_from_le_bytes();
            lemma_auto_spec_u32_to_from_le_bytes();
        }
        let mut out = u32_to_le_bytes(self.src);
        let mut dst = u32_to_le_bytes(self.dst);
        let mut src_port = u16_to_le_bytes(self.src_port);
        let mut dst_port = u16_to_le_bytes(self.dst_port);
        let mut action = u32_to_le_bytes(self.action);
        out.append(&mut dst);
        out.append(&mut src_port);
        out.append(&mut dst_port);
        out.push(self.l3_protocol);
        out.append(&mut action);
        proof {
            assert(out@ =~= spec_encode_ipv4_packet_log(*self));
        }
        out
    }

    /// Unpacks a record from a channel buffer, reading each field
    /// independently at its offset rather than as an aligned
    /// aggregate.
    pub fn decode(buf: &[u8]) -> (r: Option<IPv4PacketLog>)
        ensures
            r == spec_decode_ipv4_packet_log(buf@),
    {
        if buf.len() < IPV4_PACKET_LOG_BYTES {
            return None;
        }
        Some(
            IPv4PacketLog {
                src: u32_from_le_bytes(slice_subrange(buf, 0, 4)),
                dst: u32_from_le_bytes(slice_subrange(buf, 4, 8)),
                src_port: u16_from_le_bytes(slice_subrange(buf, 8, 10)),
                dst_port: u16_from_le_bytes(slice_subrange(buf, 10, 12)),
                l3_protocol: buf[12],
                action: u32_from_le_bytes(slice_subrange(buf, 13, 17)),
            },
        )
    }
}

/// Decoding inverts encoding for the earlier revision's record too.
pub proof fn lemma_ipv4_packet_log_round_trip(rec: IPv4PacketLog)
    ensures
        spec_decode_ipv4_packet_log(spec_encode_ipv4_packet_log(rec)) == Some(rec),
{
    lemma_auto_spec_u16_to_from_le_bytes();
    lemma_auto_spec_u32_to_from_le_bytes();
    let enc = spec_encode_ipv4_packet_log(rec);
    assert(enc.subrange(0, 4) =~= spec_u32_to_le_bytes(rec.src));
    assert(enc.subrange(4, 8) =~= spec_u32_to_le_bytes(rec.dst));
    assert(enc.subrange(8, 10) =~= spec_u16_to_le_bytes(rec.src_port));
    assert(enc.subrange(10, 12) =~= spec_u16_to_le_bytes(rec.dst_port));
    assert(enc.subrange(13, 17) =~= spec_u32_to_le_bytes(rec.action));
}

/// The name the earlier revision printed for a transport protocol
/// number; protocols it did not classify are still marked for work.
pub fn l3_protocol(protocol: u8) -> (name: &'static str)
    ensures
        protocol == UDP_PROTOCOL ==> name@ == "UDP"@,
        protocol == TCP_PROTOCOL ==> name@ == "TCP"@,
        (protocol != UDP_PROTOCOL && protocol != TCP_PROTOCOL) ==> name@ == "TODO"@,
{
    if protocol == UDP_PROTOCOL {
        "UDP"
    } else if protocol == TCP_PROTOCOL {
        "TCP"
    } else {
        "TODO"
    }
}

} // verus!
