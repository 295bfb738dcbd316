//! The in-line classifier: bounds-checked reads on raw frame bytes,
//! the fixed-offset header decoder, the blocklist policy decision, and
//! the record each examined frame leaves behind.
//!
//! Every field is read through [`range_check`]-guarded accessors; a
//! read whose range exceeds the frame is refused, never guessed. The
//! decoder short-circuits to pass-through when a layer-3 read is
//! refused, and falls back to zero ports when only the layer-4 read
//! is.

use vstd::prelude::*;

use crate::addr::Addr;
use crate::blocklist::Blocklist;
use crate::packet_log::PacketLog;
use crate::protocol::{
    ETH_HDR_LEN, ETH_P_IPV4, ETH_P_IPV6, ETH_PROTO_OFFSET, IPV4_DADDR_OFFSET, IPV4_HDR_LEN,
    IPV4_PROTO_OFFSET, IPV4_SADDR_OFFSET, IPV6_DADDR_OFFSET, IPV6_HDR_LEN, IPV6_NEXTHDR_OFFSET,
    IPV6_SADDR_OFFSET, L4_DPORT_OFFSET, L4_SPORT_OFFSET, TCP_PROTOCOL, UDP_PROTOCOL, XDP_ABORTED,
    XDP_PASS,
};

verus! {

/// The big-endian value of the two frame bytes at `offset`.
pub open spec fn spec_be16(frame: Seq<u8>, offset: int) -> int {
    frame[offset] * 0x100 + frame[offset + 1]
}

/// The big-endian value of the four frame bytes at `offset`.
pub open spec fn spec_be32(frame: Seq<u8>, offset: int) -> int {
    frame[offset] * 0x100_0000 + frame[offset + 1] * 0x1_0000 + frame[offset + 2] * 0x100
        + frame[offset + 3]
}

/// The big-endian value of the sixteen frame bytes at `offset`.
pub open spec fn spec_be128(frame: Seq<u8>, offset: int) -> int {
    frame[offset] * 0x100_0000_0000_0000_0000_0000_0000_0000
        + frame[offset + 1] * 0x1_0000_0000_0000_0000_0000_0000_0000
        + frame[offset + 2] * 0x100_0000_0000_0000_0000_0000_0000
        + frame[offset + 3] * 0x1_0000_0000_0000_0000_0000_0000
        + frame[offset + 4] * 0x100_0000_0000_0000_0000_0000
        + frame[offset + 5] * 0x1_0000_0000_0000_0000_0000
        + frame[offset + 6] * 0x100_0000_0000_0000_0000
        + frame[offset + 7] * 0x1_0000_0000_0000_0000
        + frame[offset + 8] * 0x100_0000_0000_0000
        + frame[offset + 9] * 0x1_0000_0000_0000
        + frame[offset + 10] * 0x100_0000_0000
        + frame[offset + 11] * 0x1_0000_0000
        + frame[offset + 12] * 0x100_0000
        + frame[offset + 13] * 0x1_0000
        + frame[offset + 14] * 0x100
        + frame[offset + 15]
}

/// The bounds check every read goes through: a read of `width` bytes
/// at `offset` is allowed only when it ends within the frame.
pub fn range_check(frame_len: usize, offset: usize, width: usize) -> (ok: bool)
    ensures
        ok == (offset + width <= frame_len),
{
    width <= frame_len && offset <= frame_len - width
}

/// Reads the byte at `offset`, refusing an out-of-range offset.
pub fn read_u8(frame: &[u8], offset: usize) -> (r: Option<u8>)
    ensures
        offset + 1 <= frame@.len() ==> r == Some(frame@[offset as int]),
        offset + 1 > frame@.len() ==> r is None,
{
    if range_check(frame.len(), offset, 1) {
        Some(frame[offset])
    } else {
        None
    }
}

/// Reads a big-endian 16-bit value, refusing an out-of-range offset.
pub fn read_be_u16(frame: &[u8], offset: usize) -> (r: Option<u16>)
    ensures
        offset + 2 <= frame@.len() ==> (r matches Some(v) && v == spec_be16(frame@, offset as int)),
        offset + 2 > frame@.len() ==> r is None,
{
    if range_check(frame.len(), offset, 2) {
        Some((frame[offset] as u16) * 0x100 + (frame[offset + 1] as u16))
    } else {
        None
    }
}

/// Reads a big-endian 32-bit value, refusing an out-of-range offset.
pub fn read_be_u32(frame: &[u8], offset: usize) -> (r: Option<u32>)
    ensures
        offset + 4 <= frame@.len() ==> (r matches Some(v) && v == spec_be32(frame@, offset as int)),
        offset + 4 > frame@.len() ==> r is None,
{
    if range_check(frame.len(), offset, 4) {
        Some(
            (frame[offset] as u32) * 0x100_0000 + (frame[offset + 1] as u32) * 0x1_0000
                + (frame[offset + 2] as u32) * 0x100 + (frame[offset + 3] as u32),
        )
    } else {
        None
    }
}

/// Reads a big-endian 128-bit value, refusing an out-of-range offset.
pub fn read_be_u128(frame: &[u8], offset: usize) -> (r: Option<u128>)
    ensures
        offset + 16 <= frame@.len() ==> (r matches Some(v) && v == spec_be128(
            frame@,
            offset as int,
        )),
        offset + 16 > frame@.len() ==> r is None,
{
    if range_check(frame.len(), offset, 16) {
        Some(
            (frame[offset] as u128) * 0x100_0000_0000_0000_0000_0000_0000_0000 + (frame[offset
                + 1] as u128) * 0x1_0000_0000_0000_0000_0000_0000_0000 + (frame[offset
                + 2] as u128) * 0x100_0000_0000_0000_0000_0000_0000 + (frame[offset
                + 3] as u128) * 0x1_0000_0000_0000_0000_0000_0000 + (frame[offset + 4] as u128)
                * 0x100_0000_0000_0000_0000_0000 + (frame[offset + 5] as u128)
                * 0x1_0000_0000_0000_0000_0000 + (frame[offset + 6] as u128)
                * 0x100_0000_0000_0000_0000 + (frame[offset + 7] as u128)
                * 0x1_0000_0000_0000_0000 + (frame[offset + 8] as u128) * 0x100_0000_0000_0000 + (
            frame[offset + 9] as u128) * 0x1_0000_0000_0000 + (frame[offset + 10] as u128)
                * 0x100_0000_0000 + (frame[offset + 11] as u128) * 0x1_0000_0000 + (frame[offset
                + 12] as u128) * 0x100_0000 + (frame[offset + 13] as u128) * 0x1_0000 + (
            frame[offset + 14] as u128) * 0x100 + (frame[offset + 15] as u128),
        )
    } else {
        None
    }
}

/// Result of decoding one frame: the identifying layer-3/layer-4
/// fields, read only through range-checked accessors. Ports are zero
/// for protocols without ports and for a truncated layer-4 header.
#[derive(Clone, Copy, Debug, PartialEq, Eq, Structural)]
pub struct DecodedHeaders {
    pub ethertype: u16,
    pub l3_protocol: u8,
    pub source_address: Addr,
    pub dest_address: Addr,
    pub source_port: u16,
    pub dest_port: u16,
}

/// What the decoder produces on a frame: the decoded headers of an IP
/// frame whose fixed layer-3 header lies within the frame, and
/// nothing (pass through unexamined) for non-IP traffic or a frame
/// too short for its layer-3 header. A truncated layer-4 header does
/// not discard the frame: its ports are reported as zero.
pub open spec fn spec_decode_frame(frame: Seq<u8>) -> Option<DecodedHeaders> {
    if frame.len() < ETH_HDR_LEN {
        None
    } else {
        let ethertype = spec_be16(frame, ETH_PROTO_OFFSET as int);
        if ethertype == ETH_P_IPV4 {
            if frame.len() < ETH_HDR_LEN + IPV4_HDR_LEN {
                None
            } else {
                let l3_protocol = frame[ETH_HDR_LEN + IPV4_PROTO_OFFSET];
                let ports_ok = (l3_protocol == TCP_PROTOCOL || l3_protocol == UDP_PROTOCOL)
                    && frame.len() >= ETH_HDR_LEN + IPV4_HDR_LEN + L4_DPORT_OFFSET + 2;
                Some(
                    DecodedHeaders {
                        ethertype: ETH_P_IPV4,
                        l3_protocol,
                        source_address: Addr::V4(
                            spec_be32(frame, ETH_HDR_LEN + IPV4_SADDR_OFFSET) as u32,
                        ),
                        dest_address: Addr::V4(
                            spec_be32(frame, ETH_HDR_LEN + IPV4_DADDR_OFFSET) as u32,
                        ),
                        source_port: if ports_ok {
                            spec_be16(frame, ETH_HDR_LEN + IPV4_HDR_LEN + L4_SPORT_OFFSET) as u16
                        } else {
                            0u16
                        },
                        dest_port: if ports_ok {
                            spec_be16(frame, ETH_HDR_LEN + IPV4_HDR_LEN + L4_DPORT_OFFSET) as u16
                        } else {
                            0u16
                        },
                    },
                )
            }
        } else if ethertype == ETH_P_IPV6 {
            if frame.len() < ETH_HDR_LEN + IPV6_HDR_LEN {
                None
            } else {
                let l3_protocol = frame[ETH_HDR_LEN + IPV6_NEXTHDR_OFFSET];
                let ports_ok = (l3_protocol == TCP_PROTOCOL || l3_protocol == UDP_PROTOCOL)
                    && frame.len() >= ETH_HDR_LEN + IPV6_HDR_LEN + L4_DPORT_OFFSET + 2;
                Some(
                    DecodedHeaders {
                        ethertype: ETH_P_IPV6,
                        l3_protocol,
                        source_address: Addr::V6(
                            spec_be128(frame, ETH_HDR_LEN + IPV6_SADDR_OFFSET) as u128,
                        ),
                        dest_address: Addr::V6(
                            spec_be128(frame, ETH_HDR_LEN + IPV6_DADDR_OFFSET) as u128,
                        ),
                        source_port: if ports_ok {
                            spec_be16(frame, ETH_HDR_LEN + IPV6_HDR_LEN + L4_SPORT_OFFSET) as u16
                        } else {
                            0u16
                        },
                        dest_port: if ports_ok {
                            spec_be16(frame, ETH_HDR_LEN + IPV6_HDR_LEN + L4_DPORT_OFFSET) as u16
                        } else {
                            0u16
                        },
                    },
                )
            }
        } else {
            None
        }
    }
}

/// Decodes one frame by fixed offsets, as [`spec_decode_frame`]
/// states: Ethernet first, then the IPv4 or IPv6 fixed header, then
/// TCP/UDP ports relative to the end of that header. Every read is
/// range-checked; no byte outside the frame is ever touched.
pub fn decode_frame(frame: &[u8]) -> (r: Option<DecodedHeaders>)
    ensures
        r == spec_decode_frame(frame@),
{
    let ethertype = match read_be_u16(frame, ETH_PROTO_OFFSET) {
        Some(e) => e,
        None => {
            return None;
        },
    };
    if ethertype == ETH_P_IPV4 {
        let source = match read_be_u32(frame, ETH_HDR_LEN + IPV4_SADDR_OFFSET) {
            Some(v) => v,
            None => {
                return None;
            },
        };
        let dest = match read_be_u32(frame, ETH_HDR_LEN + IPV4_DADDR_OFFSET) {
            Some(v) => v,
            None => {
                return None;
            },
        };
        let l3_protocol = match read_u8(frame, ETH_HDR_LEN + IPV4_PROTO_OFFSET) {
            Some(v) => v,
            None => {
                return None;
            },
        };
        let (source_port, dest_port) = if l3_protocol == TCP_PROTOCOL || l3_protocol
            == UDP_PROTOCOL {
            let sp = read_be_u16(frame, ETH_HDR_LEN + IPV4_HDR_LEN + L4_SPORT_OFFSET);
            let dp = read_be_u16(frame, ETH_HDR_LEN + IPV4_HDR_LEN + L4_DPORT_OFFSET);
            match (sp, dp) {
                (Some(s), Some(d)) => (s, d),
                _ => (0u16, 0u16),
            }
        } else {
            (0u16, 0u16)
        };
        Some(
            DecodedHeaders {
                ethertype,
                l3_protocol,
                source_address: Addr::V4(source),
                dest_address: Addr::V4(dest),
                source_port,
                dest_port,
            },
        )
    } else if ethertype == ETH_P_IPV6 {
        let source = match read_be_u128(frame, ETH_HDR_LEN + IPV6_SADDR_OFFSET) {
            Some(v) => v,
            None => {
                return None;
            },
        };
        let dest = match read_be_u128(frame, ETH_HDR_LEN + IPV6_DADDR_OFFSET) {
            Some(v) => v,
            None => {
                return None;
            },
        };
        let l3_protocol = match read_u8(frame, ETH_HDR_LEN + IPV6_NEXTHDR_OFFSET) {
            Some(v) => v,
            None => {
                return None;
            },
        };
        let (source_port, dest_port) = if l3_protocol == TCP_PROTOCOL || l3_protocol
            == UDP_PROTOCOL {
            let sp = read_be_u16(frame, ETH_HDR_LEN + IPV6_HDR_LEN + L4_SPORT_OFFSET);
            let dp = read_be_u16(frame, ETH_HDR_LEN + IPV6_HDR_LEN + L4_DPORT_OFFSET);
            match (sp, dp) {
                (Some(s), Some(d)) => (s, d),
                _ => (0u16, 0u16),
            }
        } else {
            (0u16, 0u16)
        };
        Some(
            DecodedHeaders {
                ethertype,
                l3_protocol,
                source_address: Addr::V6(source),
                dest_address: Addr::V6(dest),
                source_port,
                dest_port,
            },
        )
    } else {
        None
    }
}

/// What the classifier decides and what it leaves behind: the
/// disposition handed back to the receive hook, and the record
/// written towards the collector, if the frame was examined.
pub struct Verdict {
    pub action: u32,
    pub record: Option<PacketLog>,
}

/// The policy decision for decoded headers: an IPv4 destination found
/// in the blocklist is denied; every other examined frame passes.
/// Only IPv4 destinations are checked against the table.
pub open spec fn spec_action_for(headers: DecodedHeaders, table: Map<u32, u8>) -> u32 {
    match headers.dest_address {
        Addr::V4(d) => if table.contains_key(d) {
            XDP_ABORTED
        } else {
            XDP_PASS
        },
        Addr::V6(_) => XDP_PASS,
    }
}

/// The record one examined frame leaves behind: the decoded fields at
/// the common 128-bit address width, the action taken, and the family
/// flag.
pub open spec fn spec_record_for(headers: DecodedHeaders, action: u32) -> PacketLog {
    PacketLog {
        src: headers.source_address.spec_bits(),
        dst: headers.dest_address.spec_bits(),
        src_port: headers.source_port,
        dst_port: headers.dest_port,
        l3_protocol: headers.l3_protocol,
        action,
        is_ipv4: headers.ethertype == ETH_P_IPV4,
    }
}

/// The whole classifier on one frame: pass-through with no record
/// when the decoder yields nothing, otherwise the policy action and
/// one record carrying that same action.
pub open spec fn spec_classify_frame(frame: Seq<u8>, table: Map<u32, u8>) -> Verdict {
    match spec_decode_frame(frame) {
        None => Verdict { action: XDP_PASS, record: None },
        Some(headers) => {
            let action = spec_action_for(headers, table);
            Verdict { action, record: Some(spec_record_for(headers, action)) }
        },
    }
}

/// Classifies one frame against the blocklist, producing the
/// disposition and the record to emit. The action in the record and
/// the action returned are one and the same value.
pub fn classify_frame(frame: &[u8], blocklist: &Blocklist) -> (v: Verdict)
    ensures
        v.action == spec_classify_frame(frame@, blocklist@).action,
        v.record == spec_classify_frame(frame@, blocklist@).record,
{
    match decode_frame(frame) {
        None => Verdict { action: XDP_PASS, record: None },
        Some(headers) => {
            let action = match headers.dest_address {
                Addr::V4(d) => if blocklist.lookup(d) {
                    XDP_ABORTED
                } else {
                    XDP_PASS
                },
                Addr::V6(_) => XDP_PASS,
            };
            let record = PacketLog {
                src: headers.source_address.bits(),
                dst: headers.dest_address.bits(),
                src_port: headers.source_port,
                dst_port: headers.dest_port,
                l3_protocol: headers.l3_protocol,
                action,
                is_ipv4: headers.ethertype == ETH_P_IPV4,
            };
            Verdict { action, record: Some(record) }
        },
    }
}

/// The classifier in the shape the receive hook calls it: `Ok` with a
/// pass disposition for traffic that may continue, `Err` for a denied
/// frame, beside the record to emit for every examined frame.
pub fn try_xdp_firewall(frame: &[u8], blocklist: &Blocklist) -> (r: (
    Result<u32, ()>,
    Option<PacketLog>,
))
    ensures
        r.0 == (if spec_classify_frame(frame@, blocklist@).action == XDP_PASS {
            Ok::<u32, ()>(XDP_PASS)
        } else {
            Err::<u32, ()>(())
        }),
        r.1 == spec_classify_frame(frame@, blocklist@).record,
{
    let verdict = classify_frame(frame, blocklist);
    if verdict.action == XDP_PASS {
        (Ok(XDP_PASS), verdict.record)
    } else {
        (Err(()), verdict.record)
    }
}

/// The outermost entry of the packet path: the disposition as the
/// hook reports it (pass, or aborted for a denied or failed frame)
/// and the record to emit.
pub fn xdp_firewall(frame: &[u8], blocklist: &Blocklist) -> (r: (u32, Option<PacketLog>))
    ensures
        r.0 == spec_classify_frame(frame@, blocklist@).action,
        r.1 == spec_classify_frame(frame@, blocklist@).record,
{
    let (disposition, record) = try_xdp_firewall(frame, blocklist);
    match disposition {
        Ok(action) => (action, record),
        Err(_) => (XDP_ABORTED, record),
    }
}

/// The decision record never disagrees with the disposition: every
/// record the classifier emits carries exactly the action returned to
/// the receive hook.
pub proof fn lemma_record_action_agree(frame: Seq<u8>, table: Map<u32, u8>)
    ensures
        spec_classify_frame(frame, table).record matches Some(rec) ==> rec.action
            == spec_classify_frame(frame, table).action,
{
}

/// The policy is the blocklist, exactly: the classifier denies a
/// frame if and only if it decodes as IP with an IPv4 destination
/// present in the table; everything else — non-IP, truncated,
/// unlisted IPv4, and all IPv6 — passes.
pub proof fn lemma_policy_exact(frame: Seq<u8>, table: Map<u32, u8>)
    ensures
        spec_classify_frame(frame, table).action == XDP_ABORTED <==> (spec_decode_frame(frame)
            matches Some(headers) && headers.dest_address matches Addr::V4(d)
            && table.contains_key(d)),
        spec_classify_frame(frame, table).action == XDP_PASS || spec_classify_frame(frame, table).action
            == XDP_ABORTED,
{
}

/// The record's family flag and address widths agree: the flag is set
/// exactly for an IPv4 frame, and an IPv4 record stores each address
/// in the low 32 bits of its 128-bit field with the high bits zero.
pub proof fn lemma_v4_record_addresses_fit(frame: Seq<u8>, table: Map<u32, u8>)
    ensures
        spec_classify_frame(frame, table).record matches Some(rec) ==> (rec.is_ipv4 <==> (
        spec_decode_frame(frame) matches Some(h) && h.source_address is V4)),
        spec_classify_frame(frame, table).record matches Some(rec) ==> (rec.is_ipv4 ==> rec.src
            < 0x1_0000_0000 && rec.dst < 0x1_0000_0000),
{
}

/// No out-of-range read ever decides a field: a frame shorter than a
/// fixed layer-3 header decodes to nothing and passes through
/// unexamined with no record, and a frame whose layer-4 header is
/// truncated is still classified, with zero-filled ports.
pub proof fn lemma_truncated_frames(frame: Seq<u8>, table: Map<u32, u8>)
    ensures
        frame.len() < ETH_HDR_LEN ==> spec_decode_frame(frame) is None,
        spec_be16(frame, ETH_PROTO_OFFSET as int) == ETH_P_IPV4 && frame.len() < ETH_HDR_LEN
            + IPV4_HDR_LEN ==> spec_decode_frame(frame) is None,
        spec_be16(frame, ETH_PROTO_OFFSET as int) == ETH_P_IPV6 && frame.len() < ETH_HDR_LEN
            + IPV6_HDR_LEN ==> spec_decode_frame(frame) is None,
        spec_decode_frame(frame) is None ==> spec_classify_frame(frame, table).action == XDP_PASS
            && spec_classify_frame(frame, table).record is None,
        spec_be16(frame, ETH_PROTO_OFFSET as int) == ETH_P_IPV4 && ETH_HDR_LEN + IPV4_HDR_LEN
            <= frame.len() < ETH_HDR_LEN + IPV4_HDR_LEN + L4_DPORT_OFFSET + 2 ==> (
        spec_decode_frame(frame) matches Some(h) && h.source_port == 0 && h.dest_port == 0),
        spec_be16(frame, ETH_PROTO_OFFSET as int) == ETH_P_IPV6 && ETH_HDR_LEN + IPV6_HDR_LEN
            <= frame.len() < ETH_HDR_LEN + IPV6_HDR_LEN + L4_DPORT_OFFSET + 2 ==> (
        spec_decode_frame(frame) matches Some(h) && h.source_port == 0 && h.dest_port == 0),
{
}

} // verus!
