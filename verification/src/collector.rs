//! The per-record work of a per-CPU collector: decode one wire record
//! drained from its channel slot — each field read independently at
//! its offset — and normalize it to a flow-log value, stamped with
//! the capture time assigned at decode, not at kernel emission.

use vstd::prelude::*;

use crate::addr::{low32, spec_low32, Addr};
use crate::firewall::{spec_classify_frame, spec_decode_frame};
use crate::packet_log::{spec_decode_packet_log, PacketLog};
use crate::storage::FlowLog;

verus! {

/// The flow-log value a wire record normalizes to: for an IPv4
/// record, each address is the low 32 bits of its stored 128-bit
/// field, the high bits discarded; for an IPv6 record, the full 128
/// bits. Ports, protocol and action carry over unchanged.
pub open spec fn spec_flow_log_of(rec: PacketLog, timestamp: u64) -> FlowLog {
    FlowLog {
        src: if rec.is_ipv4 {
            Addr::V4(spec_low32(rec.src))
        } else {
            Addr::V6(rec.src)
        },
        dst: if rec.is_ipv4 {
            Addr::V4(spec_low32(rec.dst))
        } else {
            Addr::V6(rec.dst)
        },
        src_port: rec.src_port,
        dst_port: rec.dst_port,
        l3_protocol: rec.l3_protocol,
        action: rec.action,
        timestamp,
    }
}

/// Normalizes one decoded record, exactly as [`spec_flow_log_of`]
/// states.
pub fn flow_log_from_record(rec: &PacketLog, timestamp: u64) -> (log: FlowLog)
    ensures
        log == spec_flow_log_of(*rec, timestamp),
{
    if rec.is_ipv4 {
        FlowLog {
            src: Addr::V4(low32(rec.src)),
            dst: Addr::V4(low32(rec.dst)),
            src_port: rec.src_port,
            dst_port: rec.dst_port,
            l3_protocol: rec.l3_protocol,
            action: rec.action,
            timestamp,
        }
    } else {
        FlowLog {
            src: Addr::V6(rec.src),
            dst: Addr::V6(rec.dst),
            src_port: rec.src_port,
            dst_port: rec.dst_port,
            l3_protocol: rec.l3_protocol,
            action: rec.action,
            timestamp,
        }
    }
}

/// One collector step: decode the bytes of one channel slot and
/// normalize them. A malformed buffer yields nothing and is dropped;
/// it never stops the collector.
pub fn collect_record(buf: &[u8], timestamp: u64) -> (r: Option<FlowLog>)
    ensures
        spec_decode_packet_log(buf@) is None ==> r is None,
        spec_decode_packet_log(buf@) matches Some(rec) ==> r == Some(
            spec_flow_log_of(rec, timestamp),
        ),
{
    match PacketLog::decode(buf) {
        None => None,
        Some(rec) => Some(flow_log_from_record(&rec, timestamp)),
    }
}

/// End to end across the boundary: the flow log the collector builds
/// from an examined frame's record shows the frame's own decoded
/// fields and the decision taken on it — the widening to the common
/// address width on one side and the narrowing on the other cancel
/// out, for both families.
pub proof fn lemma_collector_mirrors_decoder(frame: Seq<u8>, table: Map<u32, u8>, timestamp: u64)
    ensures
        spec_classify_frame(frame, table).record matches Some(rec) ==> {
            let log = spec_flow_log_of(rec, timestamp);
            &&& spec_decode_frame(frame) matches Some(h) && log.src == h.source_address
                && log.dst == h.dest_address && log.src_port == h.source_port && log.dst_port
                == h.dest_port && log.l3_protocol == h.l3_protocol
            &&& log.action == spec_classify_frame(frame, table).action
            &&& log.timestamp == timestamp
        },
{
}

} // verus!
