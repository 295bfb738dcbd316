//! Protocol numbers, ethertypes, dispositions, and the fixed header
//! layout that the decoder reads by byte offset.

use vstd::prelude::*;

verus! {

/// IP protocol number for ICMP.
pub const ICMP_PROTOCOL: u8 = 0x01;

/// IP protocol number for UDP.
pub const UDP_PROTOCOL: u8 = 0x11;

/// IP protocol number for TCP.
pub const TCP_PROTOCOL: u8 = 0x06;

/// Ethertype of IPv4, as read from the Ethernet header.
pub const ETH_P_IPV4: u16 = 0x0800;

/// Ethertype of IPv6, as read from the Ethernet header.
pub const ETH_P_IPV6: u16 = 0x86DD;

/// Disposition: let the frame continue into the network stack.
pub const XDP_PASS: u32 = 2;

/// Disposition: abort processing of the frame, denying it.
pub const XDP_ABORTED: u32 = 0;

/// Length of the fixed Ethernet header.
pub const ETH_HDR_LEN: usize = 14;

/// Offset of the ethertype field within the Ethernet header.
pub const ETH_PROTO_OFFSET: usize = 12;

/// Length of the fixed IPv4 header (no options).
pub const IPV4_HDR_LEN: usize = 20;

/// Offset of the next-protocol field within the IPv4 header.
pub const IPV4_PROTO_OFFSET: usize = 9;

/// Offset of the source address within the IPv4 header.
pub const IPV4_SADDR_OFFSET: usize = 12;

/// Offset of the destination address within the IPv4 header.
pub const IPV4_DADDR_OFFSET: usize = 16;

/// Length of the fixed IPv6 header (no extension headers).
pub const IPV6_HDR_LEN: usize = 40;

/// Offset of the next-header field within the IPv6 header.
pub const IPV6_NEXTHDR_OFFSET: usize = 6;

/// Offset of the source address within the IPv6 header.
pub const IPV6_SADDR_OFFSET: usize = 8;

/// Offset of the destination address within the IPv6 header.
pub const IPV6_DADDR_OFFSET: usize = 24;

/// Offset of the source port within a TCP or UDP header.
pub const L4_SPORT_OFFSET: usize = 0;

/// Offset of the destination port within a TCP or UDP header.
pub const L4_DPORT_OFFSET: usize = 2;

} // verus!
