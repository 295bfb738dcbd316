use wiretap::addr::Addr;
use wiretap::blocklist::Blocklist;
use wiretap::firewall::{classify_frame, decode_frame, try_xdp_firewall, xdp_firewall};
use wiretap::protocol::{ICMP_PROTOCOL, TCP_PROTOCOL, UDP_PROTOCOL, XDP_ABORTED, XDP_PASS};

/// A minimal Ethernet+IPv4 frame: zeroed except the fields the
/// decoder reads. `l4` appends the transport bytes after the fixed
/// IPv4 header.
fn ipv4_frame(src: [u8; 4], dst: [u8; 4], protocol: u8, l4: &[u8]) -> Vec<u8> {
    let mut f = vec![0u8; 34];
    f[12] = 0x08;
    f[13] = 0x00;
    f[23] = protocol;
    f[26..30].copy_from_slice(&src);
    f[30..34].copy_from_slice(&dst);
    f.extend_from_slice(l4);
    f
}

/// A minimal Ethernet+IPv6 frame, zeroed except the decoded fields.
fn ipv6_frame(src: [u8; 16], dst: [u8; 16], next_header: u8, l4: &[u8]) -> Vec<u8> {
    let mut f = vec![0u8; 54];
    f[12] = 0x86;
    f[13] = 0xDD;
    f[20] = next_header;
    f[22..38].copy_from_slice(&src);
    f[38..54].copy_from_slice(&dst);
    f.extend_from_slice(l4);
    f
}

#[test]
fn decodes_ipv4_tcp_exactly() {
    let frame = ipv4_frame(
        [10, 0, 0, 1],
        [10, 0, 0, 2],
        TCP_PROTOCOL,
        &[0, 80, 1, 187], // src port 80, dst port 443
    );
    let h = decode_frame(&frame).expect("an IPv4/TCP frame must decode");
    assert_eq!(h.ethertype, 0x0800);
    assert_eq!(h.l3_protocol, TCP_PROTOCOL);
    assert_eq!(h.source_address, Addr::V4(0x0A00_0001));
    assert_eq!(h.dest_address, Addr::V4(0x0A00_0002));
    assert_eq!(h.source_port, 80);
    assert_eq!(h.dest_port, 443);
}

#[test]
fn decodes_ipv4_udp_ports() {
    let frame = ipv4_frame([1, 2, 3, 4], [5, 6, 7, 8], UDP_PROTOCOL, &[0x13, 0x88, 0x00, 0x35]);
    let h = decode_frame(&frame).unwrap();
    assert_eq!(h.l3_protocol, UDP_PROTOCOL);
    assert_eq!(h.source_port, 5000);
    assert_eq!(h.dest_port, 53);
}

#[test]
fn ipv4_icmp_reports_zero_ports() {
    // The ICMP payload bytes are present but must never be parsed as
    // ports.
    let frame = ipv4_frame([10, 0, 0, 1], [10, 0, 0, 2], ICMP_PROTOCOL, &[8, 0, 0x12, 0x34]);
    let h = decode_frame(&frame).expect("an IPv4/ICMP frame is still examined");
    assert_eq!(h.l3_protocol, ICMP_PROTOCOL);
    assert_eq!(h.source_port, 0);
    assert_eq!(h.dest_port, 0);
}

#[test]
fn decodes_ipv6_udp_exactly() {
    let mut src = [0u8; 16];
    src[0] = 0x20;
    src[1] = 0x01;
    src[15] = 0x01;
    let mut dst = [0u8; 16];
    dst[15] = 0x02;
    let frame = ipv6_frame(src, dst, UDP_PROTOCOL, &[0, 53, 0, 54]);
    let h = decode_frame(&frame).unwrap();
    assert_eq!(h.ethertype, 0x86DD);
    assert_eq!(h.source_address, Addr::V6(0x2001_0000_0000_0000_0000_0000_0000_0001));
    assert_eq!(h.dest_address, Addr::V6(2));
    assert_eq!(h.source_port, 53);
    assert_eq!(h.dest_port, 54);
}

#[test]
fn non_ip_traffic_passes_unexamined() {
    let mut frame = vec![0u8; 64];
    frame[12] = 0x08;
    frame[13] = 0x06; // ARP
    assert!(decode_frame(&frame).is_none());
    let bl = Blocklist::new();
    let v = classify_frame(&frame, &bl);
    assert_eq!(v.action, XDP_PASS);
    assert!(v.record.is_none());
}

#[test]
fn truncated_ethernet_passes_unexamined() {
    let frame = vec![0u8; 13];
    assert!(decode_frame(&frame).is_none());
}

#[test]
fn truncated_ipv4_header_passes_unexamined() {
    // Ethertype says IPv4 but the fixed header does not fit.
    let mut frame = vec![0u8; 30];
    frame[12] = 0x08;
    frame[13] = 0x00;
    assert!(decode_frame(&frame).is_none());
    let bl = Blocklist::new();
    let v = classify_frame(&frame, &bl);
    assert_eq!(v.action, XDP_PASS);
    assert!(v.record.is_none());
}

#[test]
fn truncated_tcp_header_still_logged_with_zero_ports() {
    // The layer-3 header fits, the ports do not: the frame is still
    // classified and logged, with zero ports.
    let frame = ipv4_frame([10, 0, 0, 1], [10, 0, 0, 2], TCP_PROTOCOL, &[0, 80]);
    let h = decode_frame(&frame).expect("layer-3 fields were readable");
    assert_eq!(h.l3_protocol, TCP_PROTOCOL);
    assert_eq!(h.source_port, 0);
    assert_eq!(h.dest_port, 0);
    let bl = Blocklist::new();
    let v = classify_frame(&frame, &bl);
    assert_eq!(v.action, XDP_PASS);
    assert!(v.record.is_some());
}

#[test]
fn blocked_destination_is_denied_and_logged() {
    let mut bl = Blocklist::new();
    bl.insert(0x0A00_0002);
    let frame = ipv4_frame([10, 0, 0, 1], [10, 0, 0, 2], TCP_PROTOCOL, &[0, 80, 1, 187]);
    let v = classify_frame(&frame, &bl);
    assert_eq!(v.action, XDP_ABORTED);
    let rec = v.record.expect("a denied frame is still logged");
    assert_eq!(rec.action, XDP_ABORTED);
    assert_eq!(rec.dst, 0x0A00_0002);
    assert!(rec.is_ipv4);
}

#[test]
fn unlisted_destination_passes() {
    let mut bl = Blocklist::new();
    bl.insert(0x0A00_0099);
    let frame = ipv4_frame([10, 0, 0, 1], [10, 0, 0, 2], TCP_PROTOCOL, &[0, 80, 1, 187]);
    let v = classify_frame(&frame, &bl);
    assert_eq!(v.action, XDP_PASS);
    assert_eq!(v.record.unwrap().action, XDP_PASS);
}

#[test]
fn ipv6_destination_is_never_blocked() {
    // The baseline policy checks IPv4 destinations only.
    let mut bl = Blocklist::new();
    bl.insert(2);
    let mut dst = [0u8; 16];
    dst[15] = 0x02;
    let frame = ipv6_frame([0u8; 16], dst, TCP_PROTOCOL, &[0, 80, 1, 187]);
    let v = classify_frame(&frame, &bl);
    assert_eq!(v.action, XDP_PASS);
}

#[test]
fn try_xdp_firewall_reports_denial_as_err() {
    let mut bl = Blocklist::new();
    bl.insert(0x0A00_0002);
    let blocked = ipv4_frame([10, 0, 0, 1], [10, 0, 0, 2], TCP_PROTOCOL, &[0, 80, 1, 187]);
    let (disposition, record) = try_xdp_firewall(&blocked, &bl);
    assert_eq!(disposition, Err(()));
    assert_eq!(record.unwrap().action, XDP_ABORTED);

    let allowed = ipv4_frame([10, 0, 0, 1], [10, 0, 0, 3], TCP_PROTOCOL, &[0, 80, 1, 187]);
    let (disposition, record) = try_xdp_firewall(&allowed, &bl);
    assert_eq!(disposition, Ok(XDP_PASS));
    assert_eq!(record.unwrap().action, XDP_PASS);
}

#[test]
fn xdp_firewall_disposition_matches_record() {
    let mut bl = Blocklist::new();
    bl.insert(0xC0A8_0101);
    let blocked = ipv4_frame([10, 0, 0, 1], [192, 168, 1, 1], UDP_PROTOCOL, &[0, 53, 0, 53]);
    let (action, record) = xdp_firewall(&blocked, &bl);
    assert_eq!(action, XDP_ABORTED);
    assert_eq!(record.unwrap().action, action);

    let pass = ipv4_frame([10, 0, 0, 1], [192, 168, 1, 9], UDP_PROTOCOL, &[0, 53, 0, 53]);
    let (action, record) = xdp_firewall(&pass, &bl);
    assert_eq!(action, XDP_PASS);
    assert_eq!(record.unwrap().action, action);
}
