use wiretap::bpfwall;
use wiretap::protocol::{ICMP_PROTOCOL, TCP_PROTOCOL, UDP_PROTOCOL};
use wiretap::utils;

#[test]
fn pipeline_names_known_protocols() {
    assert_eq!(utils::l3_protocol(ICMP_PROTOCOL), "ICMP");
    assert_eq!(utils::l3_protocol(UDP_PROTOCOL), "UDP");
    assert_eq!(utils::l3_protocol(TCP_PROTOCOL), "TCP");
}

#[test]
fn pipeline_names_unknown_protocols_in_hex() {
    assert_eq!(utils::l3_protocol(0x2F), "0x2f");
    assert_eq!(utils::l3_protocol(0), "0x00");
    assert_eq!(utils::l3_protocol(0xFF), "0xff");
    assert_eq!(utils::l3_protocol(0x3A), "0x3a");
}

#[test]
fn earlier_revision_names_tcp_and_udp_only() {
    assert_eq!(bpfwall::l3_protocol(UDP_PROTOCOL), "UDP");
    assert_eq!(bpfwall::l3_protocol(TCP_PROTOCOL), "TCP");
    assert_eq!(bpfwall::l3_protocol(ICMP_PROTOCOL), "TODO");
    assert_eq!(bpfwall::l3_protocol(0x2F), "TODO");
}

#[test]
fn capture_timestamp_is_past_the_epoch() {
    // The clock is the only nondeterminism in the pipeline; all the
    // library promises is a value, and it should be a plausible one.
    let t = utils::timestamp();
    assert!(t > 1_600_000_000);
}
