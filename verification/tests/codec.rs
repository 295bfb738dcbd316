use wiretap::addr::Addr;
use wiretap::bpfwall::IPv4PacketLog;
use wiretap::collector::{collect_record, flow_log_from_record};
use wiretap::packet_log::{PacketLog, PacketLogWrapper, PACKET_LOG_BYTES};
use wiretap::protocol::{TCP_PROTOCOL, XDP_PASS};

fn sample_record() -> PacketLog {
    PacketLog {
        src: 0x0A00_0001,
        dst: 0x0A00_0002,
        src_port: 80,
        dst_port: 443,
        l3_protocol: TCP_PROTOCOL,
        action: XDP_PASS,
        is_ipv4: true,
    }
}

#[test]
fn encoded_record_layout_is_exact() {
    let bytes = sample_record().encode();
    assert_eq!(bytes.len(), PACKET_LOG_BYTES);
    // src, little-endian, in the low bytes of the 16-byte field.
    assert_eq!(&bytes[0..16], &[1, 0, 0, 0x0A, 0, 0, 0, 0, 0, 0, 0, 0, 0, 0, 0, 0]);
    // dst likewise.
    assert_eq!(&bytes[16..32], &[2, 0, 0, 0x0A, 0, 0, 0, 0, 0, 0, 0, 0, 0, 0, 0, 0]);
    assert_eq!(&bytes[32..34], &[80, 0]);
    assert_eq!(&bytes[34..36], &[0xBB, 0x01]);
    assert_eq!(bytes[36], TCP_PROTOCOL);
    assert_eq!(&bytes[37..41], &[2, 0, 0, 0]);
    assert_eq!(bytes[41], 1);
}

#[test]
fn record_round_trips() {
    let rec = PacketLog {
        src: 0x2001_0DB8_0000_0000_0000_0000_0000_0001,
        dst: 0xFE80_0000_0000_0000_0000_0000_0000_0002,
        src_port: 5353,
        dst_port: 53,
        l3_protocol: 0x11,
        action: 0,
        is_ipv4: false,
    };
    let decoded = PacketLog::decode(&rec.encode()).expect("an encoded record decodes");
    assert_eq!(decoded, rec);
}

#[test]
fn short_buffer_is_malformed() {
    let mut bytes = sample_record().encode();
    bytes.truncate(41);
    assert!(PacketLog::decode(&bytes).is_none());
}

#[test]
fn bad_family_flag_is_malformed() {
    let mut bytes = sample_record().encode();
    bytes[41] = 7;
    assert!(PacketLog::decode(&bytes).is_none());
}

#[test]
fn trailing_channel_bytes_are_ignored() {
    // Channel slots are larger than the record; decoding reads only
    // the record's 42 bytes.
    let mut bytes = sample_record().encode();
    bytes.extend_from_slice(&[0xEE; 22]);
    assert_eq!(PacketLog::decode(&bytes), Some(sample_record()));
}

#[test]
fn wrapper_decodes_its_buffer() {
    let wrapper = PacketLogWrapper { data: sample_record().encode() };
    assert_eq!(wrapper.decode(), Some(sample_record()));
}

#[test]
fn ipv4_record_yields_low_bits_addresses() {
    // The stored addresses carry stray high bits; with is_ipv4 set,
    // normalization keeps exactly the low 32 bits.
    let rec = PacketLog {
        src: 0xDEAD_BEEF_0000_0000_0000_0000_0A00_0001,
        dst: 0xFFFF_FFFF_FFFF_FFFF_FFFF_FFFF_C0A8_0102,
        src_port: 80,
        dst_port: 443,
        l3_protocol: TCP_PROTOCOL,
        action: XDP_PASS,
        is_ipv4: true,
    };
    let log = flow_log_from_record(&rec, 1_700_000_000);
    assert_eq!(log.src, Addr::V4(0x0A00_0001));
    assert_eq!(log.dst, Addr::V4(0xC0A8_0102));
    assert_eq!(log.src_port, 80);
    assert_eq!(log.dst_port, 443);
    assert_eq!(log.timestamp, 1_700_000_000);
}

#[test]
fn ipv6_record_keeps_full_addresses() {
    let rec = PacketLog {
        src: 0x2001_0DB8_0000_0000_0000_0000_0000_0001,
        dst: 2,
        src_port: 0,
        dst_port: 0,
        l3_protocol: 0x3A,
        action: XDP_PASS,
        is_ipv4: false,
    };
    let log = flow_log_from_record(&rec, 5);
    assert_eq!(log.src, Addr::V6(0x2001_0DB8_0000_0000_0000_0000_0000_0001));
    assert_eq!(log.dst, Addr::V6(2));
}

#[test]
fn collect_record_decodes_and_normalizes() {
    let buf = sample_record().encode();
    let log = collect_record(&buf, 42).expect("a well-formed buffer collects");
    assert_eq!(log.src, Addr::V4(0x0A00_0001));
    assert_eq!(log.dst, Addr::V4(0x0A00_0002));
    assert_eq!(log.timestamp, 42);

    assert!(collect_record(&buf[..30], 42).is_none());
}

#[test]
fn earlier_revision_record_round_trips() {
    let rec = IPv4PacketLog {
        src: 0x0A00_0001,
        dst: 0x0A00_0002,
        src_port: 80,
        dst_port: 443,
        l3_protocol: TCP_PROTOCOL,
        action: XDP_PASS,
    };
    let bytes = rec.encode();
    assert_eq!(bytes.len(), 17);
    assert_eq!(IPv4PacketLog::decode(&bytes), Some(rec));
    assert!(IPv4PacketLog::decode(&bytes[..16]).is_none());
}
