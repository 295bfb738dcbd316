use wiretap::addr::parse_ipv4;
use wiretap::blocklist::Blocklist;

#[test]
fn parses_plain_addresses() {
    assert_eq!(parse_ipv4(b"1.2.3.4"), Some(0x0102_0304));
    assert_eq!(parse_ipv4(b"0.0.0.0"), Some(0));
    assert_eq!(parse_ipv4(b"255.255.255.255"), Some(u32::MAX));
    assert_eq!(parse_ipv4(b"169.254.169.254"), Some(0xA9FE_A9FE));
    assert_eq!(parse_ipv4(b"192.168.1.2"), Some(0xC0A8_0102));
}

#[test]
fn rejects_malformed_addresses() {
    assert_eq!(parse_ipv4(b""), None);
    assert_eq!(parse_ipv4(b"1.2.3"), None);
    assert_eq!(parse_ipv4(b"1.2.3.4.5"), None);
    assert_eq!(parse_ipv4(b"1.2.3.4 "), None);
    assert_eq!(parse_ipv4(b"1.2.3.4x"), None);
    assert_eq!(parse_ipv4(b"1..3.4"), None);
    assert_eq!(parse_ipv4(b".1.2.3"), None);
    assert_eq!(parse_ipv4(b"256.1.1.1"), None);
    assert_eq!(parse_ipv4(b"1.2.3.999"), None);
    assert_eq!(parse_ipv4(b"01.2.3.4"), None);
    assert_eq!(parse_ipv4(b"1.2.3.0004"), None);
    assert_eq!(parse_ipv4(b"a.b.c.d"), None);
    assert_eq!(parse_ipv4(b"1,2,3,4"), None);
}

#[test]
fn zero_octet_is_not_a_leading_zero() {
    assert_eq!(parse_ipv4(b"10.0.0.1"), Some(0x0A00_0001));
}

#[test]
fn lookup_finds_inserted_addresses_only() {
    let mut bl = Blocklist::new();
    assert!(!bl.lookup(0x0A00_0001));
    bl.insert(0x0A00_0001);
    assert!(bl.lookup(0x0A00_0001));
    assert!(!bl.lookup(0x0A00_0002));
    assert_eq!(bl.len(), 1);
    // Re-inserting is idempotent for presence.
    bl.insert(0x0A00_0001);
    assert!(bl.lookup(0x0A00_0001));
    assert_eq!(bl.len(), 1);
}

#[test]
fn seeding_inserts_every_entry() {
    let addrs = vec![b"169.254.169.254".to_vec(), b"10.0.0.2".to_vec()];
    let bl = Blocklist::seed(&addrs).expect("well-formed entries seed");
    assert!(bl.lookup(0xA9FE_A9FE));
    assert!(bl.lookup(0x0A00_0002));
    assert!(!bl.lookup(0x0A00_0001));
}

#[test]
fn seeding_fails_on_a_malformed_entry() {
    let addrs = vec![b"10.0.0.2".to_vec(), b"not-an-address".to_vec()];
    assert!(Blocklist::seed(&addrs).is_none());
}

#[test]
fn seeding_an_empty_list_denies_nothing() {
    let bl = Blocklist::seed(&Vec::new()).unwrap();
    assert!(!bl.lookup(0));
    assert_eq!(bl.len(), 0);
}
