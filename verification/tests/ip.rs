use nexus::error::ParseError;
use nexus::ip::{Ip, Ipv4Address};
use nexus::pdu::{deserialize, Pdu};
use nexus::registry::DissectionTables;

const IPV4_TCP_HELLO: [u8; 45] = [
    // IPv4 header (20 bytes)
    0x45, 0x3c, // Version/IHL, DSCP/ECN
    0x00, 0x2D, // Total Length = 45 bytes
    0x1C, 0x46, // Identification
    0x40, 0x00, // Flags (DF) + Fragment offset
    0x40, // TTL = 64
    0x06, // Protocol = TCP (6)
    0x32, 0x4E, // Header checksum
    0xC0, 0x00, 0x02, 0x01, // Src IP: 192.0.2.1
    0xC6, 0x33, 0x64, 0x02, // Dst IP: 198.51.100.2
    // TCP header (20 bytes)
    0x30, 0x39, // Src port = 12345
    0x00, 0x50, // Dst port = 80
    0x01, 0x02, 0x03, 0x04, // Seq number
    0x00, 0x00, 0x00, 0x00, // Ack number
    0x50, 0x18, // Data offset (5) << 4 , Flags (PSH+ACK)
    0xFF, 0xFF, // Window size
    0x00, 0x00, // Checksum
    0x00, 0x00, // Urgent pointer
    // Payload: "hello"
    0x68, 0x65, 0x6C, 0x6C, 0x6F,
];

fn test_ip_pdu<'a>() -> Ip<'a> {
    deserialize::<Ip>(&IPV4_TCP_HELLO, &DissectionTables::standard()).unwrap()
}

#[test]
fn test_from_bytes() {
    Ip::from_bytes(&IPV4_TCP_HELLO, &DissectionTables::standard()).unwrap();
}

#[test]
fn test_get_version() {
    let ip_pdu = test_ip_pdu();
    assert!(ip_pdu.version() == 4);
}

#[test]
fn test_set_version() {
    let mut ip_pdu = test_ip_pdu();
    ip_pdu.set_version(3);
    assert!(ip_pdu.version() == 3);
}

#[test]
fn test_get_ihl() {
    let ip_pdu = test_ip_pdu();
    assert!(ip_pdu.ihl() == 5);
}

#[test]
fn test_set_ihl() {
    let mut ip_pdu = test_ip_pdu();
    ip_pdu.set_ihl(3);
    assert!(ip_pdu.ihl() == 3);
}

#[test]
fn test_get_tos() {
    let ip_pdu = test_ip_pdu();
    assert!(ip_pdu.tos() == 0x3c);
}

#[test]
fn test_set_tos() {
    let mut ip_pdu = test_ip_pdu();
    ip_pdu.set_tos(0xFF);
    assert!(ip_pdu.tos() == 0xFF);
}

#[test]
fn test_get_dscp() {
    let ip_pdu = test_ip_pdu();
    assert!(ip_pdu.dscp() == 0b0000_1111);
}

#[test]
fn test_set_dscp() {
    let mut ip_pdu = test_ip_pdu();
    ip_pdu.set_dscp(0b101010);
    assert!(ip_pdu.dscp() == 0b101010);
}

#[test]
fn test_get_ecn() {
    let ip_pdu = test_ip_pdu();
    assert!(ip_pdu.ecn() == 0b0000_0000);
}

#[test]
fn test_set_ecn() {
    let mut ip_pdu = test_ip_pdu();
    ip_pdu.set_ecn(2);
    assert!(ip_pdu.ecn() == 2);
}

#[test]
fn test_get_src_addr() {
    let ip_pdu = test_ip_pdu();
    assert!(ip_pdu.src_addr() == Ipv4Address::from_bits(0xC0_00_02_01));
}

#[test]
fn test_set_src_addr() {
    let mut ip_pdu = test_ip_pdu();
    ip_pdu.set_src_addr(Ipv4Address::from_bits(0x00_11_44_55));
    assert!(ip_pdu.src_addr() == Ipv4Address::from_bits(0x00_11_44_55));
}

#[test]
fn test_get_dst_addr() {
    let ip_pdu = test_ip_pdu();
    assert!(ip_pdu.dst_addr() == Ipv4Address::from_bits(0xC6_33_64_02));
}

#[test]
fn test_set_dst_addr() {
    let mut ip_pdu = test_ip_pdu();
    ip_pdu.set_dst_addr(Ipv4Address::from_bits(0x00_11_44_55));
    assert!(ip_pdu.dst_addr() == Ipv4Address::from_bits(0x00_11_44_55));
}

#[test]
fn test_get_payload() {
    let payload = [
        0x30, 0x39, // Src port = 12345
        0x00, 0x50, // Dst port = 80
        0x01, 0x02, 0x03, 0x04, // Seq number
        0x00, 0x00, 0x00, 0x00, // Ack number
        0x50, 0x18, // Data offset (5) << 4 , Flags (PSH+ACK)
        0xFF, 0xFF, // Window size
        0x00, 0x00, // Checksum
        0x00, 0x00, // Urgent pointer
        // Payload: "hello"
        0x68, 0x65, 0x6C, 0x6C, 0x6F,
    ];
    let ip_pdu = test_ip_pdu();
    assert!(ip_pdu.payload() == payload);
}

#[test]
fn test_set_payload() {
    let payload = vec![0x00; 25];
    let mut ip_pdu = test_ip_pdu();
    ip_pdu.set_payload(&payload);
    assert!(ip_pdu.payload() == payload);
}

#[test]
fn test_ip_from_bytes() {
    Ip::from_bytes(&IPV4_TCP_HELLO, &DissectionTables::standard()).unwrap();
}

#[test]
fn test_ip_get_version() {
    let ip_bytes = &IPV4_TCP_HELLO;
    let ip_pdu = deserialize::<Ip>(ip_bytes, &DissectionTables::standard()).unwrap();
    assert!(ip_pdu.version() == 4);
}

#[test]
fn test_ip_get_tos() {
    let ip_bytes = &IPV4_TCP_HELLO;
    let ip_pdu = deserialize::<Ip>(ip_bytes, &DissectionTables::standard()).unwrap();
    assert!(ip_pdu.tos() == 0x3c);
}

#[test]
fn version_and_ihl_do_not_disturb_each_other() {
    for v1 in 0u8..16 {
        for v2 in 0u8..16 {
            let mut ip = test_ip_pdu();
            ip.set_version(v1);
            assert_eq!(ip.ihl(), 5);
            ip.set_ihl(v2);
            assert_eq!(ip.version(), v1);
            assert_eq!(ip.ihl(), v2);
        }
    }
}

#[test]
fn only_the_bits_that_fit_a_field_are_written() {
    let mut ip = test_ip_pdu();
    ip.set_ihl(0xF7);
    assert_eq!(ip.ihl(), 7);
    assert_eq!(ip.version(), 4);
    ip.set_version(0x36);
    assert_eq!(ip.version(), 6);
    assert_eq!(ip.ihl(), 7);
    ip.set_ecn(0xFF);
    assert_eq!(ip.ecn(), 3);
    assert_eq!(ip.dscp(), 0b0000_1111);
}

#[test]
fn flags_and_fragment_offset_share_two_bytes() {
    let mut ip = test_ip_pdu();
    assert_eq!(ip.flags(), 0b010);
    assert!(!ip.rf());
    assert!(ip.df());
    assert!(!ip.mf());
    assert_eq!(ip.frag_offset(), 0);
    ip.set_frag_offset(0x1ABC);
    assert_eq!(ip.frag_offset(), 0x1ABC);
    assert_eq!(ip.flags(), 0b010);
    ip.set_frag_offset(0xFFFF);
    assert_eq!(ip.frag_offset(), 0x1FFF);
    assert_eq!(ip.flags(), 0b010);
    ip.set_mf(1);
    assert!(ip.mf());
    assert!(ip.df());
    ip.set_df(0);
    assert!(!ip.df());
    assert!(ip.mf());
    ip.set_rf(1);
    assert!(ip.rf());
    assert_eq!(ip.flags(), 0b101);
    assert_eq!(ip.frag_offset(), 0x1FFF);
    ip.set_flags(0b010);
    assert_eq!(ip.flags(), 0b010);
    assert_eq!(ip.frag_offset(), 0x1FFF);
}

#[test]
fn word_fields_are_big_endian() {
    let mut ip = test_ip_pdu();
    assert_eq!(ip.total_len(), 45);
    assert_eq!(ip.id(), 0x1C46);
    assert_eq!(ip.ttl(), 64);
    assert_eq!(ip.protocol(), 6);
    assert_eq!(ip.checksum(), 0x324E);
    ip.with_total_len(0x0102).with_id(0x0304).with_ttl(9).with_protocol(17).with_checksum(0xA0B0);
    assert_eq!(ip.total_len(), 0x0102);
    assert_eq!(ip.id(), 0x0304);
    assert_eq!(ip.ttl(), 9);
    assert_eq!(ip.protocol(), 17);
    assert_eq!(ip.checksum(), 0xA0B0);
    assert_eq!(&ip.to_bytes()[..12], &[0x45, 0x3c, 1, 2, 3, 4, 0x40, 0, 9, 17, 0xA0, 0xB0]);
}

#[test]
fn addresses_as_text_and_bytes() {
    let ip = test_ip_pdu();
    assert_eq!(ip.src_addr().to_str(), "192.0.2.1");
    assert_eq!(ip.dst_addr().to_str(), "198.51.100.2");
    assert_eq!(ip.dst_addr().octets(), [198, 51, 100, 2]);
    assert_eq!(ip.dst_addr().to_bits(), 0xC6336402);
    assert_eq!(Ipv4Address::from_bits(0).to_str(), "0.0.0.0");
    assert_eq!(Ipv4Address::from_bits(0xFFFF_FFFF).to_str(), "255.255.255.255");
    assert_eq!(Ipv4Address::from_bits(0x0A63_090A).to_str(), "10.99.9.10");
}

#[test]
fn writing_copies_and_leaves_the_capture_alone() {
    let capture = IPV4_TCP_HELLO;
    let mut ip = deserialize::<Ip>(&capture, &DissectionTables::standard()).unwrap();
    ip.set_ttl(1);
    assert_eq!(ip.ttl(), 1);
    assert_eq!(capture[8], 0x40);
}

#[test]
fn declared_header_longer_than_buffer_is_not_enough_data() {
    let mut bytes = [0u8; 20];
    bytes[0] = 0x4F;
    let r = Ip::from_bytes(&bytes, &DissectionTables::standard());
    assert_eq!(r.err(), Some(ParseError::NotEnoughData));
}

#[test]
fn declared_header_below_the_minimum_is_invalid() {
    let mut bytes = IPV4_TCP_HELLO;
    bytes[0] = 0x44;
    let r = Ip::from_bytes(&bytes, &DissectionTables::standard());
    assert_eq!(r.err(), Some(ParseError::InvalidHeader));
}

#[test]
fn fewer_than_twenty_bytes_are_not_enough_data() {
    let r = Ip::from_bytes(&IPV4_TCP_HELLO[..19], &DissectionTables::standard());
    assert_eq!(r.err(), Some(ParseError::NotEnoughData));
}

#[test]
fn new_datagram_is_twenty_zero_bytes() {
    let ip = Ip::new();
    assert_eq!(ip.to_bytes(), vec![0u8; 20]);
    assert_eq!(ip.version(), 0);
    assert!(ip.payload().is_empty());
}
