use nexus::error::ParseError;
use nexus::ip::Ip;
use nexus::ip_opt::{
    get_ip_opt_length, get_ip_opt_type, IpOption, END, ITS, LSR, NOP, REC, SEC, SID, SSR,
};
use nexus::pdu::{deserialize, Pdu};
use nexus::registry::DissectionTables;
use nexus::tid::TypeTag;

const IPV4_NO_OPTIONS: &[u8] = &[
    0x45, 0x00, // Version=4, IHL=5, DSCP/ECN
    0x00, 0x1c, // Total Length = 28 bytes
    0x12, 0x34, // Identification
    0x40, 0x00, // Flags=DF, Fragment Offset
    0x40, // TTL=64
    0x06, // Protocol=TCP
    0xb9, 0xe6, // Header checksum
    0xc0, 0xa8, 0x00, 0x01, // Src = 192.168.0.1
    0xc0, 0xa8, 0x00, 0x02, // Dst = 192.168.0.2
    0xde, 0xad, 0xbe, 0xef, // Payload (4 bytes)
];

const IPV4_RR: &[u8] = &[
    0x47, 0x00, // Version=4, IHL=7 (28 bytes header)
    0x00, 0x24, // Total Length = 36 bytes
    0xab, 0xcd, // Identification
    0x00, 0x00, // Flags/Fragment offset
    0x40, // TTL=64
    0x11, // Protocol=UDP
    0x67, 0x2b, // Header checksum
    0x0a, 0x00, 0x00, 0x01, // Src = 10.0.0.1
    0x0a, 0x00, 0x00, 0x02, // Dst = 10.0.0.2
    // ---- IPv4 OPTIONS (8 bytes) ----
    0x07, // RR (type 7)
    0x07, // Length = 7 bytes
    0x04, // Pointer = 4 (next entry location)
    0x00, 0x00, 0x00, 0x00, // Space for 1 route address (unused)
    0x00, // End of Options List (EOL)
    // Payload
    0xaa, 0xbb, 0xcc, 0xdd, 0xee, 0xff, 0x01, 0x02,
];

const IPV4_MIXED_OPTIONS: &[u8] = &[
    0x48, 0x00, // Version=4, IHL=8
    0x00, 0x28, // Total Length = 40 bytes
    0xde, 0xad, 0x00, 0x00, 0x40, 0x01, // TTL, Protocol=ICMP
    0x15, 0x7a, // Checksum
    0x7f, 0x00, 0x00, 0x01, // Src 127.0.0.1
    0x7f, 0x00, 0x00, 0x01, // Dst 127.0.0.1
    // ---- Options (12 bytes) ----
    0x01, // NOP
    0x01, // NOP again
    0x07, 0x07, 0x04, // RR (type=7, len=7, pointer=4)
    0x00, 0x00, 0x00, 0x00, // 1 RR entry (empty)
    0x00, // EOL
    0x00, 0x00, 0x00, // Padding to 32-byte header
    // Payload (8 bytes)
    0xaa, 0xaa, 0xaa, 0xaa, 0xbb, 0xbb, 0xbb, 0xbb,
];

const IPV4_TS: &[u8] = &[
    0x48, 0x00, // Version=4, IHL=8
    0x00, 0x28, // Total Length
    0x55, 0x55, 0x00, 0x00, 0x40, 0x11, // TTL=64, UDP
    0x3a, 0x79, // Header checksum
    0xc0, 0xa8, 0x00, 0x64, // Src 192.168.0.100
    0xc0, 0xa8, 0x00, 0x65, // Dst 192.168.0.101
    // ---- Timestamp option (10 bytes) ----
    0x44, // Type = Timestamp
    0x0a, // Length = 10
    0x05, // Pointer = 5 (next timestamp slot)
    0x00, // Overflow + flags = 0
    0x00, 0x00, 0x00, 0x01, // Timestamp entry (1)
    0x00, 0x00, // Padding to IHL
    // Payload
    0xde, 0xad, 0xfa, 0xce, 0x12, 0x34, 0x56, 0x78,
];

const IPV4_SECURITY: &[u8] = &[
    0x48, 0x00, // Version=4, IHL=8
    0x00, 0x28, // Total length
    0x01, 0x23, 0x00, 0x00, 0x40, 0x06, // TTL=64, TCP
    0x6d, 0xbd, // Header checksum
    0xac, 0x10, 0x00, 0x01, // Src 172.16.0.1
    0xac, 0x10, 0x00, 0x02, // Dst 172.16.0.2
    // ---- Security Option (11 bytes) ----
    0x82, // Type = Security
    0x0b, // Length = 11 bytes
    0xf1, 0xf0, // Security
    0x00, 0x00, // Compartment
    0x00, 0x00, // Handling restrictions
    0x00, 0x01, // TCC
    0x00, // Padding to 32 bytes
    // Payload (8 bytes)
    0xaa, 0xbb, 0xcc, 0xdd, 0xee, 0xff, 0x11, 0x22,
];

fn options_of(datagram: &[u8]) -> Vec<u8> {
    let ip = deserialize::<Ip>(datagram, &DissectionTables::new()).unwrap();
    ip.to_bytes()[20..ip.ihl() as usize * 4].to_vec()
}

#[test]
fn test_no_opt() {
    let ip = deserialize::<Ip>(IPV4_NO_OPTIONS, &DissectionTables::new()).unwrap();
    assert_eq!(ip.ihl(), 5);
    assert_eq!(ip.payload(), &[0xde, 0xad, 0xbe, 0xef]);
    assert!(options_of(IPV4_NO_OPTIONS).is_empty());
    assert_eq!(get_ip_opt_length(&[]), Err(ParseError::NotEnoughData));
}

#[test]
fn test_rr_opt() {
    let options = options_of(IPV4_RR);
    assert_eq!(options.len(), 8);
    assert_eq!(get_ip_opt_type(&options), REC);
    assert_eq!(get_ip_opt_length(&options), Ok(9));
    assert_eq!(get_ip_opt_length(&options[..1]), Err(ParseError::NotEnoughData));
}

#[test]
fn test_mixed_opt() {
    let options = options_of(IPV4_MIXED_OPTIONS);
    assert_eq!(options.len(), 12);
    assert_eq!(get_ip_opt_type(&options), NOP);
    assert_eq!(get_ip_opt_length(&options), Ok(1));
    assert_eq!(get_ip_opt_length(&options[1..]), Ok(1));
    assert_eq!(get_ip_opt_type(&options[2..]), REC);
    assert_eq!(get_ip_opt_length(&options[2..]), Ok(9));
    assert_eq!(get_ip_opt_type(&options[9..]), END);
    assert_eq!(get_ip_opt_length(&options[9..]), Ok(1));
}

#[test]
fn test_ts_opt() {
    let options = options_of(IPV4_TS);
    assert_eq!(options.len(), 12);
    assert_eq!(get_ip_opt_type(&options), 0x44);
    assert_eq!(get_ip_opt_length(&options), Err(ParseError::UnsupportedProtocol));
}

#[test]
fn test_sec_opt() {
    let options = options_of(IPV4_SECURITY);
    assert_eq!(options.len(), 12);
    assert_eq!(get_ip_opt_type(&options), 0x82);
    assert_eq!(get_ip_opt_length(&options), Err(ParseError::UnsupportedProtocol));
}

#[test]
fn option_length_by_type() {
    assert_eq!(get_ip_opt_length(&[END]), Ok(1));
    assert_eq!(get_ip_opt_length(&[NOP]), Ok(1));
    assert_eq!(get_ip_opt_length(&[SEC]), Ok(11));
    assert_eq!(get_ip_opt_length(&[SID]), Ok(4));
    assert_eq!(get_ip_opt_length(&[LSR, 5]), Ok(7));
    assert_eq!(get_ip_opt_length(&[ITS, 0]), Ok(2));
    assert_eq!(get_ip_opt_length(&[SSR, 255]), Ok(257));
    assert_eq!(get_ip_opt_length(&[REC, 3]), Ok(5));
    assert_eq!(get_ip_opt_length(&[LSR]), Err(ParseError::NotEnoughData));
    assert_eq!(get_ip_opt_length(&[5, 9]), Err(ParseError::UnsupportedProtocol));
}

#[test]
fn option_fields() {
    let mut opt = IpOption::new();
    assert_eq!(opt.opt_type(), 0);
    assert_eq!(opt.opt_length(), 0);
    opt.with_opt_type(REC).with_opt_length(7);
    assert_eq!(opt.opt_type(), REC);
    assert_eq!(opt.opt_length(), 7);
    opt.set_opt_data(&[1, 2]);
    opt.with_opt_data(&[3]);
    assert_eq!(opt.to_bytes(), vec![REC, 7, 1, 2, 3]);
}

#[test]
fn option_data_is_cut_from_the_header() {
    let bytes = [0x07, 0x07, 0x04, 0xA, 0xB, 0xC, 0xD, 0x00];
    let node = IpOption::from_bytes(&bytes, &DissectionTables::standard()).unwrap();
    assert_eq!(node.self_id(), TypeTag::IpOption);
    let opt = node.downcast::<IpOption>().unwrap();
    assert_eq!(opt.opt_type(), 7);
    assert_eq!(opt.opt_length(), 7);
    assert_eq!(opt.opt_data(), &[0xA, 0xB, 0xC, 0xD]);
    assert_eq!(opt.to_bytes(), bytes.to_vec());
}

#[test]
fn option_needs_type_and_length() {
    let r = IpOption::from_bytes(&[1], &DissectionTables::standard());
    assert_eq!(r.err(), Some(ParseError::NotEnoughData));
}
