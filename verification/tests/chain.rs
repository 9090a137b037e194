use nexus::chain::{build_from_table, decode};
use nexus::error::ParseError;
use nexus::ethernet::{get_ether_type, EtherType, Ethernet};
use nexus::icmp::{ControlMessage, Icmp, IcmpType};
use nexus::ip::{Ip, Ipv4Address, Ipv4Type};
use nexus::ip6::{Ipv6, Ipv6Type};
use nexus::json::Value;
use nexus::pdu::{deserialize, Node, Pdu};
use nexus::raw::Raw;
use nexus::registry::DissectionTables;
use nexus::table::{create_table, Dissect, DissectionTable};
use nexus::tcp::Tcp;
use nexus::tid::{Tid, TypeTag};
use nexus::udp::Udp;

const FRAME: [u8; 59] = [
    // Ethernet: destination, source, EtherType
    0x00, 0x11, 0x22, 0x33, 0x44, 0x55, 0x66, 0x77, 0x88, 0x99, 0xAA, 0xBB, 0x08, 0x00,
    // IPv4
    0x45, 0x3c, 0x00, 0x2D, 0x1C, 0x46, 0x40, 0x00, 0x40, 0x06, 0x32, 0x4E, 0xC0, 0x00, 0x02, 0x01,
    0xC6, 0x33, 0x64, 0x02,
    // TCP
    0x30, 0x39, 0x00, 0x50, 0x01, 0x02, 0x03, 0x04, 0x00, 0x00, 0x00, 0x00, 0x50, 0x18, 0xFF, 0xFF,
    0x00, 0x00, 0x00, 0x00,
    // "hello"
    0x68, 0x65, 0x6C, 0x6C, 0x6F,
];

fn tags_of(node: &Node) -> Vec<TypeTag> {
    let mut tags = Vec::new();
    node.pdu_chain(&mut tags);
    tags
}

#[test]
fn ethernet_ip_tcp_chain() {
    let tables = DissectionTables::standard();
    let root = Ethernet::from_bytes(&FRAME, &tables).unwrap();
    assert_eq!(tags_of(&root), vec![TypeTag::Ethernet, TypeTag::Ip, TypeTag::Tcp]);

    let eth = root.find::<Ethernet>().unwrap();
    assert_eq!(eth.dst_addr().to_str(), "00:11:22:33:44:55");
    assert_eq!(eth.src_addr().to_str(), "66:77:88:99:AA:BB");
    assert_eq!(eth.ether_type(), 0x0800);
    assert_eq!(eth.payload(), &FRAME[14..]);

    let ip = root.find::<Ip>().unwrap();
    assert_eq!(ip.version(), 4);
    assert_eq!(ip.ihl(), 5);
    assert_eq!(ip.protocol(), 6);
    assert_eq!(ip.src_addr(), Ipv4Address::from_bits(0xC0000201));
    assert_eq!(ip.src_addr().to_str(), "192.0.2.1");
    assert_eq!(ip.dst_addr().to_str(), "198.51.100.2");

    let tcp = root.find::<Tcp>().unwrap();
    assert_eq!(tcp.src_port(), 12345);
    assert_eq!(tcp.dst_port(), 80);
    assert_eq!(tcp.payload(), b"hello");
    assert!(tcp.child_pdu().is_none());
}

#[test]
fn projection_of_the_chain() {
    let tables = DissectionTables::standard();
    let root = Ethernet::from_bytes(&FRAME, &tables).unwrap();
    let doc = root.to_json();
    let eth = doc.get("eth").unwrap();
    assert_eq!(eth.get("eth.type"), Some(&Value::Number(2048)));
    assert_eq!(eth.get("eth.src_addr"), Some(&Value::Text("66:77:88:99:AA:BB".to_string())));
    assert_eq!(eth.get("eth.dst_addr"), Some(&Value::Text("00:11:22:33:44:55".to_string())));
    let ip = eth.get("eth.data").unwrap().get("ip").unwrap();
    assert_eq!(ip.get("ip.protocol"), Some(&Value::Number(6)));
    assert_eq!(ip.get("ip.version"), Some(&Value::Number(4)));
    assert_eq!(ip.get("ip.ihl"), Some(&Value::Number(5)));
    assert_eq!(ip.get("ip.tos"), Some(&Value::Number(0x3c)));
    assert_eq!(ip.get("ip.total_len"), Some(&Value::Number(45)));
    assert_eq!(ip.get("ip.id"), Some(&Value::Number(0x1C46)));
    assert_eq!(ip.get("ip.flags"), Some(&Value::Number(2)));
    assert_eq!(ip.get("ip.frag_offset"), Some(&Value::Number(0)));
    assert_eq!(ip.get("ip.ttl"), Some(&Value::Number(64)));
    assert_eq!(ip.get("ip.checksum"), Some(&Value::Number(0x324E)));
    assert_eq!(ip.get("ip.src_addr"), Some(&Value::Text("192.0.2.1".to_string())));
    assert_eq!(ip.get("ip.dst_addr"), Some(&Value::Text("198.51.100.2".to_string())));
    let tcp = ip.get("ip.data").unwrap();
    let expected_tcp = Value::Object(vec![(
        "tcp".to_string(),
        Value::Object(vec![
            ("tcp.sport".to_string(), Value::Number(12345)),
            ("tcp.dport".to_string(), Value::Number(80)),
            ("tcp.seq_number".to_string(), Value::Number(0x01020304)),
            ("tcp.ack_number".to_string(), Value::Number(0)),
            ("tcp.data_offset".to_string(), Value::Number(20)),
            ("tcp.reserved".to_string(), Value::Number(0)),
            ("tcp.flags".to_string(), Value::Number(0x18)),
            ("tcp.window".to_string(), Value::Number(0xFFFF)),
            ("tcp.checksum".to_string(), Value::Number(0)),
            ("tcp.urg_pointer".to_string(), Value::Number(0)),
            ("tcp.data".to_string(), Value::Text("hello".to_string())),
        ]),
    )]);
    assert_eq!(tcp, &expected_tcp);

    let found_ip = root.find::<Ip>().unwrap();
    assert_eq!(found_ip.to_json().get("ip"), Some(ip));
    assert_eq!(found_ip.child_to_json(), expected_tcp);
    assert_eq!(root.find::<Tcp>().unwrap().to_json(), expected_tcp);
    assert_eq!(root.child_to_json().get("ip"), Some(ip));
}

#[test]
fn decoding_the_encoding_gives_the_same_chain() {
    let tables = DissectionTables::standard();
    let first = Ethernet::from_bytes(&FRAME, &tables).unwrap();
    let encoded = first.to_bytes();
    assert_eq!(encoded, FRAME.to_vec());
    let second = Ethernet::from_bytes(&encoded, &tables).unwrap();
    assert_eq!(second.header(), first.header());
    assert_eq!(tags_of(&second), tags_of(&first));
    assert_eq!(second.to_json(), first.to_json());
    assert_eq!(second.to_bytes(), encoded);
}

#[test]
fn encoding_follows_the_fields() {
    let tables = DissectionTables::standard();
    let mut root = Ethernet::from_bytes(&FRAME, &tables).unwrap();
    root.find_mut::<Ethernet>().unwrap().set_ether_type(0x86DD);
    let encoded = root.to_bytes();
    assert_eq!(&encoded[12..14], &[0x86, 0xDD]);
    assert_eq!(get_ether_type(&encoded), 0x86DD);
    assert_eq!(&encoded[..12], &FRAME[..12]);
    assert_eq!(&encoded[14..], &FRAME[14..]);
}

#[test]
fn short_ethernet_frame_is_not_enough_data() {
    let tables = DissectionTables::standard();
    for len in 0..14 {
        let r = Ethernet::from_bytes(&FRAME[..len], &tables);
        assert_eq!(r.err(), Some(ParseError::NotEnoughData));
    }
    assert!(Ethernet::from_bytes(&FRAME[..14], &tables).is_err());
}

#[test]
fn failure_of_an_inner_layer_fails_the_chain() {
    let tables = DissectionTables::standard();
    // The IPv4 header is cut short.
    let r = Ethernet::from_bytes(&FRAME[..30], &tables);
    assert_eq!(r.err(), Some(ParseError::NotEnoughData));
    // The TCP header is cut short.
    let r = Ethernet::from_bytes(&FRAME[..50], &tables);
    assert_eq!(r.err(), Some(ParseError::NotEnoughData));
    // The TCP header declares fewer bytes than a TCP header has.
    let mut bytes = FRAME;
    bytes[46] = 0x40;
    let r = Ethernet::from_bytes(&bytes, &tables);
    assert_eq!(r.err(), Some(ParseError::InvalidHeader));
    // The TCP header declares more bytes than there are.
    bytes[46] = 0xF0;
    let r = Ethernet::from_bytes(&bytes, &tables);
    assert_eq!(r.err(), Some(ParseError::NotEnoughData));
}

#[test]
fn unknown_protocol_becomes_an_opaque_node() {
    let tables = DissectionTables::standard();
    let mut bytes = FRAME;
    bytes[12] = 0x08;
    bytes[13] = 0x06;
    let root = Ethernet::from_bytes(&bytes, &tables).unwrap();
    assert_eq!(tags_of(&root), vec![TypeTag::Ethernet, TypeTag::Raw]);
    let raw = root.find::<Raw>().unwrap();
    assert_eq!(raw.bytes(), &FRAME[14..]);
    assert_eq!(raw.to_bytes(), FRAME[14..].to_vec());
    assert_eq!(root.to_bytes(), bytes.to_vec());
    let text = raw.to_json();
    let shown = text.get("raw").unwrap().get("raw.data").unwrap();
    assert_eq!(
        shown,
        &Value::Text("E<.-.F@.@.2N.....3d.09.P........P.......hello".to_string())
    );
}

#[test]
fn build_falls_back_for_any_bytes() {
    let tables = DissectionTables::standard();
    let table: DissectionTable<u16> = create_table();
    for bytes in [&[][..], &[0xFF][..], &FRAME[..]] {
        let node = build_from_table(&table, 7, bytes, &tables).unwrap();
        assert_eq!(node.self_id(), TypeTag::Raw);
        assert_eq!(node.header(), bytes);
        assert!(node.payload().is_empty());
        assert!(node.child_pdu().is_none());
        assert_eq!(node.to_bytes(), bytes.to_vec());
    }
}

#[test]
fn build_without_fallback_is_unsupported() {
    let tables = DissectionTables::standard();
    let mut table: DissectionTable<u16> = create_table();
    assert!(table.has_fallback());
    table.set_fallback(false);
    assert!(!table.has_fallback());
    let r = build_from_table(&table, 7, &FRAME, &tables);
    assert_eq!(r.err(), Some(ParseError::UnsupportedProtocol));
    table.add::<Raw>(7);
    let node = build_from_table(&table, 7, &FRAME, &tables).unwrap();
    assert_eq!(node.self_id(), TypeTag::Raw);

    let mut strict = DissectionTables::standard();
    strict.ipv4.set_fallback(false);
    let mut bytes = FRAME;
    bytes[23] = 0x2F;
    let r = Ethernet::from_bytes(&bytes, &strict);
    assert_eq!(r.err(), Some(ParseError::UnsupportedProtocol));
    let lenient = DissectionTables::standard();
    let root = Ethernet::from_bytes(&bytes, &lenient).unwrap();
    assert_eq!(tags_of(&root), vec![TypeTag::Ethernet, TypeTag::Ip, TypeTag::Raw]);
}

#[test]
fn build_uses_the_registered_decoder() {
    let tables = DissectionTables::standard();
    let node = build_from_table(&tables.ether, EtherType(0x0800), &FRAME[14..], &tables).unwrap();
    assert_eq!(tags_of(&node), vec![TypeTag::Ip, TypeTag::Tcp]);
    let node = build_from_table(&tables.ipv4, Ipv4Type(6), &FRAME[34..], &tables).unwrap();
    assert_eq!(tags_of(&node), vec![TypeTag::Tcp]);
    let r = build_from_table(&tables.ipv4, Ipv4Type(6), &FRAME[50..], &tables);
    assert_eq!(r.err(), Some(ParseError::NotEnoughData));
}

#[test]
fn empty_tables_stop_after_one_layer() {
    let tables = DissectionTables::new();
    let root = decode(TypeTag::Ethernet, &FRAME, &tables).unwrap();
    assert_eq!(tags_of(&root), vec![TypeTag::Ethernet, TypeTag::Raw]);
}

#[test]
fn ip_options_belong_to_the_header() {
    let mut bytes = Vec::new();
    bytes.extend_from_slice(&FRAME[14..34]);
    bytes[0] = 0x46;
    bytes.extend_from_slice(&[1, 1, 1, 0]);
    bytes.extend_from_slice(&FRAME[34..]);
    let tables = DissectionTables::standard();
    let node = Ip::from_bytes(&bytes, &tables).unwrap();
    assert_eq!(node.header().len(), 24);
    assert_eq!(tags_of(&node), vec![TypeTag::Ip, TypeTag::Tcp]);
    assert_eq!(node.find::<Tcp>().unwrap().dst_port(), 80);
    assert_eq!(node.to_bytes(), bytes);
}

#[test]
fn udp_over_ipv4_and_ipv6() {
    let udp = [0x00, 0x35, 0x13, 0x88, 0x00, 0x0B, 0xAB, 0xCD, b'a', b'b', b'c'];
    let tables = DissectionTables::standard();

    let mut v4 = FRAME[14..34].to_vec();
    v4[9] = 0x11;
    v4.extend_from_slice(&udp);
    let node = Ip::from_bytes(&v4, &tables).unwrap();
    assert_eq!(tags_of(&node), vec![TypeTag::Ip, TypeTag::Udp]);
    let found = node.find::<Udp>().unwrap();
    assert_eq!(found.src_port(), 53);
    assert_eq!(found.dst_port(), 5000);
    assert_eq!(found.length(), 11);
    assert_eq!(found.checksum(), 0xABCD);
    assert_eq!(found.payload(), b"abc");

    let mut v6 = vec![0u8; 40];
    v6[0] = 0x60;
    v6[6] = 0x11;
    v6.extend_from_slice(&udp);
    let node = Ipv6::from_bytes(&v6, &tables).unwrap();
    assert_eq!(tags_of(&node), vec![TypeTag::Ipv6, TypeTag::Udp]);
    assert_eq!(node.to_bytes(), v6);
    let doc = node.to_json();
    let inner = doc.get("ipv6").unwrap().get("ipv6.data").unwrap().get("udp").unwrap();
    assert_eq!(inner.get("udp.sport"), Some(&Value::Number(53)));
    assert_eq!(inner.get("udp.dport"), Some(&Value::Number(5000)));
    assert_eq!(inner.get("udp.length"), Some(&Value::Number(11)));
    assert_eq!(inner.get("udp.checksum"), Some(&Value::Number(0xABCD)));
    assert_eq!(inner.get("udp.data"), Some(&Value::Text("abc".to_string())));

    let r = Ipv6::from_bytes(&v6[..39], &tables);
    assert_eq!(r.err(), Some(ParseError::NotEnoughData));
    let r = Udp::from_bytes(&udp[..7], &tables);
    assert_eq!(r.err(), Some(ParseError::NotEnoughData));

    let mut framed = FRAME[..14].to_vec();
    framed[12] = 0x86;
    framed[13] = 0xDD;
    framed.extend_from_slice(&v6);
    let root = Ethernet::from_bytes(&framed, &tables).unwrap();
    assert_eq!(tags_of(&root), vec![TypeTag::Ethernet, TypeTag::Ipv6, TypeTag::Udp]);
}

#[test]
fn icmp_message_with_echo_reply() {
    let bytes = [0x00, 0x03, 0x12, 0x34, 0x00, 0x07, 0x00, 0x09, b'p', b'i', b'n', b'g'];
    let tables = DissectionTables::standard();
    let node = Icmp::from_bytes(&bytes, &tables).unwrap();
    assert_eq!(tags_of(&node), vec![TypeTag::Icmp, TypeTag::EchoReply]);
    let icmp = node.find::<Icmp>().unwrap();
    assert_eq!(icmp.msg_type(), 0);
    assert_eq!(icmp.msg_code(), 3);
    assert_eq!(icmp.control_message(), ControlMessage::EchoReply);
    assert_eq!(icmp.payload(), &bytes[4..]);
    assert_eq!(node.to_bytes(), bytes.to_vec());
    let doc = node.to_json();
    let inner = doc.get("icmp").unwrap();
    assert_eq!(inner.get("icmp.type"), Some(&Value::Number(0)));
    assert_eq!(inner.get("icmp.code"), Some(&Value::Number(3)));
    let reply = inner.get("icmp.data").unwrap().get("echo_reply").unwrap();
    assert_eq!(reply.get("echo_reply.id"), Some(&Value::Number(7)));
    assert_eq!(reply.get("echo_reply.seq_number"), Some(&Value::Number(9)));
    assert_eq!(reply.get("echo_reply.data"), Some(&Value::Text("ping".to_string())));

    let mut request = bytes;
    request[0] = 8;
    let node = Icmp::from_bytes(&request, &tables).unwrap();
    assert_eq!(tags_of(&node), vec![TypeTag::Icmp, TypeTag::Raw]);
    assert_eq!(node.find::<Icmp>().unwrap().control_message(), ControlMessage::EchoRequest);

    let r = Icmp::from_bytes(&bytes[..3], &tables);
    assert_eq!(r.err(), Some(ParseError::NotEnoughData));
    let r = Icmp::from_bytes(&bytes[..6], &tables);
    assert_eq!(r.err(), Some(ParseError::NotEnoughData));
}

#[test]
fn control_message_kinds() {
    let known = [
        (0, ControlMessage::EchoReply),
        (3, ControlMessage::DestUnreachable),
        (5, ControlMessage::RedirectMessage),
        (8, ControlMessage::EchoRequest),
        (9, ControlMessage::RouterAdvertisement),
        (10, ControlMessage::RouterSolicitation),
        (11, ControlMessage::TimeExceeded),
        (12, ControlMessage::ParameterProblem),
        (13, ControlMessage::Timestamp),
        (14, ControlMessage::TimestampReply),
        (42, ControlMessage::ExtEchoRequest),
        (43, ControlMessage::ExtEchoReply),
    ];
    for t in 0..=255u8 {
        let expected = known
            .iter()
            .find(|(n, _)| *n == t)
            .map(|(_, m)| *m)
            .unwrap_or(ControlMessage::Undefined);
        assert_eq!(ControlMessage::from_type(t), expected);
    }
}

#[test]
fn deserialize_hands_out_the_typed_node() {
    let tables = DissectionTables::standard();
    let eth = deserialize::<Ethernet>(&FRAME, &tables).unwrap();
    assert_eq!(eth.ether_type(), 0x0800);
    assert!(deserialize::<Ethernet>(&FRAME[..10], &tables).is_none());
    let tcp = deserialize::<Tcp>(&FRAME[34..], &tables).unwrap();
    assert_eq!(tcp.seq_number(), 0x01020304);
}

#[test]
fn tables_can_be_rearranged() {
    let mut tables = DissectionTables::new();
    tables.ether.add::<Udp>(EtherType(0x0800));
    tables.ipv6.add::<Ip>(Ipv6Type(4));
    tables.icmp.add::<Udp>(IcmpType(200));
    let root = Ethernet::from_bytes(&FRAME, &tables).unwrap();
    assert_eq!(tags_of(&root), vec![TypeTag::Ethernet, TypeTag::Udp]);
    assert_eq!(root.child_pdu().unwrap().header(), &FRAME[14..22]);
    assert_eq!(root.find::<Udp>().unwrap().src_port(), 0x453c);
    assert_eq!(root.to_bytes(), FRAME.to_vec());

    let mut v6 = vec![0u8; 40];
    v6[6] = 4;
    v6.extend_from_slice(&FRAME[14..]);
    let node = Ipv6::from_bytes(&v6, &tables).unwrap();
    assert_eq!(tags_of(&node), vec![TypeTag::Ipv6, TypeTag::Ip, TypeTag::Raw]);
}

#[test]
fn opaque_node_from_bytes() {
    let tables = DissectionTables::standard();
    let raw = Raw::new(b"abc");
    assert_eq!(raw.bytes(), b"abc");
    assert_eq!(raw.self_id(), TypeTag::Raw);
    assert!(raw.child_pdu().is_none());
    let node = Raw::from_bytes(&[], &tables).unwrap();
    assert!(node.header().is_empty());
    assert_eq!(node.to_bytes(), Vec::<u8>::new());
    let mut v6 = [0u8; 40];
    v6[6] = 59;
    let ip6 = deserialize::<Ipv6>(&v6, &tables).unwrap();
    assert_eq!(ip6.next_header(), 59);
    assert!(ip6.payload().is_empty());
}
