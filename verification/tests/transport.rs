use nexus::echo_reply::EchoReply;
use nexus::error::ParseError;
use nexus::pdu::{deserialize, Pdu};
use nexus::registry::DissectionTables;
use nexus::tcp::{get_data_offset, Tcp};
use nexus::udp::Udp;

const SEGMENT: [u8; 25] = [
    0x30, 0x39, // Src port = 12345
    0x00, 0x50, // Dst port = 80
    0x01, 0x02, 0x03, 0x04, // Seq number
    0x0A, 0x0B, 0x0C, 0x0D, // Ack number
    0x5A, 0x18, // Data offset (5), reserved, flags
    0xFF, 0xFE, // Window size
    0x12, 0x34, // Checksum
    0x56, 0x78, // Urgent pointer
    0x68, 0x65, 0x6C, 0x6C, 0x6F,
];

fn segment<'a>() -> Tcp<'a> {
    deserialize::<Tcp>(&SEGMENT, &DissectionTables::standard()).unwrap()
}

#[test]
fn tcp_getters() {
    let tcp = segment();
    assert_eq!(tcp.src_port(), 12345);
    assert_eq!(tcp.dst_port(), 80);
    assert_eq!(tcp.seq_number(), 0x01020304);
    assert_eq!(tcp.ack_number(), 0x0A0B0C0D);
    assert_eq!(tcp.data_offset(), 20);
    assert_eq!(tcp.reserved(), 0x0A);
    assert_eq!(tcp.flags(), 0x18);
    assert_eq!(tcp.window(), 0xFFFE);
    assert_eq!(tcp.checksum(), 0x1234);
    assert_eq!(tcp.urg_pointer(), 0x5678);
    assert_eq!(tcp.payload(), b"hello");
    assert_eq!(get_data_offset(&SEGMENT), 20);
}

#[test]
fn tcp_setters() {
    let mut tcp = segment();
    tcp.with_src_port(1)
        .with_dst_port(0x0203)
        .with_seq_number(0x04050607)
        .with_ack_number(0x08090A0B)
        .with_flags(0x02)
        .with_window(0x0C0D)
        .with_checksum(0x0E0F);
    tcp.set_urg_pointer(0x1011);
    assert_eq!(
        tcp.to_bytes(),
        vec![
            0, 1, 2, 3, 4, 5, 6, 7, 8, 9, 0xA, 0xB, 0x5A, 0x02, 0xC, 0xD, 0xE, 0xF, 0x10, 0x11,
            0x68, 0x65, 0x6C, 0x6C, 0x6F
        ]
    );
    assert_eq!(tcp.src_port(), 1);
    assert_eq!(tcp.ack_number(), 0x08090A0B);
    assert_eq!(tcp.urg_pointer(), 0x1011);
    assert_eq!(SEGMENT[1], 0x39);
}

#[test]
fn tcp_data_offset_and_reserved_share_a_byte() {
    for v1 in 0u8..16 {
        for v2 in 0u8..16 {
            let mut tcp = segment();
            tcp.set_data_offset(v1);
            assert_eq!(tcp.reserved(), 0x0A);
            assert_eq!(tcp.data_offset(), v1 * 4);
            tcp.set_reserved(v2);
            assert_eq!(tcp.data_offset(), v1 * 4);
            assert_eq!(tcp.reserved(), v2);
        }
    }
    let mut tcp = segment();
    tcp.with_data_offset(0xF6).with_reserved(0xF3);
    assert_eq!(tcp.data_offset(), 24);
    assert_eq!(tcp.reserved(), 3);
}

#[test]
fn tcp_header_length_is_checked() {
    let tables = DissectionTables::standard();
    assert_eq!(Tcp::from_bytes(&SEGMENT[..19], &tables).err(), Some(ParseError::NotEnoughData));
    let mut bytes = SEGMENT;
    bytes[12] = 0x70;
    assert_eq!(Tcp::from_bytes(&bytes, &tables).err(), Some(ParseError::NotEnoughData));
    bytes[12] = 0x60;
    let node = Tcp::from_bytes(&bytes, &tables).unwrap();
    assert_eq!(node.header().len(), 24);
    assert_eq!(node.payload(), b"o");
    bytes[12] = 0x00;
    assert_eq!(Tcp::from_bytes(&bytes, &tables).err(), Some(ParseError::InvalidHeader));
}

#[test]
fn udp_accessors() {
    let bytes = [0x00, 0x35, 0x13, 0x88, 0x00, 0x0A, 0xAB, 0xCD, b'h', b'i'];
    let mut udp = deserialize::<Udp>(&bytes, &DissectionTables::standard()).unwrap();
    assert_eq!(udp.src_port(), 53);
    assert_eq!(udp.dst_port(), 5000);
    assert_eq!(udp.length(), 10);
    assert_eq!(udp.checksum(), 0xABCD);
    assert_eq!(udp.payload(), b"hi");
    udp.with_src_port(0x0102).with_dst_port(0x0304).with_length(0x0506).with_checksum(0x0708);
    assert_eq!(udp.to_bytes(), vec![1, 2, 3, 4, 5, 6, 7, 8, b'h', b'i']);
    udp.set_src_port(9);
    udp.set_dst_port(10);
    udp.set_length(11);
    udp.set_checksum(12);
    assert_eq!(udp.to_bytes(), vec![0, 9, 0, 10, 0, 11, 0, 12, b'h', b'i']);
}

#[test]
fn echo_reply_accessors() {
    let mut reply = EchoReply::new();
    assert_eq!(reply.id(), 0);
    assert_eq!(reply.seq_number(), 0);
    assert!(reply.data().is_empty());
    reply.with_id(0x0102).with_seq_number(0x0304).with_data(b"abc");
    assert_eq!(reply.id(), 0x0102);
    assert_eq!(reply.seq_number(), 0x0304);
    assert_eq!(reply.data(), b"abc");
    assert_eq!(reply.to_bytes(), vec![1, 2, 3, 4, b'a', b'b', b'c']);
    reply.set_id(5);
    reply.set_seq_number(6);
    reply.set_data(b"");
    assert_eq!(reply.to_bytes(), vec![0, 5, 0, 6]);

    let tables = DissectionTables::standard();
    let bytes = [0, 7, 0, 9, b'x'];
    let decoded = deserialize::<EchoReply>(&bytes, &tables).unwrap();
    assert_eq!(decoded.id(), 7);
    assert_eq!(decoded.seq_number(), 9);
    assert_eq!(decoded.data(), b"x");
    assert_eq!(EchoReply::from_bytes(&bytes[..3], &tables).err(), Some(ParseError::NotEnoughData));
}
