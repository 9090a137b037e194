use nexus::echo_reply::EchoReply;
use nexus::ethernet::Ethernet;
use nexus::icmp::Icmp;
use nexus::ip::Ip;
use nexus::ip6::Ipv6;
use nexus::ip_opt::IpOption;
use nexus::packet::Packet;
use nexus::pdu::{Node, Pdu, PobOwned};
use nexus::raw::Raw;
use nexus::registry::DissectionTables;
use nexus::tcp::Tcp;
use nexus::tid::{Tid, TypeTag};
use nexus::udp::Udp;

const FRAME: [u8; 59] = [
    0x00, 0x11, 0x22, 0x33, 0x44, 0x55, 0x66, 0x77, 0x88, 0x99, 0xAA, 0xBB, 0x08, 0x00, 0x45, 0x3c,
    0x00, 0x2D, 0x1C, 0x46, 0x40, 0x00, 0x40, 0x06, 0x32, 0x4E, 0xC0, 0x00, 0x02, 0x01, 0xC6, 0x33,
    0x64, 0x02, 0x30, 0x39, 0x00, 0x50, 0x01, 0x02, 0x03, 0x04, 0x00, 0x00, 0x00, 0x00, 0x50, 0x18,
    0xFF, 0xFF, 0x00, 0x00, 0x00, 0x00, 0x68, 0x65, 0x6C, 0x6C, 0x6F,
];

#[test]
fn pdu_test_downcast() {
    let eth: Node = Ethernet::new().into_node();
    let res = eth.downcast::<Ethernet>();
    assert!(res.is_ok());

    let eth_inv: Node = Ip::new().into_node();
    let res = eth_inv.downcast::<Ethernet>();
    assert!(!res.is_ok());
}

#[test]
fn pdu_test_downcast_mut() {
    let mut eth: Node = Ethernet::new().into_node();
    let res = eth.downcast_mut::<Ethernet>();
    assert!(res.is_some());

    let eth_inv: Node = Ip::new().into_node();
    let res = eth_inv.downcast_ref::<Ethernet>();
    assert!(!res.is_some());
}

#[test]
fn test_pdu() {
    let packet = Packet::new(vec![Ethernet::new().into_node(), Ip::new().into_node()]);
    let mut n = 0;
    for _pdu in packet.pdu_chain {
        n += 1;
    }
    assert_eq!(n, 2);
}

#[test]
fn failed_owning_downcast_hands_the_node_back() {
    let node = Ip::new().into_node();
    match node.downcast::<Tcp>() {
        Ok(_) => panic!("an IPv4 datagram is no TCP segment"),
        Err(back) => {
            assert_eq!(back.self_id(), TypeTag::Ip);
            assert_eq!(back.to_bytes(), vec![0u8; 20]);
        }
    }
}

#[test]
fn downcast_succeeds_for_the_own_type_only() {
    let tables = DissectionTables::standard();
    let root = Ethernet::from_bytes(&FRAME, &tables).unwrap();
    assert!(root.downcast_ref::<Ethernet>().is_some());
    assert!(root.downcast_ref::<Ip>().is_none());
    assert!(root.downcast_ref::<Ipv6>().is_none());
    assert!(root.downcast_ref::<IpOption>().is_none());
    assert!(root.downcast_ref::<Icmp>().is_none());
    assert!(root.downcast_ref::<EchoReply>().is_none());
    assert!(root.downcast_ref::<Tcp>().is_none());
    assert!(root.downcast_ref::<Udp>().is_none());
    assert!(root.downcast_ref::<Raw>().is_none());
    let ip = root.child_pdu().unwrap();
    assert!(ip.downcast_ref::<Ip>().is_some());
    assert!(ip.downcast_ref::<Ethernet>().is_none());
}

#[test]
fn tags_tell_the_types_apart() {
    let tags = [
        Ethernet::id(),
        <Ip as Tid>::id(),
        Ipv6::id(),
        IpOption::id(),
        Icmp::id(),
        <EchoReply as Tid>::id(),
        Tcp::id(),
        Udp::id(),
        Raw::id(),
    ];
    for i in 0..tags.len() {
        for j in 0..tags.len() {
            assert_eq!(tags[i] == tags[j], i == j);
        }
    }
    assert_eq!(Ethernet::new().self_id(), Ethernet::id());
    assert_eq!(Ethernet::id(), Ethernet::id());
}

#[test]
fn find_walks_down_the_chain() {
    let tables = DissectionTables::standard();
    let root = Ethernet::from_bytes(&FRAME, &tables).unwrap();
    assert!(root.find::<Ethernet>().is_some());
    assert_eq!(root.find::<Ip>().unwrap().protocol(), 6);
    assert_eq!(root.find::<Tcp>().unwrap().dst_port(), 80);
    assert!(root.find::<Udp>().is_none());
    assert!(root.find::<Raw>().is_none());
    let ip = root.child_pdu().unwrap();
    assert!(ip.find::<Ethernet>().is_none());
    assert!(ip.find::<Tcp>().is_some());
}

#[test]
fn decoding_copies_nothing_and_writing_copies_once() {
    let tables = DissectionTables::standard();
    let mut root = Ethernet::from_bytes(&FRAME, &tables).unwrap();
    assert!(root.is_zero_copy());
    assert!(root.child_pdu().unwrap().is_zero_copy());
    root.find_mut::<Tcp>().unwrap().set_window(1);
    assert!(!root.is_zero_copy());
    assert!(!root.child_pdu().unwrap().is_zero_copy());
    assert_eq!(FRAME[48], 0xFF);
    assert!(!root.to_owned().is_zero_copy());
    assert!(!Ethernet::new().into_node().is_zero_copy());
}

#[test]
fn find_mut_writes_into_the_chain() {
    let tables = DissectionTables::standard();
    let mut root = Ethernet::from_bytes(&FRAME, &tables).unwrap();
    root.find_mut::<Tcp>().unwrap().set_dst_port(8080);
    root.find_mut::<Ip>().unwrap().set_ttl(7);
    assert!(root.find_mut::<Udp>().is_none());
    assert_eq!(root.find::<Tcp>().unwrap().dst_port(), 8080);
    let mut expected = FRAME.to_vec();
    expected[22] = 7;
    expected[36] = 0x1F;
    expected[37] = 0x90;
    assert_eq!(root.to_bytes(), expected);
    assert_eq!(FRAME[22], 0x40);
}

#[test]
fn chain_of_tags_and_layers() {
    let tables = DissectionTables::standard();
    let root = Ethernet::from_bytes(&FRAME, &tables).unwrap();
    let mut tags = vec![TypeTag::Raw];
    root.pdu_chain(&mut tags);
    assert_eq!(tags, vec![TypeTag::Raw, TypeTag::Ethernet, TypeTag::Ip, TypeTag::Tcp]);

    let mut layers = Vec::new();
    root.collect(&mut layers);
    assert_eq!(layers.len(), 3);
    assert_eq!(layers[0].self_id(), TypeTag::Ethernet);
    assert_eq!(layers[0].header(), &FRAME[..14]);
    assert_eq!(layers[0].payload(), &FRAME[14..]);
    assert!(layers[0].child_pdu().is_none());
    assert_eq!(layers[1].self_id(), TypeTag::Ip);
    assert_eq!(layers[1].header(), &FRAME[14..34]);
    assert_eq!(layers[2].self_id(), TypeTag::Tcp);
    assert_eq!(layers[2].header(), &FRAME[34..54]);
    assert_eq!(layers[2].payload(), b"hello");
}

#[test]
fn owned_copy_stands_alone() {
    let owned: Node<'static> = {
        let bytes = FRAME.to_vec();
        let tables = DissectionTables::standard();
        let root = Ethernet::from_bytes(&bytes, &tables).unwrap();
        root.find::<Ip>().unwrap().to_owned()
    };
    assert_eq!(owned.self_id(), TypeTag::Ip);
    assert_eq!(owned.header(), &FRAME[14..34]);
    assert_eq!(owned.payload(), &FRAME[34..]);
    assert!(owned.child_pdu().is_none());
    assert!(owned.parent_pdu().is_none());
    assert_eq!(owned.to_bytes(), FRAME[14..].to_vec());
}

#[test]
fn owned_copy_of_an_absent_node_is_absent() {
    let tables = DissectionTables::standard();
    let root = Ethernet::from_bytes(&FRAME, &tables).unwrap();
    let some = Some(Box::new(root));
    let copy = PobOwned::clone(&some);
    assert_eq!(copy.unwrap().header(), &FRAME[..14]);
    let none: Option<Box<Node>> = None;
    assert!(PobOwned::clone(&none).is_none());
}

#[test]
fn children_and_parents_can_be_set() {
    let mut eth = Ethernet::new();
    assert!(eth.child_pdu().is_none());
    assert!(eth.parent_pdu().is_none());
    let mut ip = Ip::new();
    Pdu::set_parent(&mut ip, Some(TypeTag::Ethernet));
    eth.set_child(Some(Box::new(ip.into_node())));
    let child = eth.child_pdu().unwrap();
    assert_eq!(child.self_id(), TypeTag::Ip);
    assert_eq!(child.parent_pdu(), Some(TypeTag::Ethernet));
    assert_eq!(Pdu::to_bytes(&eth), vec![0u8; 34]);
    eth.child_pdu_mut().unwrap().find_mut::<Ip>().unwrap().set_ttl(3);
    assert_eq!(Pdu::to_bytes(&eth)[22], 3);
    eth.set_child(None);
    assert_eq!(Pdu::to_bytes(&eth), vec![0u8; 14]);
}

#[test]
fn packet_finds_layers_by_type() {
    let tables = DissectionTables::standard();
    let root = Ethernet::from_bytes(&FRAME, &tables).unwrap();
    let mut layers = Vec::new();
    root.collect(&mut layers);
    let mut packet = Packet::new(layers);
    assert_eq!(packet.find::<Tcp>().unwrap().src_port(), 12345);
    assert!(packet.find::<Udp>().is_none());
    packet.find_mut::<Ip>().unwrap().set_ttl(1);
    assert_eq!(packet.find::<Ip>().unwrap().ttl(), 1);
    assert!(packet.find_mut::<Raw>().is_none());
    let mut expected = Vec::new();
    expected.extend_from_slice(&FRAME);
    expected.extend_from_slice(&FRAME[14..]);
    expected.extend_from_slice(&FRAME[34..]);
    expected[59 + 8] = 1;
    assert_eq!(packet.to_bytes(), expected);
    assert_eq!(Packet::new(Vec::new()).to_bytes(), Vec::<u8>::new());
}
