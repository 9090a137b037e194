//! The dissection tables of all layers, and what each protocol's header says
//! about the layer inside it.

use vstd::prelude::*;
use crate::echo_reply::EchoReply;
use crate::ethernet::{get_ether_type, spec_ether_type, EtherType};
use crate::icmp::{get_message_type, spec_message_type, IcmpType};
use crate::ip::{get_ip_header_len, get_ip_type, spec_ip_header_len, spec_ip_type, Ip, Ipv4Type};
use crate::ip6::{get_ipv6_type, spec_ipv6_type, Ipv6, Ipv6Type};
use crate::pdu::{min_header_len, min_header_size};
use crate::table::{create_table, Dissect, DissectionTable, TableKey, TableView};
use crate::tcp::{get_data_offset, spec_data_offset, Tcp};
use crate::tid::TypeTag;
use crate::udp::Udp;

verus! {

/// A layer whose header names the protocol of its payload.
#[derive(Debug, Clone, Copy, PartialEq, Eq, Structural)]
pub enum Layer {
    /// Ethernet, which names it by EtherType.
    Ether,
    /// IPv4, which names it by protocol number.
    Ipv4,
    /// IPv6, which names it by next-header value.
    Ipv6,
    /// ICMP, which names the kind of its body by message type.
    Icmp,
}

/// The number of header bytes of a node of type `tag` that starts with
/// `bytes`: fixed for most protocols, declared in the header for IPv4 and TCP,
/// and everything for an option or an opaque node.
pub open spec fn header_len(tag: TypeTag, bytes: Seq<u8>) -> nat {
    match tag {
        TypeTag::Ip => spec_ip_header_len(bytes),
        TypeTag::Tcp => spec_data_offset(bytes),
        TypeTag::IpOption => bytes.len(),
        TypeTag::Raw => bytes.len(),
        _ => min_header_len(tag),
    }
}

/// The layer in whose table a node of type `tag` looks up the decoder of its
/// payload, if it looks into its payload at all.
pub open spec fn next_layer(tag: TypeTag) -> Option<Layer> {
    match tag {
        TypeTag::Ethernet => Some(Layer::Ether),
        TypeTag::Ip => Some(Layer::Ipv4),
        TypeTag::Ipv6 => Some(Layer::Ipv6),
        TypeTag::Icmp => Some(Layer::Icmp),
        _ => None,
    }
}

/// The key under which a node of type `tag` with the header `header` looks up
/// the decoder of its payload.
pub open spec fn discriminator(tag: TypeTag, header: Seq<u8>) -> u64 {
    match tag {
        TypeTag::Ethernet => EtherType(spec_ether_type(header)).spec_key(),
        TypeTag::Ip => Ipv4Type(spec_ip_type(header)).spec_key(),
        TypeTag::Ipv6 => Ipv6Type(spec_ipv6_type(header)).spec_key(),
        TypeTag::Icmp => IcmpType(spec_message_type(header)).spec_key(),
        _ => 0,
    }
}

/// Computes the number of header bytes of a node of type `tag` that starts
/// with `bytes`.
pub fn header_size(tag: TypeTag, bytes: &[u8]) -> (n: usize)
    requires
        bytes@.len() >= min_header_len(tag),
    ensures
        n == header_len(tag, bytes@),
{
    match tag {
        TypeTag::Ip => get_ip_header_len(bytes),
        TypeTag::Tcp => get_data_offset(bytes),
        TypeTag::IpOption => bytes.len(),
        TypeTag::Raw => bytes.len(),
        _ => min_header_size(tag),
    }
}

/// The content of the dissection tables of all layers.
pub struct TablesView {
    /// EtherType to decoder.
    pub ether: TableView,
    /// IPv4 protocol number to decoder.
    pub ipv4: TableView,
    /// IPv6 next-header value to decoder.
    pub ipv6: TableView,
    /// ICMP message type to decoder.
    pub icmp: TableView,
}

impl TablesView {
    /// The table that `layer` consults.
    pub open spec fn table(self, layer: Layer) -> TableView {
        match layer {
            Layer::Ether => self.ether,
            Layer::Ipv4 => self.ipv4,
            Layer::Ipv6 => self.ipv6,
            Layer::Icmp => self.icmp,
        }
    }
}

/// The dissection tables of all layers.
///
/// Each layer has a table of its own, because the discriminator values of
/// different layers can coincide.
pub struct DissectionTables {
    /// EtherType to decoder.
    pub ether: DissectionTable<EtherType>,
    /// IPv4 protocol number to decoder.
    pub ipv4: DissectionTable<Ipv4Type>,
    /// IPv6 next-header value to decoder.
    pub ipv6: DissectionTable<Ipv6Type>,
    /// ICMP message type to decoder.
    pub icmp: DissectionTable<IcmpType>,
}

impl View for DissectionTables {
    type V = TablesView;

    open spec fn view(&self) -> TablesView {
        TablesView { ether: self.ether@, ipv4: self.ipv4@, ipv6: self.ipv6@, icmp: self.icmp@ }
    }
}

/// Tables without entries, each with the opaque fallback installed.
pub open spec fn empty_tables() -> TablesView {
    let empty = TableView { entries: Map::<u64, TypeTag>::empty(), fallback: true };
    TablesView { ether: empty, ipv4: empty, ipv6: empty, icmp: empty }
}

/// The tables after the registration of the known protocols.
pub open spec fn standard_tables() -> TablesView {
    TablesView {
        ether: TableView {
            entries: Map::<u64, TypeTag>::empty().insert(0x0800, TypeTag::Ip).insert(
                0x86DD,
                TypeTag::Ipv6,
            ),
            fallback: true,
        },
        ipv4: TableView {
            entries: Map::<u64, TypeTag>::empty().insert(0x06, TypeTag::Tcp).insert(
                0x11,
                TypeTag::Udp,
            ),
            fallback: true,
        },
        ipv6: TableView {
            entries: Map::<u64, TypeTag>::empty().insert(0x11, TypeTag::Udp),
            fallback: true,
        },
        icmp: TableView {
            entries: Map::<u64, TypeTag>::empty().insert(0, TypeTag::EchoReply),
            fallback: true,
        },
    }
}

impl DissectionTables {
    /// Empty tables, each with the opaque fallback installed.
    pub fn new() -> (t: Self)
        ensures
            t@ == empty_tables(),
    {
        DissectionTables {
            ether: create_table(),
            ipv4: create_table(),
            ipv6: create_table(),
            icmp: create_table(),
        }
    }

    /// What the tables say about the payload of a node of type `tag` that
    /// starts with `bytes`: nothing where such a node does not look into its
    /// payload, else the decoder registered under the node's discriminator,
    /// if any, and whether the opaque fallback is installed.
    pub fn next_decoder(&self, tag: TypeTag, bytes: &[u8]) -> (r: Option<(Option<TypeTag>, bool)>)
        requires
            bytes@.len() >= min_header_len(tag),
        ensures
            r == match next_layer(tag) {
                Some(layer) => Some(
                    (
                        self@.table(layer).lookup(discriminator(tag, bytes@)),
                        self@.table(layer).fallback,
                    ),
                ),
                None => None,
            },
    {
        match tag {
            TypeTag::Ethernet => Some(
                (self.ether.lookup(&EtherType(get_ether_type(bytes))), self.ether.has_fallback()),
            ),
            TypeTag::Ip => Some(
                (self.ipv4.lookup(&Ipv4Type(get_ip_type(bytes))), self.ipv4.has_fallback()),
            ),
            TypeTag::Ipv6 => Some(
                (self.ipv6.lookup(&Ipv6Type(get_ipv6_type(bytes))), self.ipv6.has_fallback()),
            ),
            TypeTag::Icmp => Some(
                (self.icmp.lookup(&IcmpType(get_message_type(bytes))), self.icmp.has_fallback()),
            ),
            _ => None,
        }
    }

    /// The tables with the known protocols registered: IPv4 and IPv6 over
    /// Ethernet, TCP and UDP over IPv4, UDP over IPv6, echo replies in ICMP.
    pub fn standard() -> (t: Self)
        ensures
            t@ == standard_tables(),
    {
        let mut t = DissectionTables::new();
        t.ether.add::<Ip>(EtherType(0x0800));
        t.ether.add::<Ipv6>(EtherType(0x86DD));
        t.ipv4.add::<Tcp>(Ipv4Type(0x06));
        t.ipv4.add::<Udp>(Ipv4Type(0x11));
        t.ipv6.add::<Udp>(Ipv6Type(0x11));
        t.icmp.add::<EchoReply>(IcmpType(0));
        proof {
            assert(t@.ether.entries =~= standard_tables().ether.entries);
            assert(t@.ipv4.entries =~= standard_tables().ipv4.entries);
            assert(t@.ipv6.entries =~= standard_tables().ipv6.entries);
            assert(t@.icmp.entries =~= standard_tables().icmp.entries);
        }
        t
    }
}

} // verus!
