//! UDP datagrams.

use vstd::prelude::*;
use crate::bytes::{field_u16, lemma_field_u16_written, splice};
use crate::chain::decode;
use crate::json::{doc_u16, named, Doc, Value};
use crate::pdu::{Node, Pdu, PduFields, PduResult, PduView, Pob};
use crate::registry::DissectionTables;
use crate::table::TableKey;
use crate::tid::{Tid, TypeTag};
use crate::utils::be_bytes_u16;

verus! {

/// Where the source port starts.
pub const UDP_SPORT_OFFSET: usize = 0;

/// Where the destination port starts.
pub const UDP_DPORT_OFFSET: usize = 2;

/// Where the length starts.
pub const UDP_LENGTH_OFFSET: usize = 4;

/// Where the checksum starts.
pub const UDP_CHECKSUM_OFFSET: usize = 6;

/// The length of a UDP header in bytes.
pub const UDP_HEADER_LEN: usize = 8;

/// A UDP port: what tells the protocols carried over UDP apart.
#[derive(Debug, Clone, Copy, PartialEq, Eq, Hash)]
pub struct UdpType(pub u16);

impl TableKey for UdpType {
    open spec fn spec_key(self) -> u64 {
        self.0 as u64
    }

    fn key(&self) -> (k: u64) {
        self.0 as u64
    }

    proof fn lemma_key_injective(a: Self, b: Self) {
    }
}

/// A UDP datagram.
#[derive(Debug)]
pub struct Udp<'a> {
    pub(crate) fields: PduFields<'a>,
}

impl<'a> View for Udp<'a> {
    type V = PduView;

    open(crate) spec fn view(&self) -> PduView {
        self.fields.view_as(TypeTag::Udp)
    }
}

impl<'a> Udp<'a> {
    /// Whether the node owns its header, as it does once a field was set.
    pub open(crate) spec fn owns_header(&self) -> bool {
        self.fields.header is Owned
    }
}

impl<'a> Tid<'a> for Udp<'a> {
    open spec fn spec_id() -> TypeTag {
        TypeTag::Udp
    }

    fn self_id(&self) -> (t: TypeTag) {
        TypeTag::Udp
    }

    fn id() -> (t: TypeTag) {
        TypeTag::Udp
    }
}

impl<'a> Udp<'a> {
    /// The source port.
    pub fn src_port(&self) -> (v: u16)
        requires
            self@.wf(),
        ensures
            v == field_u16(self@.header, UDP_SPORT_OFFSET as int),
    {
        self.fields.header.read_u16(UDP_SPORT_OFFSET)
    }

    /// Sets the source port.
    pub fn set_src_port(&mut self, sport: u16)
        requires
            old(self)@.wf(),
        ensures
            final(self)@ == old(self)@.with_header(
                splice(old(self)@.header, UDP_SPORT_OFFSET as int, be_bytes_u16(sport)),
            ),
            final(self)@.wf(),
            final(self).owns_header(),
            field_u16(final(self)@.header, UDP_SPORT_OFFSET as int) == sport,
    {
        self.fields.header.write_u16(UDP_SPORT_OFFSET, sport);
        proof {
            lemma_field_u16_written(old(self)@.header, UDP_SPORT_OFFSET as int, sport);
        }
    }

    /// Sets the source port and hands the datagram back for further changes.
    pub fn with_src_port(&mut self, sport: u16) -> (r: &mut Self)
        requires
            old(self)@.wf(),
        ensures
            r@ == old(self)@.with_header(
                splice(old(self)@.header, UDP_SPORT_OFFSET as int, be_bytes_u16(sport)),
            ),
            r@.wf(),
            *final(self) == *final(r),
    {
        self.set_src_port(sport);
        self
    }

    /// The destination port.
    pub fn dst_port(&self) -> (v: u16)
        requires
            self@.wf(),
        ensures
            v == field_u16(self@.header, UDP_DPORT_OFFSET as int),
    {
        self.fields.header.read_u16(UDP_DPORT_OFFSET)
    }

    /// Sets the destination port.
    pub fn set_dst_port(&mut self, dport: u16)
        requires
            old(self)@.wf(),
        ensures
            final(self)@ == old(self)@.with_header(
                splice(old(self)@.header, UDP_DPORT_OFFSET as int, be_bytes_u16(dport)),
            ),
            final(self)@.wf(),
            final(self).owns_header(),
            field_u16(final(self)@.header, UDP_DPORT_OFFSET as int) == dport,
    {
        self.fields.header.write_u16(UDP_DPORT_OFFSET, dport);
        proof {
            lemma_field_u16_written(old(self)@.header, UDP_DPORT_OFFSET as int, dport);
        }
    }

    /// Sets the destination port and hands the datagram back for further
    /// changes.
    pub fn with_dst_port(&mut self, dport: u16) -> (r: &mut Self)
        requires
            old(self)@.wf(),
        ensures
            r@ == old(self)@.with_header(
                splice(old(self)@.header, UDP_DPORT_OFFSET as int, be_bytes_u16(dport)),
            ),
            r@.wf(),
            *final(self) == *final(r),
    {
        self.set_dst_port(dport);
        self
    }

    /// The length that the header declares.
    pub fn length(&self) -> (v: u16)
        requires
            self@.wf(),
        ensures
            v == field_u16(self@.header, UDP_LENGTH_OFFSET as int),
    {
        self.fields.header.read_u16(UDP_LENGTH_OFFSET)
    }

    /// Sets the length that the header declares.
    pub fn set_length(&mut self, length: u16)
        requires
            old(self)@.wf(),
        ensures
            final(self)@ == old(self)@.with_header(
                splice(old(self)@.header, UDP_LENGTH_OFFSET as int, be_bytes_u16(length)),
            ),
            final(self)@.wf(),
            final(self).owns_header(),
            field_u16(final(self)@.header, UDP_LENGTH_OFFSET as int) == length,
    {
        self.fields.header.write_u16(UDP_LENGTH_OFFSET, length);
        proof {
            lemma_field_u16_written(old(self)@.header, UDP_LENGTH_OFFSET as int, length);
        }
    }

    /// Sets the length that the header declares and hands the datagram back for
    /// further changes.
    pub fn with_length(&mut self, length: u16) -> (r: &mut Self)
        requires
            old(self)@.wf(),
        ensures
            r@ == old(self)@.with_header(
                splice(old(self)@.header, UDP_LENGTH_OFFSET as int, be_bytes_u16(length)),
            ),
            r@.wf(),
            *final(self) == *final(r),
    {
        self.set_length(length);
        self
    }

    /// The checksum.
    pub fn checksum(&self) -> (v: u16)
        requires
            self@.wf(),
        ensures
            v == field_u16(self@.header, UDP_CHECKSUM_OFFSET as int),
    {
        self.fields.header.read_u16(UDP_CHECKSUM_OFFSET)
    }

    /// Sets the checksum.
    pub fn set_checksum(&mut self, checksum: u16)
        requires
            old(self)@.wf(),
        ensures
            final(self)@ == old(self)@.with_header(
                splice(old(self)@.header, UDP_CHECKSUM_OFFSET as int, be_bytes_u16(checksum)),
            ),
            final(self)@.wf(),
            final(self).owns_header(),
            field_u16(final(self)@.header, UDP_CHECKSUM_OFFSET as int) == checksum,
    {
        self.fields.header.write_u16(UDP_CHECKSUM_OFFSET, checksum);
        proof {
            lemma_field_u16_written(old(self)@.header, UDP_CHECKSUM_OFFSET as int, checksum);
        }
    }

    /// Sets the checksum and hands the datagram back for further changes.
    pub fn with_checksum(&mut self, checksum: u16) -> (r: &mut Self)
        requires
            old(self)@.wf(),
        ensures
            r@ == old(self)@.with_header(
                splice(old(self)@.header, UDP_CHECKSUM_OFFSET as int, be_bytes_u16(checksum)),
            ),
            r@.wf(),
            *final(self) == *final(r),
    {
        self.set_checksum(checksum);
        self
    }

    /// The bytes that the datagram carries.
    pub fn payload(&self) -> (d: &[u8])
        ensures
            d@ == self@.data,
    {
        self.fields.data.as_slice()
    }
}

/// What a UDP datagram with the header `header` projects to, where `data`
/// stands for what it carries.
pub open spec fn spec_udp_json(header: Seq<u8>, data: Doc) -> Doc {
    named(
        "udp"@,
        Seq::empty()
            .push(("udp.sport"@, doc_u16(field_u16(header, UDP_SPORT_OFFSET as int))))
            .push(("udp.dport"@, doc_u16(field_u16(header, UDP_DPORT_OFFSET as int))))
            .push(("udp.length"@, doc_u16(field_u16(header, UDP_LENGTH_OFFSET as int))))
            .push(("udp.checksum"@, doc_u16(field_u16(header, UDP_CHECKSUM_OFFSET as int))))
            .push(("udp.data"@, data)),
    )
}

impl<'a> Udp<'a> {
    /// Projects the fields of the header to a document, with `data` as the
    /// member that stands for what the node carries.
    pub fn fields_to_json(&self, data: Value) -> (v: Value)
        requires
            self@.wf(),
        ensures
            v@ == spec_udp_json(self@.header, data@),
    {
        let mut inner = Value::object();
        inner.insert("udp.sport", Value::from_u16(self.src_port()));
        inner.insert("udp.dport", Value::from_u16(self.dst_port()));
        inner.insert("udp.length", Value::from_u16(self.length()));
        inner.insert("udp.checksum", Value::from_u16(self.checksum()));
        inner.insert("udp.data", data);
        Value::wrap("udp", inner)
    }
}

impl<'a> Pdu<'a> for Udp<'a> {
    proof fn lemma_view_tag(&self) {
    }

    fn from_bytes(bytes: &'a [u8], tables: &DissectionTables) -> (r: PduResult<'a>) {
        decode(TypeTag::Udp, bytes, tables)
    }

    fn to_owned(&self) -> (r: Node<'static>) {
        Node::Udp(Udp { fields: self.fields.detach() })
    }

    fn to_bytes(&self) -> (r: Vec<u8>) {
        self.fields.encode()
    }

    fn to_json(&self) -> (v: Value) {
        self.fields_to_json(self.fields.data_to_json())
    }

    fn child_to_json(&self) -> (v: Value) {
        self.fields.data_to_json()
    }

    fn set_parent(&mut self, parent: Option<TypeTag>) {
        self.fields.parent = parent;
    }

    fn set_child(&mut self, child: Pob<'a>) {
        self.fields.child = child;
    }

    fn parent_pdu(&self) -> (p: Option<TypeTag>) {
        self.fields.parent
    }

    fn child_pdu(&self) -> (c: Option<&Node<'a>>) {
        self.fields.child_ref()
    }

    fn child_pdu_mut(&mut self) -> (c: Option<&mut Node<'a>>) {
        self.fields.child_mut()
    }

    fn into_node(self) -> (n: Node<'a>) {
        Node::Udp(self)
    }

    fn cast_ref<'b>(node: &'b Node<'a>) -> (r: Option<&'b Self>) {
        match node {
            Node::Udp(p) => Some(p),
            _ => None,
        }
    }

    fn cast_mut<'b>(node: &'b mut Node<'a>) -> (r: Option<&'b mut Self>) {
        match node {
            Node::Udp(p) => Some(p),
            _ => None,
        }
    }

    fn cast(node: Node<'a>) -> (r: Result<Self, Node<'a>>) {
        match node {
            Node::Udp(p) => Ok(p),
            other => Err(other),
        }
    }
}

} // verus!
