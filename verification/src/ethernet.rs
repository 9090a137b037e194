//! Ethernet II frames.

use vstd::prelude::*;
use crate::bytes::{field_u16, lemma_field_u16_written, splice, ByteView};
use crate::chain::decode;
use crate::json::{doc_u16, named, Doc, Value};
use crate::mac_address::{mac_text, MacAddress};
use crate::pdu::{Node, Pdu, PduFields, PduResult, PduView, Pob};
use crate::registry::DissectionTables;
use crate::table::TableKey;
use crate::tid::{Tid, TypeTag};
use crate::utils::{be_bytes_u16, lemma_be_value_bound, parse_bytes, radix_pow, Endian};

verus! {

/// Where the destination address starts in the header.
pub const ETH_DST_OFFSET: usize = 0;

/// Where the source address starts in the header.
pub const ETH_SRC_OFFSET: usize = 6;

/// Where the EtherType starts in the header.
pub const ETH_TYPE_OFFSET: usize = 12;

/// The length of an Ethernet II header in bytes.
pub const ETH_HEADER_LEN: usize = 14;

/// The EtherType of a frame: the protocol of its payload.
#[derive(Debug, Clone, Copy, PartialEq, Eq, Hash)]
pub struct EtherType(pub u16);

impl TableKey for EtherType {
    open spec fn spec_key(self) -> u64 {
        self.0 as u64
    }

    fn key(&self) -> (k: u64) {
        self.0 as u64
    }

    proof fn lemma_key_injective(a: Self, b: Self) {
    }
}

/// The EtherType that a frame starting with `bytes` declares.
pub open spec fn spec_ether_type(bytes: Seq<u8>) -> u16 {
    field_u16(bytes, ETH_TYPE_OFFSET as int)
}

/// Reads the EtherType of the frame that starts with `bytes`.
pub fn get_ether_type(bytes: &[u8]) -> (t: u16)
    requires
        bytes@.len() >= ETH_HEADER_LEN,
    ensures
        t == spec_ether_type(bytes@),
{
    let field = &bytes[ETH_TYPE_OFFSET..ETH_HEADER_LEN];
    proof {
        assert(field@.take(2) =~= field@);
        lemma_be_value_bound(field@);
        reveal_with_fuel(radix_pow, 3);
    }
    parse_bytes::<u16>(field, Endian::Big)
}

/// An Ethernet II frame.
#[derive(Debug)]
pub struct Ethernet<'a> {
    pub(crate) fields: PduFields<'a>,
}

impl<'a> View for Ethernet<'a> {
    type V = PduView;

    open(crate) spec fn view(&self) -> PduView {
        self.fields.view_as(TypeTag::Ethernet)
    }
}

impl<'a> Ethernet<'a> {
    /// Whether the node owns its header, as it does once a field was set.
    pub open(crate) spec fn owns_header(&self) -> bool {
        self.fields.header is Owned
    }

    /// Whether the node owns its payload.
    pub open(crate) spec fn owns_payload(&self) -> bool {
        self.fields.data is Owned
    }
}

impl<'a> Tid<'a> for Ethernet<'a> {
    open spec fn spec_id() -> TypeTag {
        TypeTag::Ethernet
    }

    fn self_id(&self) -> (t: TypeTag) {
        TypeTag::Ethernet
    }

    fn id() -> (t: TypeTag) {
        TypeTag::Ethernet
    }
}

impl<'a> Ethernet<'a> {
    /// A frame whose header is all zero and that carries nothing.
    pub fn new() -> (r: Self)
        ensures
            r@ == (PduView {
                tag: TypeTag::Ethernet,
                header: Seq::new(ETH_HEADER_LEN as nat, |i: int| 0u8),
                data: Seq::empty(),
                parent: None,
                child: None,
            }),
            r@.wf(),
    {
        Ethernet { fields: PduFields::new(ByteView::zeroed(ETH_HEADER_LEN), ByteView::empty()) }
    }

    /// The destination address.
    pub fn dst_addr(&self) -> (a: MacAddress<'_>)
        requires
            self@.wf(),
        ensures
            a@ == self@.header.subrange(ETH_DST_OFFSET as int, ETH_SRC_OFFSET as int),
    {
        MacAddress::from_bytes(self.fields.header.slice(ETH_DST_OFFSET, ETH_SRC_OFFSET))
    }

    /// Sets the destination address.
    pub fn set_dst_addr(&mut self, dst_addr: MacAddress)
        requires
            old(self)@.wf(),
        ensures
            final(self)@ == old(self)@.with_header(
                splice(old(self)@.header, ETH_DST_OFFSET as int, dst_addr@),
            ),
            final(self)@.wf(),
            final(self).owns_header(),
            final(self)@.header.subrange(ETH_DST_OFFSET as int, ETH_SRC_OFFSET as int) == dst_addr@,
    {
        let bytes = dst_addr.to_bytes();
        self.fields.header.write(ETH_DST_OFFSET, bytes.as_slice());
        assert(self@.header.subrange(ETH_DST_OFFSET as int, ETH_SRC_OFFSET as int) =~= dst_addr@);
    }

    /// Sets the destination address and hands the frame back for further
    /// changes.
    pub fn with_dst_addr(&mut self, dst_addr: MacAddress) -> (r: &mut Self)
        requires
            old(self)@.wf(),
        ensures
            r@ == old(self)@.with_header(
                splice(old(self)@.header, ETH_DST_OFFSET as int, dst_addr@),
            ),
            r@.wf(),
            *final(self) == *final(r),
    {
        self.set_dst_addr(dst_addr);
        self
    }

    /// The source address.
    pub fn src_addr(&self) -> (a: MacAddress<'_>)
        requires
            self@.wf(),
        ensures
            a@ == self@.header.subrange(ETH_SRC_OFFSET as int, ETH_TYPE_OFFSET as int),
    {
        MacAddress::from_bytes(self.fields.header.slice(ETH_SRC_OFFSET, ETH_TYPE_OFFSET))
    }

    /// Sets the source address.
    pub fn set_src_addr(&mut self, src_addr: MacAddress)
        requires
            old(self)@.wf(),
        ensures
            final(self)@ == old(self)@.with_header(
                splice(old(self)@.header, ETH_SRC_OFFSET as int, src_addr@),
            ),
            final(self)@.wf(),
            final(self).owns_header(),
            final(self)@.header.subrange(ETH_SRC_OFFSET as int, ETH_TYPE_OFFSET as int)
                == src_addr@,
    {
        let bytes = src_addr.to_bytes();
        self.fields.header.write(ETH_SRC_OFFSET, bytes.as_slice());
        assert(self@.header.subrange(ETH_SRC_OFFSET as int, ETH_TYPE_OFFSET as int) =~= src_addr@);
    }

    /// Sets the source address and hands the frame back for further changes.
    pub fn with_src_addr(&mut self, src_addr: MacAddress) -> (r: &mut Self)
        requires
            old(self)@.wf(),
        ensures
            r@ == old(self)@.with_header(
                splice(old(self)@.header, ETH_SRC_OFFSET as int, src_addr@),
            ),
            r@.wf(),
            *final(self) == *final(r),
    {
        self.set_src_addr(src_addr);
        self
    }

    /// The EtherType.
    pub fn ether_type(&self) -> (v: u16)
        requires
            self@.wf(),
        ensures
            v == field_u16(self@.header, ETH_TYPE_OFFSET as int),
    {
        self.fields.header.read_u16(ETH_TYPE_OFFSET)
    }

    /// Sets the EtherType.
    pub fn set_ether_type(&mut self, ether_type: u16)
        requires
            old(self)@.wf(),
        ensures
            final(self)@ == old(self)@.with_header(
                splice(old(self)@.header, ETH_TYPE_OFFSET as int, be_bytes_u16(ether_type)),
            ),
            final(self)@.wf(),
            final(self).owns_header(),
            field_u16(final(self)@.header, ETH_TYPE_OFFSET as int) == ether_type,
    {
        self.fields.header.write_u16(ETH_TYPE_OFFSET, ether_type);
        proof {
            lemma_field_u16_written(old(self)@.header, ETH_TYPE_OFFSET as int, ether_type);
        }
    }

    /// Sets the EtherType and hands the frame back for further changes.
    pub fn with_ether_type(&mut self, ether_type: u16) -> (r: &mut Self)
        requires
            old(self)@.wf(),
        ensures
            r@ == old(self)@.with_header(
                splice(old(self)@.header, ETH_TYPE_OFFSET as int, be_bytes_u16(ether_type)),
            ),
            r@.wf(),
            *final(self) == *final(r),
    {
        self.set_ether_type(ether_type);
        self
    }

    /// The bytes that the frame carries.
    pub fn payload(&self) -> (d: &[u8])
        ensures
            d@ == self@.data,
    {
        self.fields.data.as_slice()
    }

    /// Replaces the bytes that the frame carries by a copy of `payload`.
    pub fn set_payload(&mut self, payload: &[u8])
        ensures
            final(self)@ == old(self)@.with_data(payload@),
            final(self).owns_payload(),
    {
        self.fields.data = ByteView::borrowed(payload).to_owned();
    }
}

/// What an Ethernet frame with the header `header` projects to, where `data`
/// stands for what it carries.
pub open spec fn spec_eth_json(header: Seq<u8>, data: Doc) -> Doc {
    named(
        "eth"@,
        Seq::empty()
            .push(
                (
                    "eth.src_addr"@,
                    Doc::Text(
                        mac_text(header.subrange(ETH_SRC_OFFSET as int, ETH_TYPE_OFFSET as int)),
                    ),
                ),
            )
            .push(
                (
                    "eth.dst_addr"@,
                    Doc::Text(
                        mac_text(header.subrange(ETH_DST_OFFSET as int, ETH_SRC_OFFSET as int)),
                    ),
                ),
            )
            .push(("eth.type"@, doc_u16(field_u16(header, ETH_TYPE_OFFSET as int))))
            .push(("eth.data"@, data)),
    )
}

impl<'a> Ethernet<'a> {
    /// Projects the fields of the header to a document, with `data` as the
    /// member that stands for what the node carries.
    pub fn fields_to_json(&self, data: Value) -> (v: Value)
        requires
            self@.wf(),
        ensures
            v@ == spec_eth_json(self@.header, data@),
    {
        let mut inner = Value::object();
        inner.insert("eth.src_addr", Value::text(self.src_addr().to_str()));
        inner.insert("eth.dst_addr", Value::text(self.dst_addr().to_str()));
        inner.insert("eth.type", Value::from_u16(self.ether_type()));
        inner.insert("eth.data", data);
        Value::wrap("eth", inner)
    }
}

impl<'a> Pdu<'a> for Ethernet<'a> {
    proof fn lemma_view_tag(&self) {
    }

    fn from_bytes(bytes: &'a [u8], tables: &DissectionTables) -> (r: PduResult<'a>) {
        decode(TypeTag::Ethernet, bytes, tables)
    }

    fn to_owned(&self) -> (r: Node<'static>) {
        Node::Ethernet(Ethernet { fields: self.fields.detach() })
    }

    fn to_bytes(&self) -> (r: Vec<u8>) {
        self.fields.encode()
    }

    fn to_json(&self) -> (v: Value) {
        self.fields_to_json(self.fields.data_to_json())
    }

    fn child_to_json(&self) -> (v: Value) {
        self.fields.data_to_json()
    }

    fn set_parent(&mut self, parent: Option<TypeTag>) {
        self.fields.parent = parent;
    }

    fn set_child(&mut self, child: Pob<'a>) {
        self.fields.child = child;
    }

    fn parent_pdu(&self) -> (p: Option<TypeTag>) {
        self.fields.parent
    }

    fn child_pdu(&self) -> (c: Option<&Node<'a>>) {
        self.fields.child_ref()
    }

    fn child_pdu_mut(&mut self) -> (c: Option<&mut Node<'a>>) {
        self.fields.child_mut()
    }

    fn into_node(self) -> (n: Node<'a>) {
        Node::Ethernet(self)
    }

    fn cast_ref<'b>(node: &'b Node<'a>) -> (r: Option<&'b Self>) {
        match node {
            Node::Ethernet(p) => Some(p),
            _ => None,
        }
    }

    fn cast_mut<'b>(node: &'b mut Node<'a>) -> (r: Option<&'b mut Self>) {
        match node {
            Node::Ethernet(p) => Some(p),
            _ => None,
        }
    }

    fn cast(node: Node<'a>) -> (r: Result<Self, Node<'a>>) {
        match node {
            Node::Ethernet(p) => Ok(p),
            other => Err(other),
        }
    }
}

} // verus!
