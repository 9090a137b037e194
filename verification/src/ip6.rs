//! IPv6 datagrams.

use vstd::prelude::*;
use crate::chain::decode;
use crate::json::{named, Doc, Value};
use crate::pdu::{Node, Pdu, PduFields, PduResult, PduView, Pob};
use crate::registry::DissectionTables;
use crate::table::TableKey;
use crate::tid::{Tid, TypeTag};

verus! {

/// Where the next-header field is.
pub const IPV6_NEXT_HEADER_OFFSET: usize = 6;

/// The length of the fixed IPv6 header in bytes.
pub const IPV6_HEADER_LEN: usize = 40;

/// The next-header value of an IPv6 datagram: the protocol of its payload.
#[derive(Debug, Clone, Copy, PartialEq, Eq, Hash)]
pub struct Ipv6Type(pub u8);

impl TableKey for Ipv6Type {
    open spec fn spec_key(self) -> u64 {
        self.0 as u64
    }

    fn key(&self) -> (k: u64) {
        self.0 as u64
    }

    proof fn lemma_key_injective(a: Self, b: Self) {
    }
}

/// The next-header value that a datagram starting with `bytes` declares.
pub open spec fn spec_ipv6_type(bytes: Seq<u8>) -> u8 {
    bytes[IPV6_NEXT_HEADER_OFFSET as int]
}

/// Reads the next-header value of the datagram that starts with `bytes`.
pub fn get_ipv6_type(bytes: &[u8]) -> (t: u8)
    requires
        bytes@.len() > IPV6_NEXT_HEADER_OFFSET,
    ensures
        t == spec_ipv6_type(bytes@),
{
    bytes[IPV6_NEXT_HEADER_OFFSET]
}

/// An IPv6 datagram.
#[derive(Debug)]
pub struct Ipv6<'a> {
    pub(crate) fields: PduFields<'a>,
}

impl<'a> View for Ipv6<'a> {
    type V = PduView;

    open(crate) spec fn view(&self) -> PduView {
        self.fields.view_as(TypeTag::Ipv6)
    }
}

impl<'a> Tid<'a> for Ipv6<'a> {
    open spec fn spec_id() -> TypeTag {
        TypeTag::Ipv6
    }

    fn self_id(&self) -> (t: TypeTag) {
        TypeTag::Ipv6
    }

    fn id() -> (t: TypeTag) {
        TypeTag::Ipv6
    }
}

impl<'a> Ipv6<'a> {
    /// The next-header value: the protocol of the payload.
    pub fn next_header(&self) -> (v: u8)
        requires
            self@.wf(),
        ensures
            v == spec_ipv6_type(self@.header),
    {
        self.fields.header.get(IPV6_NEXT_HEADER_OFFSET)
    }

    /// The bytes that the datagram carries.
    pub fn payload(&self) -> (d: &[u8])
        ensures
            d@ == self@.data,
    {
        self.fields.data.as_slice()
    }
}

/// What an IPv6 datagram projects to, where `data` stands for what it carries.
pub open spec fn spec_ipv6_json(data: Doc) -> Doc {
    named(
        "ipv6"@,
        Seq::empty()
            .push(("ipv6.data"@, data)),
    )
}

impl<'a> Ipv6<'a> {
    /// Projects the fields of the header to a document, with `data` as the
    /// member that stands for what the node carries.
    pub fn fields_to_json(&self, data: Value) -> (v: Value)
        requires
            self@.wf(),
        ensures
            v@ == spec_ipv6_json(data@),
    {
        let mut inner = Value::object();
        inner.insert("ipv6.data", data);
        Value::wrap("ipv6", inner)
    }
}

impl<'a> Pdu<'a> for Ipv6<'a> {
    proof fn lemma_view_tag(&self) {
    }

    fn from_bytes(bytes: &'a [u8], tables: &DissectionTables) -> (r: PduResult<'a>) {
        decode(TypeTag::Ipv6, bytes, tables)
    }

    fn to_owned(&self) -> (r: Node<'static>) {
        Node::Ipv6(Ipv6 { fields: self.fields.detach() })
    }

    fn to_bytes(&self) -> (r: Vec<u8>) {
        self.fields.encode()
    }

    fn to_json(&self) -> (v: Value) {
        self.fields_to_json(self.fields.data_to_json())
    }

    fn child_to_json(&self) -> (v: Value) {
        self.fields.data_to_json()
    }

    fn set_parent(&mut self, parent: Option<TypeTag>) {
        self.fields.parent = parent;
    }

    fn set_child(&mut self, child: Pob<'a>) {
        self.fields.child = child;
    }

    fn parent_pdu(&self) -> (p: Option<TypeTag>) {
        self.fields.parent
    }

    fn child_pdu(&self) -> (c: Option<&Node<'a>>) {
        self.fields.child_ref()
    }

    fn child_pdu_mut(&mut self) -> (c: Option<&mut Node<'a>>) {
        self.fields.child_mut()
    }

    fn into_node(self) -> (n: Node<'a>) {
        Node::Ipv6(self)
    }

    fn cast_ref<'b>(node: &'b Node<'a>) -> (r: Option<&'b Self>) {
        match node {
            Node::Ipv6(p) => Some(p),
            _ => None,
        }
    }

    fn cast_mut<'b>(node: &'b mut Node<'a>) -> (r: Option<&'b mut Self>) {
        match node {
            Node::Ipv6(p) => Some(p),
            _ => None,
        }
    }

    fn cast(node: Node<'a>) -> (r: Result<Self, Node<'a>>) {
        match node {
            Node::Ipv6(p) => Ok(p),
            other => Err(other),
        }
    }
}

} // verus!
