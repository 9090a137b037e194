//! ICMP echo replies.

use vstd::prelude::*;
use crate::bytes::{field_u16, lemma_field_u16_written, splice, ByteView};
use crate::chain::decode;
use crate::json::{doc_u16, named, Doc, Value};
use crate::pdu::{Node, Pdu, PduFields, PduResult, PduView, Pob};
use crate::registry::DissectionTables;
use crate::tid::{Tid, TypeTag};
use crate::utils::be_bytes_u16;

verus! {

/// Where the identifier starts.
pub const ECHO_REPLY_ID_OFFSET: usize = 0;

/// Where the sequence number starts.
pub const ECHO_REPLY_SEQNUM_OFFSET: usize = 2;

/// Where the echoed data starts, counted from the identifier.
pub const ECHO_REPLY_DATA_OFFSET: usize = 4;

/// The length in bytes of the identifier and sequence number of an echo reply.
pub const ECHO_REPLY_HEADER_LEN: usize = 4;

/// The body of an ICMP echo reply.
#[derive(Debug)]
pub struct EchoReply<'a> {
    pub(crate) fields: PduFields<'a>,
}

impl<'a> View for EchoReply<'a> {
    type V = PduView;

    open(crate) spec fn view(&self) -> PduView {
        self.fields.view_as(TypeTag::EchoReply)
    }
}

impl<'a> EchoReply<'a> {
    /// Whether the node owns its header, as it does once a field was set.
    pub open(crate) spec fn owns_header(&self) -> bool {
        self.fields.header is Owned
    }

    /// Whether the node owns its payload.
    pub open(crate) spec fn owns_payload(&self) -> bool {
        self.fields.data is Owned
    }
}

impl<'a> Tid<'a> for EchoReply<'a> {
    open spec fn spec_id() -> TypeTag {
        TypeTag::EchoReply
    }

    fn self_id(&self) -> (t: TypeTag) {
        TypeTag::EchoReply
    }

    fn id() -> (t: TypeTag) {
        TypeTag::EchoReply
    }
}

impl<'a> EchoReply<'a> {
    /// An echo reply with identifier and sequence number zero and no data.
    pub fn new() -> (r: Self)
        ensures
            r@ == (PduView {
                tag: TypeTag::EchoReply,
                header: Seq::new(ECHO_REPLY_HEADER_LEN as nat, |i: int| 0u8),
                data: Seq::empty(),
                parent: None,
                child: None,
            }),
            r@.wf(),
    {
        EchoReply {
            fields: PduFields::new(ByteView::zeroed(ECHO_REPLY_HEADER_LEN), ByteView::empty()),
        }
    }

    /// The identifier.
    pub fn id(&self) -> (v: u16)
        requires
            self@.wf(),
        ensures
            v == field_u16(self@.header, ECHO_REPLY_ID_OFFSET as int),
    {
        self.fields.header.read_u16(ECHO_REPLY_ID_OFFSET)
    }

    /// Sets the identifier.
    pub fn set_id(&mut self, id: u16)
        requires
            old(self)@.wf(),
        ensures
            final(self)@ == old(self)@.with_header(
                splice(old(self)@.header, ECHO_REPLY_ID_OFFSET as int, be_bytes_u16(id)),
            ),
            final(self)@.wf(),
            final(self).owns_header(),
            field_u16(final(self)@.header, ECHO_REPLY_ID_OFFSET as int) == id,
    {
        self.fields.header.write_u16(ECHO_REPLY_ID_OFFSET, id);
        proof {
            lemma_field_u16_written(old(self)@.header, ECHO_REPLY_ID_OFFSET as int, id);
        }
    }

    /// Sets the identifier and hands the reply back for further changes.
    pub fn with_id(&mut self, id: u16) -> (r: &mut Self)
        requires
            old(self)@.wf(),
        ensures
            r@ == old(self)@.with_header(
                splice(old(self)@.header, ECHO_REPLY_ID_OFFSET as int, be_bytes_u16(id)),
            ),
            r@.wf(),
            *final(self) == *final(r),
    {
        self.set_id(id);
        self
    }

    /// The sequence number.
    pub fn seq_number(&self) -> (v: u16)
        requires
            self@.wf(),
        ensures
            v == field_u16(self@.header, ECHO_REPLY_SEQNUM_OFFSET as int),
    {
        self.fields.header.read_u16(ECHO_REPLY_SEQNUM_OFFSET)
    }

    /// Sets the sequence number.
    pub fn set_seq_number(&mut self, seq_number: u16)
        requires
            old(self)@.wf(),
        ensures
            final(self)@ == old(self)@.with_header(
                splice(
                    old(self)@.header,
                    ECHO_REPLY_SEQNUM_OFFSET as int,
                    be_bytes_u16(seq_number),
                ),
            ),
            final(self)@.wf(),
            final(self).owns_header(),
            field_u16(final(self)@.header, ECHO_REPLY_SEQNUM_OFFSET as int) == seq_number,
    {
        self.fields.header.write_u16(ECHO_REPLY_SEQNUM_OFFSET, seq_number);
        proof {
            lemma_field_u16_written(old(self)@.header, ECHO_REPLY_SEQNUM_OFFSET as int, seq_number);
        }
    }

    /// Sets the sequence number and hands the reply back for further changes.
    pub fn with_seq_number(&mut self, seq_number: u16) -> (r: &mut Self)
        requires
            old(self)@.wf(),
        ensures
            r@ == old(self)@.with_header(
                splice(
                    old(self)@.header,
                    ECHO_REPLY_SEQNUM_OFFSET as int,
                    be_bytes_u16(seq_number),
                ),
            ),
            r@.wf(),
            *final(self) == *final(r),
    {
        self.set_seq_number(seq_number);
        self
    }

    /// The echoed data.
    pub fn data(&self) -> (d: &[u8])
        ensures
            d@ == self@.data,
    {
        self.fields.data.as_slice()
    }

    /// Replaces the echoed data by a copy of `data`.
    pub fn set_data(&mut self, data: &[u8])
        ensures
            final(self)@ == old(self)@.with_data(data@),
            final(self).owns_payload(),
    {
        self.fields.data = ByteView::borrowed(data).to_owned();
    }

    /// Replaces the echoed data and hands the reply back for further changes.
    pub fn with_data(&mut self, data: &[u8]) -> (r: &mut Self)
        ensures
            r@ == old(self)@.with_data(data@),
            *final(self) == *final(r),
    {
        self.set_data(data);
        self
    }
}

/// What an echo reply with the header `header` projects to, where `data` stands
/// for what it carries.
pub open spec fn spec_echo_reply_json(header: Seq<u8>, data: Doc) -> Doc {
    named(
        "echo_reply"@,
        Seq::empty()
            .push(("echo_reply.id"@, doc_u16(field_u16(header, ECHO_REPLY_ID_OFFSET as int))))
            .push(
                (
                    "echo_reply.seq_number"@,
                    doc_u16(field_u16(header, ECHO_REPLY_SEQNUM_OFFSET as int)),
                ),
            )
            .push(("echo_reply.data"@, data)),
    )
}

impl<'a> EchoReply<'a> {
    /// Projects the fields of the header to a document, with `data` as the
    /// member that stands for what the node carries.
    pub fn fields_to_json(&self, data: Value) -> (v: Value)
        requires
            self@.wf(),
        ensures
            v@ == spec_echo_reply_json(self@.header, data@),
    {
        let mut inner = Value::object();
        inner.insert("echo_reply.id", Value::from_u16(self.id()));
        inner.insert("echo_reply.seq_number", Value::from_u16(self.seq_number()));
        inner.insert("echo_reply.data", data);
        Value::wrap("echo_reply", inner)
    }
}

impl<'a> Pdu<'a> for EchoReply<'a> {
    proof fn lemma_view_tag(&self) {
    }

    fn from_bytes(bytes: &'a [u8], tables: &DissectionTables) -> (r: PduResult<'a>) {
        decode(TypeTag::EchoReply, bytes, tables)
    }

    fn to_owned(&self) -> (r: Node<'static>) {
        Node::EchoReply(EchoReply { fields: self.fields.detach() })
    }

    fn to_bytes(&self) -> (r: Vec<u8>) {
        self.fields.encode()
    }

    fn to_json(&self) -> (v: Value) {
        self.fields_to_json(self.fields.data_to_json())
    }

    fn child_to_json(&self) -> (v: Value) {
        self.fields.data_to_json()
    }

    fn set_parent(&mut self, parent: Option<TypeTag>) {
        self.fields.parent = parent;
    }

    fn set_child(&mut self, child: Pob<'a>) {
        self.fields.child = child;
    }

    fn parent_pdu(&self) -> (p: Option<TypeTag>) {
        self.fields.parent
    }

    fn child_pdu(&self) -> (c: Option<&Node<'a>>) {
        self.fields.child_ref()
    }

    fn child_pdu_mut(&mut self) -> (c: Option<&mut Node<'a>>) {
        self.fields.child_mut()
    }

    fn into_node(self) -> (n: Node<'a>) {
        Node::EchoReply(self)
    }

    fn cast_ref<'b>(node: &'b Node<'a>) -> (r: Option<&'b Self>) {
        match node {
            Node::EchoReply(p) => Some(p),
            _ => None,
        }
    }

    fn cast_mut<'b>(node: &'b mut Node<'a>) -> (r: Option<&'b mut Self>) {
        match node {
            Node::EchoReply(p) => Some(p),
            _ => None,
        }
    }

    fn cast(node: Node<'a>) -> (r: Result<Self, Node<'a>>) {
        match node {
            Node::EchoReply(p) => Ok(p),
            other => Err(other),
        }
    }
}

} // verus!
