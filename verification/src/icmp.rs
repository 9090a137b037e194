//! ICMP messages.

use vstd::prelude::*;
use crate::chain::decode;
use crate::json::{doc_u8, named, Doc, Value};
use crate::pdu::{Node, Pdu, PduFields, PduResult, PduView, Pob};
use crate::registry::DissectionTables;
use crate::table::TableKey;
use crate::tid::{Tid, TypeTag};

verus! {

/// Where the message type is.
pub const ICMP_TYPE_OFFSET: usize = 0;

/// Where the message code is.
pub const ICMP_CODE_OFFSET: usize = 1;

/// The length in bytes of the header that every ICMP message starts with.
pub const ICMP_HEADER_LEN: usize = 4;

/// The type of an ICMP message: the kind of its body.
#[derive(Debug, Clone, Copy, PartialEq, Eq, Hash)]
pub struct IcmpType(pub u8);

impl TableKey for IcmpType {
    open spec fn spec_key(self) -> u64 {
        self.0.spec_key()
    }

    fn key(&self) -> (k: u64) {
        self.0.key()
    }

    proof fn lemma_key_injective(a: Self, b: Self) {
    }
}

/// The message type that a message starting with `bytes` declares.
pub open spec fn spec_message_type(bytes: Seq<u8>) -> u8 {
    bytes[0]
}

/// Reads the message type of the message that starts with `bytes`.
pub fn get_message_type(bytes: &[u8]) -> (t: u8)
    requires
        bytes@.len() > 0,
    ensures
        t == spec_message_type(bytes@),
{
    bytes[ICMP_TYPE_OFFSET]
}

/// An ICMP message.
#[derive(Debug)]
pub struct Icmp<'a> {
    pub(crate) fields: PduFields<'a>,
}

impl<'a> View for Icmp<'a> {
    type V = PduView;

    open(crate) spec fn view(&self) -> PduView {
        self.fields.view_as(TypeTag::Icmp)
    }
}

impl<'a> Tid<'a> for Icmp<'a> {
    open spec fn spec_id() -> TypeTag {
        TypeTag::Icmp
    }

    fn self_id(&self) -> (t: TypeTag) {
        TypeTag::Icmp
    }

    fn id() -> (t: TypeTag) {
        TypeTag::Icmp
    }
}

/// The message code that a message starting with `bytes` declares.
pub open spec fn spec_message_code(bytes: Seq<u8>) -> u8 {
    bytes[1]
}

/// The kinds of ICMP message.
#[derive(Debug, Clone, Copy, PartialEq, Eq, Structural)]
pub enum ControlMessage {
    /// Type 0.
    EchoReply,
    /// Type 8.
    EchoRequest,
    /// Type 3.
    DestUnreachable,
    /// Type 5.
    RedirectMessage,
    /// Type 9.
    RouterAdvertisement,
    /// Type 10.
    RouterSolicitation,
    /// Type 11.
    TimeExceeded,
    /// Type 12.
    ParameterProblem,
    /// Type 13.
    Timestamp,
    /// Type 14.
    TimestampReply,
    /// Type 42.
    ExtEchoRequest,
    /// Type 43.
    ExtEchoReply,
    /// Any other type.
    Undefined,
}

impl ControlMessage {
    /// The kind of message that the message type `t` stands for.
    pub open spec fn spec_from_type(t: u8) -> ControlMessage {
        if t == 0 {
            ControlMessage::EchoReply
        } else if t == 8 {
            ControlMessage::EchoRequest
        } else if t == 3 {
            ControlMessage::DestUnreachable
        } else if t == 5 {
            ControlMessage::RedirectMessage
        } else if t == 9 {
            ControlMessage::RouterAdvertisement
        } else if t == 10 {
            ControlMessage::RouterSolicitation
        } else if t == 11 {
            ControlMessage::TimeExceeded
        } else if t == 12 {
            ControlMessage::ParameterProblem
        } else if t == 13 {
            ControlMessage::Timestamp
        } else if t == 14 {
            ControlMessage::TimestampReply
        } else if t == 42 {
            ControlMessage::ExtEchoRequest
        } else if t == 43 {
            ControlMessage::ExtEchoReply
        } else {
            ControlMessage::Undefined
        }
    }

    /// The kind of message that the message type `t` stands for.
    pub fn from_type(t: u8) -> (m: Self)
        ensures
            m == Self::spec_from_type(t),
    {
        match t {
            0 => ControlMessage::EchoReply,
            8 => ControlMessage::EchoRequest,
            3 => ControlMessage::DestUnreachable,
            5 => ControlMessage::RedirectMessage,
            9 => ControlMessage::RouterAdvertisement,
            10 => ControlMessage::RouterSolicitation,
            11 => ControlMessage::TimeExceeded,
            12 => ControlMessage::ParameterProblem,
            13 => ControlMessage::Timestamp,
            14 => ControlMessage::TimestampReply,
            42 => ControlMessage::ExtEchoRequest,
            43 => ControlMessage::ExtEchoReply,
            _ => ControlMessage::Undefined,
        }
    }
}

/// What an ICMP message with the header `header` projects to, where `data`
/// stands for what it carries.
pub open spec fn spec_icmp_json(header: Seq<u8>, data: Doc) -> Doc {
    named(
        "icmp"@,
        Seq::empty().push(("icmp.type"@, doc_u8(spec_message_type(header)))).push(
            ("icmp.code"@, doc_u8(spec_message_code(header))),
        ).push(("icmp.data"@, data)),
    )
}

impl<'a> Icmp<'a> {
    /// The message type.
    pub fn msg_type(&self) -> (t: u8)
        requires
            self@.wf(),
        ensures
            t == spec_message_type(self@.header),
    {
        self.fields.header.get(ICMP_TYPE_OFFSET)
    }

    /// The message code.
    pub fn msg_code(&self) -> (c: u8)
        requires
            self@.wf(),
        ensures
            c == spec_message_code(self@.header),
    {
        self.fields.header.get(ICMP_CODE_OFFSET)
    }

    /// The kind of message.
    pub fn control_message(&self) -> (m: ControlMessage)
        requires
            self@.wf(),
        ensures
            m == ControlMessage::spec_from_type(spec_message_type(self@.header)),
    {
        ControlMessage::from_type(self.msg_type())
    }

    /// The bytes that follow the header.
    pub fn payload(&self) -> (d: &[u8])
        ensures
            d@ == self@.data,
    {
        self.fields.data.as_slice()
    }

    /// Projects the fields of the header to a document, with `data` as the
    /// member that stands for what the message carries.
    pub fn fields_to_json(&self, data: Value) -> (v: Value)
        requires
            self@.wf(),
        ensures
            v@ == spec_icmp_json(self@.header, data@),
    {
        let mut inner = Value::object();
        inner.insert("icmp.type", Value::from_u8(self.msg_type()));
        inner.insert("icmp.code", Value::from_u8(self.msg_code()));
        inner.insert("icmp.data", data);
        Value::wrap("icmp", inner)
    }
}

impl<'a> Pdu<'a> for Icmp<'a> {
    proof fn lemma_view_tag(&self) {
    }

    fn from_bytes(bytes: &'a [u8], tables: &DissectionTables) -> (r: PduResult<'a>) {
        decode(TypeTag::Icmp, bytes, tables)
    }

    fn to_owned(&self) -> (r: Node<'static>) {
        Node::Icmp(Icmp { fields: self.fields.detach() })
    }

    fn to_bytes(&self) -> (r: Vec<u8>) {
        self.fields.encode()
    }

    fn to_json(&self) -> (v: Value) {
        self.fields_to_json(self.fields.data_to_json())
    }

    fn child_to_json(&self) -> (v: Value) {
        self.fields.data_to_json()
    }

    fn set_parent(&mut self, parent: Option<TypeTag>) {
        self.fields.parent = parent;
    }

    fn set_child(&mut self, child: Pob<'a>) {
        self.fields.child = child;
    }

    fn parent_pdu(&self) -> (p: Option<TypeTag>) {
        self.fields.parent
    }

    fn child_pdu(&self) -> (c: Option<&Node<'a>>) {
        self.fields.child_ref()
    }

    fn child_pdu_mut(&mut self) -> (c: Option<&mut Node<'a>>) {
        self.fields.child_mut()
    }

    fn into_node(self) -> (n: Node<'a>) {
        Node::Icmp(self)
    }

    fn cast_ref<'b>(node: &'b Node<'a>) -> (r: Option<&'b Self>) {
        match node {
            Node::Icmp(p) => Some(p),
            _ => None,
        }
    }

    fn cast_mut<'b>(node: &'b mut Node<'a>) -> (r: Option<&'b mut Self>) {
        match node {
            Node::Icmp(p) => Some(p),
            _ => None,
        }
    }

    fn cast(node: Node<'a>) -> (r: Result<Self, Node<'a>>) {
        match node {
            Node::Icmp(p) => Ok(p),
            other => Err(other),
        }
    }
}

} // verus!
