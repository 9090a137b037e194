//! IPv4 options.

use vstd::prelude::*;
use crate::bytes::ByteView;
use crate::chain::decode;
use crate::json::{doc_u8, named, Doc, Value};
use crate::error::ParseError;
use crate::pdu::{Node, Pdu, PduFields, PduResult, PduView, Pob};
use crate::registry::DissectionTables;
use crate::tid::{Tid, TypeTag};

verus! {

/// Where the option type is.
pub const IPV4_OPT_TYPE_OFFSET: usize = 0;

/// Where the option length is.
pub const IPV4_OPT_SIZE_OFFSET: usize = 1;

/// Where the data of an option starts.
pub const IPV4_OPT_DATA_OFFSET: usize = 3;

/// The length in bytes of the type and length fields that open an option.
pub const IPV4_OPT_SIZE: usize = 2;

/// End of the option list.
pub const END: u8 = 0;

/// No operation.
pub const NOP: u8 = 1;

/// Security.
pub const SEC: u8 = 2;

/// Loose source routing.
pub const LSR: u8 = 3;

/// Strict source routing.
pub const SSR: u8 = 9;

/// Record route.
pub const REC: u8 = 7;

/// Stream identifier.
pub const SID: u8 = 8;

/// Internet timestamp.
pub const ITS: u8 = 4;

/// The type of the option that starts with `bytes`.
pub open spec fn spec_ip_opt_type(bytes: Seq<u8>) -> u8 {
    bytes[IPV4_OPT_TYPE_OFFSET as int]
}

/// Whether options of type `opt_type` carry their length in their second
/// byte.
pub open spec fn has_length_byte(opt_type: u8) -> bool {
    opt_type == LSR || opt_type == ITS || opt_type == SSR || opt_type == REC
}

/// The length in bytes of the option that starts with `bytes`.
///
/// End-of-list and no-operation take one byte, security eleven, the stream
/// identifier four. Source routing, record route and timestamp say in their
/// second byte how many bytes follow the type and length. Nothing is known
/// of other types.
pub open spec fn spec_ip_opt_length(bytes: Seq<u8>) -> Result<usize, ParseError> {
    if bytes.len() == 0 {
        Err(ParseError::NotEnoughData)
    } else {
        let opt_type = spec_ip_opt_type(bytes);
        if opt_type == END || opt_type == NOP {
            Ok(1usize)
        } else if opt_type == SEC {
            Ok(11usize)
        } else if opt_type == SID {
            Ok(4usize)
        } else if has_length_byte(opt_type) {
            if bytes.len() <= IPV4_OPT_SIZE_OFFSET {
                Err(ParseError::NotEnoughData)
            } else {
                Ok((IPV4_OPT_SIZE + bytes[IPV4_OPT_SIZE_OFFSET as int]) as usize)
            }
        } else {
            Err(ParseError::UnsupportedProtocol)
        }
    }
}

/// Reads the type of the option that starts with `bytes`.
pub fn get_ip_opt_type(bytes: &[u8]) -> (t: u8)
    requires
        bytes@.len() > IPV4_OPT_TYPE_OFFSET,
    ensures
        t == spec_ip_opt_type(bytes@),
{
    bytes[IPV4_OPT_TYPE_OFFSET]
}

/// Computes the length in bytes of the option that starts with `bytes`.
pub fn get_ip_opt_length(bytes: &[u8]) -> (r: Result<usize, ParseError>)
    ensures
        r == spec_ip_opt_length(bytes@),
{
    if bytes.len() == 0 {
        return Err(ParseError::NotEnoughData);
    }
    let opt_type: u8 = get_ip_opt_type(bytes);
    if opt_type == END || opt_type == NOP {
        Ok(1)
    } else if opt_type == SEC {
        Ok(11)
    } else if opt_type == SID {
        Ok(4)
    } else if opt_type == LSR || opt_type == ITS || opt_type == SSR || opt_type == REC {
        if bytes.len() <= IPV4_OPT_SIZE_OFFSET {
            Err(ParseError::NotEnoughData)
        } else {
            Ok(IPV4_OPT_SIZE + bytes[IPV4_OPT_SIZE_OFFSET] as usize)
        }
    } else {
        Err(ParseError::UnsupportedProtocol)
    }
}

/// A single IPv4 option.
#[derive(Debug)]
pub struct IpOption<'a> {
    pub(crate) fields: PduFields<'a>,
}

impl<'a> View for IpOption<'a> {
    type V = PduView;

    open(crate) spec fn view(&self) -> PduView {
        self.fields.view_as(TypeTag::IpOption)
    }
}

impl<'a> IpOption<'a> {
    /// Whether the node owns its header, as it does once a field was set.
    pub open(crate) spec fn owns_header(&self) -> bool {
        self.fields.header is Owned
    }

    /// Whether the node owns its payload.
    pub open(crate) spec fn owns_payload(&self) -> bool {
        self.fields.data is Owned
    }
}

impl<'a> Tid<'a> for IpOption<'a> {
    open spec fn spec_id() -> TypeTag {
        TypeTag::IpOption
    }

    fn self_id(&self) -> (t: TypeTag) {
        TypeTag::IpOption
    }

    fn id() -> (t: TypeTag) {
        TypeTag::IpOption
    }
}

impl<'a> IpOption<'a> {
    /// An option of type and length zero, without data.
    pub fn new() -> (r: Self)
        ensures
            r@ == (PduView {
                tag: TypeTag::IpOption,
                header: Seq::new(IPV4_OPT_SIZE as nat, |i: int| 0u8),
                data: Seq::empty(),
                parent: None,
                child: None,
            }),
            r@.wf(),
    {
        IpOption { fields: PduFields::new(ByteView::zeroed(IPV4_OPT_SIZE), ByteView::empty()) }
    }

    /// The option type.
    pub fn opt_type(&self) -> (v: u8)
        requires
            self@.wf(),
        ensures
            v == self@.header[IPV4_OPT_TYPE_OFFSET as int],
    {
        self.fields.header.get(IPV4_OPT_TYPE_OFFSET)
    }

    /// Sets the option type.
    pub fn set_opt_type(&mut self, opt_type: u8)
        requires
            old(self)@.wf(),
        ensures
            final(self)@ == old(self)@.with_header(
                old(self)@.header.update(IPV4_OPT_TYPE_OFFSET as int, opt_type),
            ),
            final(self)@.wf(),
            final(self).owns_header(),
            final(self)@.header[IPV4_OPT_TYPE_OFFSET as int] == opt_type,
    {
        self.fields.header.set(IPV4_OPT_TYPE_OFFSET, opt_type);
    }

    /// Sets the option type and hands the option back for further changes.
    pub fn with_opt_type(&mut self, opt_type: u8) -> (r: &mut Self)
        requires
            old(self)@.wf(),
        ensures
            r@ == old(self)@.with_header(
                old(self)@.header.update(IPV4_OPT_TYPE_OFFSET as int, opt_type),
            ),
            r@.wf(),
            *final(self) == *final(r),
    {
        self.set_opt_type(opt_type);
        self
    }

    /// The option length.
    pub fn opt_length(&self) -> (v: u8)
        requires
            self@.wf(),
        ensures
            v == self@.header[IPV4_OPT_SIZE_OFFSET as int],
    {
        self.fields.header.get(IPV4_OPT_SIZE_OFFSET)
    }

    /// Sets the option length.
    pub fn set_opt_length(&mut self, opt_length: u8)
        requires
            old(self)@.wf(),
        ensures
            final(self)@ == old(self)@.with_header(
                old(self)@.header.update(IPV4_OPT_SIZE_OFFSET as int, opt_length),
            ),
            final(self)@.wf(),
            final(self).owns_header(),
            final(self)@.header[IPV4_OPT_SIZE_OFFSET as int] == opt_length,
    {
        self.fields.header.set(IPV4_OPT_SIZE_OFFSET, opt_length);
    }

    /// Sets the option length and hands the option back for further changes.
    pub fn with_opt_length(&mut self, opt_length: u8) -> (r: &mut Self)
        requires
            old(self)@.wf(),
        ensures
            r@ == old(self)@.with_header(
                old(self)@.header.update(IPV4_OPT_SIZE_OFFSET as int, opt_length),
            ),
            r@.wf(),
            *final(self) == *final(r),
    {
        self.set_opt_length(opt_length);
        self
    }

    /// The data of the option: the header bytes from the data offset up to the
    /// length that the option declares.
    pub fn opt_data(&self) -> (d: &[u8])
        requires
            self@.wf(),
            IPV4_OPT_DATA_OFFSET <= self@.header[IPV4_OPT_SIZE_OFFSET as int] <= self@.header.len(),
        ensures
            d@ == self@.header.subrange(
                IPV4_OPT_DATA_OFFSET as int,
                self@.header[IPV4_OPT_SIZE_OFFSET as int] as int,
            ),
    {
        let end: usize = self.opt_length() as usize;
        self.fields.header.slice(IPV4_OPT_DATA_OFFSET, end)
    }

    /// Appends `data` to the bytes that the option carries after its header.
    pub fn set_opt_data(&mut self, data: &[u8])
        ensures
            final(self)@ == old(self)@.with_data(old(self)@.data + data@),
            final(self).owns_payload(),
    {
        self.fields.data.append(data);
    }

    /// Appends `data` to the bytes that the option carries after its header,
    /// and hands the option back for further changes.
    pub fn with_opt_data(&mut self, data: &[u8]) -> (r: &mut Self)
        ensures
            r@ == old(self)@.with_data(old(self)@.data + data@),
            *final(self) == *final(r),
    {
        self.set_opt_data(data);
        self
    }
}

/// What an IPv4 option with the header `header` projects to, where `data`
/// stands for what it carries.
pub open spec fn spec_ip_opt_json(header: Seq<u8>, data: Doc) -> Doc {
    named(
        "ip_opt"@,
        Seq::empty()
            .push(("ip_opt.type"@, doc_u8(header[IPV4_OPT_TYPE_OFFSET as int])))
            .push(("ip_opt.length"@, doc_u8(header[IPV4_OPT_SIZE_OFFSET as int])))
            .push(("ip_opt.data"@, data)),
    )
}

impl<'a> IpOption<'a> {
    /// Projects the fields of the header to a document, with `data` as the
    /// member that stands for what the node carries.
    pub fn fields_to_json(&self, data: Value) -> (v: Value)
        requires
            self@.wf(),
        ensures
            v@ == spec_ip_opt_json(self@.header, data@),
    {
        let mut inner = Value::object();
        inner.insert("ip_opt.type", Value::from_u8(self.opt_type()));
        inner.insert("ip_opt.length", Value::from_u8(self.opt_length()));
        inner.insert("ip_opt.data", data);
        Value::wrap("ip_opt", inner)
    }
}

impl<'a> Pdu<'a> for IpOption<'a> {
    proof fn lemma_view_tag(&self) {
    }

    fn from_bytes(bytes: &'a [u8], tables: &DissectionTables) -> (r: PduResult<'a>) {
        decode(TypeTag::IpOption, bytes, tables)
    }

    fn to_owned(&self) -> (r: Node<'static>) {
        Node::IpOption(IpOption { fields: self.fields.detach() })
    }

    fn to_bytes(&self) -> (r: Vec<u8>) {
        self.fields.encode()
    }

    fn to_json(&self) -> (v: Value) {
        self.fields_to_json(self.fields.data_to_json())
    }

    fn child_to_json(&self) -> (v: Value) {
        self.fields.data_to_json()
    }

    fn set_parent(&mut self, parent: Option<TypeTag>) {
        self.fields.parent = parent;
    }

    fn set_child(&mut self, child: Pob<'a>) {
        self.fields.child = child;
    }

    fn parent_pdu(&self) -> (p: Option<TypeTag>) {
        self.fields.parent
    }

    fn child_pdu(&self) -> (c: Option<&Node<'a>>) {
        self.fields.child_ref()
    }

    fn child_pdu_mut(&mut self) -> (c: Option<&mut Node<'a>>) {
        self.fields.child_mut()
    }

    fn into_node(self) -> (n: Node<'a>) {
        Node::IpOption(self)
    }

    fn cast_ref<'b>(node: &'b Node<'a>) -> (r: Option<&'b Self>) {
        match node {
            Node::IpOption(p) => Some(p),
            _ => None,
        }
    }

    fn cast_mut<'b>(node: &'b mut Node<'a>) -> (r: Option<&'b mut Self>) {
        match node {
            Node::IpOption(p) => Some(p),
            _ => None,
        }
    }

    fn cast(node: Node<'a>) -> (r: Result<Self, Node<'a>>) {
        match node {
            Node::IpOption(p) => Ok(p),
            other => Err(other),
        }
    }
}

} // verus!
