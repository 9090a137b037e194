//! The opaque node that wraps bytes nobody decodes further.

use vstd::prelude::*;
use crate::bytes::ByteView;
use crate::chain::{decode, raw_view};
use crate::json::{named, Doc, Value};
use crate::pdu::{Node, Pdu, PduFields, PduResult, PduView, Pob};
use crate::registry::DissectionTables;
use crate::tid::{Tid, TypeTag};
use crate::utils::{printable_ascii, printable_text};

verus! {

/// Bytes that no decoder has looked into.
#[derive(Debug)]
pub struct Raw<'a> {
    pub(crate) fields: PduFields<'a>,
}

impl<'a> View for Raw<'a> {
    type V = PduView;

    open(crate) spec fn view(&self) -> PduView {
        self.fields.view_as(TypeTag::Raw)
    }
}

impl<'a> Tid<'a> for Raw<'a> {
    open spec fn spec_id() -> TypeTag {
        TypeTag::Raw
    }

    fn self_id(&self) -> (t: TypeTag) {
        TypeTag::Raw
    }

    fn id() -> (t: TypeTag) {
        TypeTag::Raw
    }
}

/// What an opaque node that wraps `bytes` projects to: the bytes as text.
pub open spec fn spec_raw_json(bytes: Seq<u8>) -> Doc {
    named("raw"@, Seq::empty().push(("raw.data"@, Doc::Text(printable_text(bytes)))))
}

impl<'a> Raw<'a> {
    /// The opaque node that wraps `bytes`.
    pub fn new(bytes: &'a [u8]) -> (r: Self)
        ensures
            r@ == raw_view(bytes@),
            r@.wf(),
    {
        Raw { fields: PduFields::new(ByteView::borrowed(bytes), ByteView::empty()) }
    }

    /// The wrapped bytes.
    pub fn bytes(&self) -> (b: &[u8])
        ensures
            b@ == self@.header,
    {
        self.fields.header.as_slice()
    }

    /// Projects the node to a document that shows the wrapped bytes as text.
    pub fn fields_to_json(&self) -> (v: Value)
        ensures
            v@ == spec_raw_json(self@.header),
    {
        let mut inner = Value::object();
        inner.insert("raw.data", Value::text(printable_ascii(self.fields.header.as_slice())));
        Value::wrap("raw", inner)
    }
}

impl<'a> Pdu<'a> for Raw<'a> {
    proof fn lemma_view_tag(&self) {
    }

    fn from_bytes(bytes: &'a [u8], tables: &DissectionTables) -> (r: PduResult<'a>) {
        decode(TypeTag::Raw, bytes, tables)
    }

    fn to_owned(&self) -> (r: Node<'static>) {
        Node::Raw(Raw { fields: self.fields.detach() })
    }

    fn to_bytes(&self) -> (r: Vec<u8>) {
        self.fields.encode()
    }

    fn to_json(&self) -> (v: Value) {
        self.fields_to_json()
    }

    fn child_to_json(&self) -> (v: Value) {
        self.fields.data_to_json()
    }

    fn set_parent(&mut self, parent: Option<TypeTag>) {
        self.fields.parent = parent;
    }

    fn set_child(&mut self, child: Pob<'a>) {
        self.fields.child = child;
    }

    fn parent_pdu(&self) -> (p: Option<TypeTag>) {
        self.fields.parent
    }

    fn child_pdu(&self) -> (c: Option<&Node<'a>>) {
        self.fields.child_ref()
    }

    fn child_pdu_mut(&mut self) -> (c: Option<&mut Node<'a>>) {
        self.fields.child_mut()
    }

    fn into_node(self) -> (n: Node<'a>) {
        Node::Raw(self)
    }

    fn cast_ref<'b>(node: &'b Node<'a>) -> (r: Option<&'b Self>) {
        match node {
            Node::Raw(p) => Some(p),
            _ => None,
        }
    }

    fn cast_mut<'b>(node: &'b mut Node<'a>) -> (r: Option<&'b mut Self>) {
        match node {
            Node::Raw(p) => Some(p),
            _ => None,
        }
    }

    fn cast(node: Node<'a>) -> (r: Result<Self, Node<'a>>) {
        match node {
            Node::Raw(p) => Ok(p),
            other => Err(other),
        }
    }
}

} // verus!
