//! Protocol nodes: the chain that decoding produces and the operations that
//! every layer of it supports.

use vstd::prelude::*;
use crate::bytes::ByteView;
use crate::chain::{matches_model, spec_decode};
use crate::echo_reply::{spec_echo_reply_json, EchoReply, ECHO_REPLY_HEADER_LEN};
use crate::error::ParseError;
use crate::ethernet::{spec_eth_json, Ethernet, ETH_HEADER_LEN};
use crate::icmp::{spec_icmp_json, Icmp, ICMP_HEADER_LEN};
use crate::ip::{spec_ip_json, Ip, IPV4_HEADER_LEN};
use crate::ip6::{spec_ipv6_json, Ipv6, IPV6_HEADER_LEN};
use crate::ip_opt::{spec_ip_opt_json, IpOption, IPV4_OPT_SIZE};
use crate::json::{Doc, Value};
use crate::raw::{spec_raw_json, Raw};
use crate::registry::DissectionTables;
use crate::tcp::{spec_tcp_json, Tcp, TCP_MIN_HEADER_LEN};
use crate::tid::{Tid, TypeTag};
use crate::udp::{spec_udp_json, Udp, UDP_HEADER_LEN};
use crate::utils::{printable_ascii, printable_text};

verus! {

/// The mathematical content of a node and of everything below it.
///
/// It records what the node holds, not where the bytes live: a node that
/// borrows its bytes and one that owns a copy of them have the same model.
pub struct PduView {
    /// The protocol type of the node.
    pub tag: TypeTag,
    /// The bytes of this layer's header.
    pub header: Seq<u8>,
    /// The bytes that this layer carries for the layer inside it.
    pub data: Seq<u8>,
    /// The protocol type of the enclosing layer, where somebody noted it.
    pub parent: Option<TypeTag>,
    /// The node decoded from the payload, if any.
    pub child: Option<Box<PduView>>,
}

/// The least number of header bytes that a node of type `tag` holds.
pub open spec fn min_header_len(tag: TypeTag) -> nat {
    match tag {
        TypeTag::Ethernet => 14,
        TypeTag::Ip => 20,
        TypeTag::Ipv6 => 40,
        TypeTag::IpOption => 2,
        TypeTag::Icmp => 4,
        TypeTag::EchoReply => 4,
        TypeTag::Tcp => 20,
        TypeTag::Udp => 8,
        TypeTag::Raw => 0,
    }
}

/// The least number of header bytes that a node of type `tag` holds.
pub fn min_header_size(tag: TypeTag) -> (n: usize)
    ensures
        n == min_header_len(tag),
{
    match tag {
        TypeTag::Ethernet => ETH_HEADER_LEN,
        TypeTag::Ip => IPV4_HEADER_LEN,
        TypeTag::Ipv6 => IPV6_HEADER_LEN,
        TypeTag::IpOption => IPV4_OPT_SIZE,
        TypeTag::Icmp => ICMP_HEADER_LEN,
        TypeTag::EchoReply => ECHO_REPLY_HEADER_LEN,
        TypeTag::Tcp => TCP_MIN_HEADER_LEN,
        TypeTag::Udp => UDP_HEADER_LEN,
        TypeTag::Raw => 0,
    }
}

impl PduView {
    /// Every layer of the chain holds at least its protocol's minimum header.
    pub open spec fn wf(self) -> bool
        decreases self,
    {
        &&& self.header.len() >= min_header_len(self.tag)
        &&& match self.child {
            Some(c) => c.wf(),
            None => true,
        }
    }

    /// The bytes that the chain encodes to: the header, followed by the
    /// encoding of the child or, without a child, by the payload.
    pub open spec fn encode(self) -> Seq<u8>
        decreases self,
    {
        self.header + match self.child {
            Some(c) => c.encode(),
            None => self.data,
        }
    }

    /// The first node of type `tag` on the way down the chain.
    pub open spec fn find(self, tag: TypeTag) -> Option<PduView>
        decreases self,
    {
        if self.tag == tag {
            Some(self)
        } else {
            match self.child {
                Some(c) => c.find(tag),
                None => None,
            }
        }
    }

    /// The chain with its first node of type `tag` replaced by `node`.
    pub open spec fn replace_first(self, tag: TypeTag, node: PduView) -> PduView
        decreases self,
    {
        if self.tag == tag {
            node
        } else {
            match self.child {
                Some(c) => PduView { child: Some(Box::new(c.replace_first(tag, node))), ..self },
                None => self,
            }
        }
    }

    /// The protocol types of the chain, outermost first.
    pub open spec fn tags(self) -> Seq<TypeTag>
        decreases self,
    {
        seq![self.tag] + match self.child {
            Some(c) => c.tags(),
            None => Seq::empty(),
        }
    }

    /// What the chain projects to: the document of the outermost layer, in
    /// which the member for the payload holds the document of the layer
    /// inside or, in the innermost layer, the payload as text.
    pub open spec fn project(self) -> Doc
        decreases self,
    {
        let data = match self.child {
            Some(c) => c.project(),
            None => Doc::Text(printable_text(self.data)),
        };
        match self.tag {
            TypeTag::Ethernet => spec_eth_json(self.header, data),
            TypeTag::Ip => spec_ip_json(self.header, data),
            TypeTag::Ipv6 => spec_ipv6_json(data),
            TypeTag::IpOption => spec_ip_opt_json(self.header, data),
            TypeTag::Icmp => spec_icmp_json(self.header, data),
            TypeTag::EchoReply => spec_echo_reply_json(self.header, data),
            TypeTag::Tcp => spec_tcp_json(self.header, data),
            TypeTag::Udp => spec_udp_json(self.header, data),
            TypeTag::Raw => spec_raw_json(self.header),
        }
    }

    /// What the member for the payload holds in the projection of the node.
    pub open spec fn project_data(self) -> Doc {
        match self.child {
            Some(c) => c.project(),
            None => Doc::Text(printable_text(self.data)),
        }
    }

    /// The node with `header` in place of its header.
    pub open spec fn with_header(self, header: Seq<u8>) -> PduView {
        PduView { header, ..self }
    }

    /// The node with `data` in place of its payload.
    pub open spec fn with_data(self, data: Seq<u8>) -> PduView {
        PduView { data, ..self }
    }

    /// The node alone, cut off from its neighbours.
    pub open spec fn detached(self) -> PduView {
        PduView { parent: None, child: None, ..self }
    }

    /// The nodes of the chain, outermost first, each cut off from its
    /// neighbours.
    pub open spec fn layers(self) -> Seq<PduView>
        decreases self,
    {
        seq![self.detached()] + match self.child {
            Some(c) => c.layers(),
            None => Seq::empty(),
        }
    }
}

/// What every node stores, whatever its protocol.
#[derive(Debug)]
pub struct PduFields<'a> {
    pub(crate) header: ByteView<'a>,
    pub(crate) data: ByteView<'a>,
    pub(crate) parent: Option<TypeTag>,
    pub(crate) child: Pob<'a>,
}

/// A node of any protocol type.
#[derive(Debug)]
pub enum Node<'a> {
    /// An Ethernet II frame.
    Ethernet(Ethernet<'a>),
    /// An IPv4 datagram.
    Ip(Ip<'a>),
    /// An IPv6 datagram.
    Ipv6(Ipv6<'a>),
    /// A single IPv4 option.
    IpOption(IpOption<'a>),
    /// An ICMP message.
    Icmp(Icmp<'a>),
    /// The body of an ICMP echo reply.
    EchoReply(EchoReply<'a>),
    /// A TCP segment.
    Tcp(Tcp<'a>),
    /// A UDP datagram.
    Udp(Udp<'a>),
    /// Bytes that no decoder has looked into.
    Raw(Raw<'a>),
}

/// A node that may be absent, held by whoever owns it.
pub type Pob<'a> = Option<Box<Node<'a>>>;

impl<'a> PduFields<'a> {
    /// The model of a node of type `tag` that stores these fields.
    pub open(crate) spec fn view_as(&self, tag: TypeTag) -> PduView
        decreases self,
    {
        PduView {
            tag,
            header: self.header@,
            data: self.data@,
            parent: self.parent,
            child: match self.child {
                Some(b) => Some(Box::new(b.model())),
                None => None,
            },
        }
    }

    /// Whether the header and the payload, here and in every node below,
    /// still live in the buffer that they were decoded from.
    pub open(crate) spec fn borrowed(&self) -> bool
        decreases self,
    {
        &&& self.header is Borrowed
        &&& self.data is Borrowed
        &&& match self.child {
            Some(b) => b.zero_copy(),
            None => true,
        }
    }

    /// Whether the header and the payload, here and in every node below,
    /// still live in the buffer that they were decoded from.
    pub(crate) fn is_borrowed(&self) -> (b: bool)
        ensures
            b == self.borrowed(),
        decreases self,
    {
        self.header.is_borrowed() && self.data.is_borrowed() && match &self.child {
            Some(c) => c.is_zero_copy(),
            None => true,
        }
    }

    /// The node below, if any.
    pub(crate) fn child_ref(&self) -> (c: Option<&Node<'a>>)
        ensures
            c is Some <==> self.child is Some,
            c is Some ==> *c->0 == *self.child->0,
    {
        match &self.child {
            Some(b) => Some(&**b),
            None => None,
        }
    }

    /// The node below, if any, for editing.
    pub(crate) fn child_mut(&mut self) -> (c: Option<&mut Node<'a>>)
        ensures
            c is Some <==> old(self).child is Some,
            c is Some ==> *c->0 == *old(self).child->0 && *final(self) == (PduFields {
                child: Some(Box::new(*final(c->0))),
                ..*old(self)
            }),
            c is None ==> *final(self) == *old(self),
    {
        match &mut self.child {
            Some(b) => Some(&mut **b),
            None => None,
        }
    }

    /// The header followed by the encoding of the node below or, without one,
    /// by the payload.
    pub(crate) fn encode(&self) -> (r: Vec<u8>)
        ensures
            r@ == self.header@ + match pob_view(self.child) {
                Some(c) => c.encode(),
                None => self.data@,
            },
        decreases self,
    {
        let mut res: Vec<u8> = self.header.to_vec();
        match self.child_ref() {
            Some(c) => {
                let inner = c.to_bytes();
                res.extend_from_slice(inner.as_slice());
            },
            None => {
                res.extend_from_slice(self.data.as_slice());
            },
        }
        res
    }

    /// The document of the node below or, without one, the payload as text.
    pub(crate) fn data_to_json(&self) -> (v: Value)
        requires
            pob_view(self.child) is Some ==> pob_view(self.child)->0.wf(),
        ensures
            v@ == match pob_view(self.child) {
                Some(c) => c.project(),
                None => Doc::Text(printable_text(self.data@)),
            },
        decreases self, 1nat,
    {
        match self.child_ref() {
            Some(c) => c.to_json(),
            None => Value::text(printable_ascii(self.data.as_slice())),
        }
    }

    /// An owned copy of the header and the payload, without neighbours.
    pub(crate) fn detach(&self) -> (f: PduFields<'static>)
        ensures
            f.header@ == self.header@,
            f.data@ == self.data@,
            f.header is Owned,
            f.data is Owned,
            f.parent is None,
            f.child is None,
    {
        PduFields {
            header: self.header.to_owned(),
            data: self.data.to_owned(),
            parent: None,
            child: None,
        }
    }

    /// Fields with the given header and payload and no neighbours.
    pub(crate) fn new(header: ByteView<'a>, data: ByteView<'a>) -> (f: Self)
        ensures
            f.header == header,
            f.data == data,
            f.parent is None,
            f.child is None,
    {
        PduFields { header, data, parent: None, child: None }
    }
}

impl<'a> Node<'a> {
    /// The protocol type of the node.
    pub open spec fn tag(&self) -> TypeTag {
        match self {
            Node::Ethernet(_) => TypeTag::Ethernet,
            Node::Ip(_) => TypeTag::Ip,
            Node::Ipv6(_) => TypeTag::Ipv6,
            Node::IpOption(_) => TypeTag::IpOption,
            Node::Icmp(_) => TypeTag::Icmp,
            Node::EchoReply(_) => TypeTag::EchoReply,
            Node::Tcp(_) => TypeTag::Tcp,
            Node::Udp(_) => TypeTag::Udp,
            Node::Raw(_) => TypeTag::Raw,
        }
    }

    /// What the node stores.
    pub open(crate) spec fn fields(&self) -> PduFields<'a> {
        match self {
            Node::Ethernet(p) => p.fields,
            Node::Ip(p) => p.fields,
            Node::Ipv6(p) => p.fields,
            Node::IpOption(p) => p.fields,
            Node::Icmp(p) => p.fields,
            Node::EchoReply(p) => p.fields,
            Node::Tcp(p) => p.fields,
            Node::Udp(p) => p.fields,
            Node::Raw(p) => p.fields,
        }
    }
}

impl<'a> Node<'a> {
    /// The model of the node and of everything below it.
    pub open(crate) spec fn model(&self) -> PduView
        decreases self,
    {
        self.fields().view_as(self.tag())
    }

    /// Whether no byte of the chain was copied: every header and payload in
    /// it still lives in the buffer that it was decoded from.
    pub open(crate) spec fn zero_copy(&self) -> bool
        decreases self,
    {
        self.fields().borrowed()
    }

    /// Whether the node owns its header and its payload.
    pub open(crate) spec fn owns_bytes(&self) -> bool {
        self.fields().header is Owned && self.fields().data is Owned
    }
}

/// The model of a node that may be absent.
pub open(crate) spec fn pob_view<'a>(pob: Pob<'a>) -> Option<Box<PduView>> {
    match pob {
        Some(b) => Some(Box::new(b.model())),
        None => None,
    }
}

impl<'a> View for Node<'a> {
    type V = PduView;

    open(crate) spec fn view(&self) -> PduView {
        self.model()
    }
}

/// The result of decoding: the chain, or why there is none.
pub type PduResult<'a> = Result<Node<'a>, ParseError>;

impl<'a> Node<'a> {
    /// The node of type `tag` that stores `fields`.
    pub(crate) fn assemble(tag: TypeTag, fields: PduFields<'a>) -> (n: Self)
        ensures
            n.tag() == tag,
            n.fields() == fields,
            n@ == fields.view_as(tag),
    {
        match tag {
            TypeTag::Ethernet => Node::Ethernet(Ethernet { fields }),
            TypeTag::Ip => Node::Ip(Ip { fields }),
            TypeTag::Ipv6 => Node::Ipv6(Ipv6 { fields }),
            TypeTag::IpOption => Node::IpOption(IpOption { fields }),
            TypeTag::Icmp => Node::Icmp(Icmp { fields }),
            TypeTag::EchoReply => Node::EchoReply(EchoReply { fields }),
            TypeTag::Tcp => Node::Tcp(Tcp { fields }),
            TypeTag::Udp => Node::Udp(Udp { fields }),
            TypeTag::Raw => Node::Raw(Raw { fields }),
        }
    }

    /// What the node stores.
    pub(crate) fn fields_ref(&self) -> (f: &PduFields<'a>)
        ensures
            *f == self.fields(),
    {
        match self {
            Node::Ethernet(p) => &p.fields,
            Node::Ip(p) => &p.fields,
            Node::Ipv6(p) => &p.fields,
            Node::IpOption(p) => &p.fields,
            Node::Icmp(p) => &p.fields,
            Node::EchoReply(p) => &p.fields,
            Node::Tcp(p) => &p.fields,
            Node::Udp(p) => &p.fields,
            Node::Raw(p) => &p.fields,
        }
    }

    /// What the node stores, for editing.
    pub(crate) fn fields_mut(&mut self) -> (f: &mut PduFields<'a>)
        ensures
            *f == old(self).fields(),
            final(self).fields() == *final(f),
            final(self).tag() == old(self).tag(),
    {
        match self {
            Node::Ethernet(p) => &mut p.fields,
            Node::Ip(p) => &mut p.fields,
            Node::Ipv6(p) => &mut p.fields,
            Node::IpOption(p) => &mut p.fields,
            Node::Icmp(p) => &mut p.fields,
            Node::EchoReply(p) => &mut p.fields,
            Node::Tcp(p) => &mut p.fields,
            Node::Udp(p) => &mut p.fields,
            Node::Raw(p) => &mut p.fields,
        }
    }

    /// The protocol type of the node.
    pub fn self_id(&self) -> (t: TypeTag)
        ensures
            t == self@.tag,
    {
        match self {
            Node::Ethernet(_) => TypeTag::Ethernet,
            Node::Ip(_) => TypeTag::Ip,
            Node::Ipv6(_) => TypeTag::Ipv6,
            Node::IpOption(_) => TypeTag::IpOption,
            Node::Icmp(_) => TypeTag::Icmp,
            Node::EchoReply(_) => TypeTag::EchoReply,
            Node::Tcp(_) => TypeTag::Tcp,
            Node::Udp(_) => TypeTag::Udp,
            Node::Raw(_) => TypeTag::Raw,
        }
    }

    /// Whether no byte of the chain was copied: every header and payload in
    /// it still lives in the buffer that it was decoded from.
    pub fn is_zero_copy(&self) -> (b: bool)
        ensures
            b == self.zero_copy(),
        decreases self,
    {
        self.fields_ref().is_borrowed()
    }

    /// The bytes of this layer's header.
    pub fn header(&self) -> (h: &[u8])
        ensures
            h@ == self@.header,
    {
        self.fields_ref().header.as_slice()
    }

    /// The bytes that this layer carries for the layer inside it.
    pub fn payload(&self) -> (d: &[u8])
        ensures
            d@ == self@.data,
    {
        self.fields_ref().data.as_slice()
    }

    /// The protocol type of the enclosing layer, where somebody noted it.
    pub fn parent_pdu(&self) -> (p: Option<TypeTag>)
        ensures
            p == self@.parent,
    {
        self.fields_ref().parent
    }

    /// The node decoded from the payload, if any.
    pub fn child_pdu(&self) -> (c: Option<&Node<'a>>)
        ensures
            c is Some <==> self@.child is Some,
            c is Some ==> c->0@ == *self@.child->0,
            c is Some ==> decreases_to!(*self => *c->0),
    {
        self.fields_ref().child_ref()
    }

    /// The node decoded from the payload, if any, for editing.
    pub fn child_pdu_mut(&mut self) -> (c: Option<&mut Node<'a>>)
        ensures
            c is Some <==> old(self)@.child is Some,
            c is Some ==> c->0@ == *old(self)@.child->0,
            c is Some ==> final(self)@ == (PduView {
                child: Some(Box::new(final(c->0)@)),
                ..old(self)@
            }),
            c is Some ==> decreases_to!(*old(self) => *c->0),
            c is None ==> *final(self) == *old(self),
    {
        self.fields_mut().child_mut()
    }

    /// Notes the protocol type of the enclosing layer.
    pub fn set_parent(&mut self, parent: Option<TypeTag>)
        ensures
            final(self)@ == (PduView { parent, ..old(self)@ }),
    {
        let f = self.fields_mut();
        f.parent = parent;
    }

    /// Replaces what hangs below this node.
    pub fn set_child(&mut self, child: Pob<'a>)
        ensures
            final(self)@ == (PduView { child: pob_view(child), ..old(self)@ }),
    {
        let f = self.fields_mut();
        f.child = child;
    }

    /// Encodes the chain: each header in turn, then the payload of the
    /// innermost node.
    pub fn to_bytes(&self) -> (r: Vec<u8>)
        ensures
            r@ == self@.encode(),
        decreases self,
    {
        self.fields_ref().encode()
    }

    /// What the member for the payload holds in the projection of the node:
    /// the document of the node below or, without one, the payload as text.
    pub fn child_to_json(&self) -> (v: Value)
        requires
            self@.wf(),
        ensures
            v@ == self@.project_data(),
    {
        self.fields_ref().data_to_json()
    }

    /// Projects the chain to a document.
    pub fn to_json(&self) -> (v: Value)
        requires
            self@.wf(),
        ensures
            v@ == self@.project(),
        decreases self, 0nat,
    {
        let data = self.fields_ref().data_to_json();
        match self {
            Node::Ethernet(p) => p.fields_to_json(data),
            Node::Ip(p) => p.fields_to_json(data),
            Node::Ipv6(p) => p.fields_to_json(data),
            Node::IpOption(p) => p.fields_to_json(data),
            Node::Icmp(p) => p.fields_to_json(data),
            Node::EchoReply(p) => p.fields_to_json(data),
            Node::Tcp(p) => p.fields_to_json(data),
            Node::Udp(p) => p.fields_to_json(data),
            Node::Raw(p) => p.fields_to_json(),
        }
    }

    /// An owned copy of this node alone: its header and payload, without
    /// neighbours.
    pub fn to_owned(&self) -> (r: Node<'static>)
        ensures
            r@ == self@.detached(),
            r.owns_bytes(),
    {
        Node::assemble(self.self_id(), self.fields_ref().detach())
    }

    /// Appends the protocol types of the chain, outermost first.
    pub fn pdu_chain(&self, chain: &mut Vec<TypeTag>)
        ensures
            final(chain)@ == old(chain)@ + self@.tags(),
        decreases self,
    {
        chain.push(self.self_id());
        match self.child_pdu() {
            Some(c) => {
                c.pdu_chain(chain);
            },
            None => {},
        }
    }

    /// Appends an owned copy of every node of the chain, outermost first,
    /// each alone.
    pub fn collect(&self, chain: &mut Vec<Node<'static>>)
        ensures
            model_seq(final(chain)@) == model_seq(old(chain)@) + self@.layers(),
        decreases self,
    {
        let ghost before = chain@;
        chain.push(self.to_owned());
        assert(model_seq(chain@) =~= model_seq(before) + seq![self@.detached()]);
        match self.child_pdu() {
            Some(c) => {
                c.collect(chain);
            },
            None => {},
        }
    }

    /// The first node of type `T` on the way down the chain.
    pub fn find<T: Pdu<'a>>(&self) -> (r: Option<&T>)
        ensures
            r is Some <==> self@.find(T::spec_id()) is Some,
            r is Some ==> r->0@ == self@.find(T::spec_id())->0,
            r is Some && self@.wf() ==> r->0@.wf(),
        decreases self,
    {
        proof {
            if self@.find(T::spec_id()) is Some {
                lemma_find(self@, T::spec_id());
            }
        }
        if self.self_id() == T::id() {
            T::cast_ref(self)
        } else {
            match self.child_pdu() {
                Some(c) => c.find::<T>(),
                None => None,
            }
        }
    }

    /// The first node of type `T` on the way down the chain, for editing.
    /// What is written through the result is written into the chain.
    pub fn find_mut<T: Pdu<'a>>(&mut self) -> (r: Option<&mut T>)
        ensures
            r is Some <==> old(self)@.find(T::spec_id()) is Some,
            r is Some ==> r->0@ == old(self)@.find(T::spec_id())->0 && final(self)@ == old(
                self,
            )@.replace_first(T::spec_id(), final(r->0)@),
            r is Some && old(self)@.wf() ==> r->0@.wf(),
            r is None ==> final(self)@ == old(self)@,
        decreases *old(self),
    {
        proof {
            if self@.find(T::spec_id()) is Some {
                lemma_find(self@, T::spec_id());
            }
        }
        if self.self_id() == T::id() {
            T::cast_mut(self)
        } else {
            match self.child_pdu_mut() {
                Some(c) => c.find_mut::<T>(),
                None => None,
            }
        }
    }

    /// This node as a `T`, if it is one.
    pub fn downcast_ref<T: Pdu<'a>>(&self) -> (r: Option<&T>)
        ensures
            r is Some <==> self@.tag == T::spec_id(),
            r is Some ==> r->0@ == self@,
    {
        T::cast_ref(self)
    }

    /// This node as a `T`, if it is one, for editing.
    pub fn downcast_mut<T: Pdu<'a>>(&mut self) -> (r: Option<&mut T>)
        ensures
            r is Some <==> old(self)@.tag == T::spec_id(),
            r is Some ==> r->0@ == old(self)@ && final(self)@ == final(r->0)@,
            r is None ==> *final(self) == *old(self),
    {
        T::cast_mut(self)
    }

    /// This node as a `T`, if it is one; else the node itself, unchanged.
    pub fn downcast<T: Pdu<'a>>(self) -> (r: Result<T, Node<'a>>)
        ensures
            r is Ok <==> self@.tag == T::spec_id(),
            r is Ok ==> r->Ok_0@ == self@,
            r is Err ==> r->Err_0 == self,
    {
        T::cast(self)
    }
}

/// What is found in a well-formed chain is well-formed, and has the type that
/// was asked for.
pub proof fn lemma_find(chain: PduView, tag: TypeTag)
    requires
        chain.find(tag) is Some,
    ensures
        chain.find(tag)->0.tag == tag,
        chain.wf() ==> chain.find(tag)->0.wf(),
    decreases chain,
{
    if chain.tag != tag {
        lemma_find(*chain.child->0, tag);
    }
}

/// A chain stays well-formed when the first node of some type is replaced by
/// a well-formed node.
pub proof fn lemma_replace_first_wf(chain: PduView, tag: TypeTag, node: PduView)
    requires
        chain.wf(),
        node.wf(),
    ensures
        chain.replace_first(tag, node).wf(),
    decreases chain,
{
    if chain.tag != tag {
        match chain.child {
            Some(c) => {
                lemma_replace_first_wf(*c, tag, node);
            },
            None => {},
        }
    }
}

/// Every protocol type has a tag of its own.
pub proof fn lemma_tags_identify_types()
    ensures
        Ethernet::spec_id() == TypeTag::Ethernet,
        Ip::spec_id() == TypeTag::Ip,
        Ipv6::spec_id() == TypeTag::Ipv6,
        IpOption::spec_id() == TypeTag::IpOption,
        Icmp::spec_id() == TypeTag::Icmp,
        EchoReply::spec_id() == TypeTag::EchoReply,
        Tcp::spec_id() == TypeTag::Tcp,
        Udp::spec_id() == TypeTag::Udp,
        Raw::spec_id() == TypeTag::Raw,
{
}

/// A value of one protocol type, seen as a node, has the tag of that type and
/// of no type with another tag: it downcasts to its own type and to no
/// other.
pub proof fn lemma_downcast_sound<'a, T: Pdu<'a>, U: Pdu<'a>>(value: T)
    requires
        T::spec_id() != U::spec_id(),
    ensures
        value@.tag == T::spec_id(),
        value@.tag != U::spec_id(),
{
    value.lemma_view_tag();
}

/// The models of a sequence of nodes.
pub open spec fn model_seq<'a>(nodes: Seq<Node<'a>>) -> Seq<PduView> {
    nodes.map_values(|n: Node<'a>| n@)
}

/// What every protocol type offers: decoding, encoding, its place in the
/// chain, and the way from and to a node of any type.
pub trait Pdu<'a>: Tid<'a> + View<V = PduView> {
    /// The model of a value carries the tag of its type.
    proof fn lemma_view_tag(&self)
        ensures
            self@.tag == Self::spec_id(),
    ;

    /// Decodes `bytes` as a node of this type, and its payload through
    /// `tables`.
    fn from_bytes(bytes: &'a [u8], tables: &DissectionTables) -> (r: PduResult<'a>)
        ensures
            matches_model(r, spec_decode(Self::spec_id(), bytes@, tables@)),
            r is Ok ==> r->Ok_0@.wf() && r->Ok_0@.encode() == bytes@ && r->Ok_0@.tag
                == Self::spec_id(),
            r is Ok ==> r->Ok_0.zero_copy(),
    ;

    /// An owned copy of this node alone: its header and payload, without
    /// neighbours.
    fn to_owned(&self) -> (r: Node<'static>)
        ensures
            r@ == self@.detached(),
            r.owns_bytes(),
    ;

    /// Encodes the node: its header, then the encoding of the node below or,
    /// without one, its payload.
    fn to_bytes(&self) -> (r: Vec<u8>)
        ensures
            r@ == self@.encode(),
    ;

    /// Projects the node and what is below it to a document.
    fn to_json(&self) -> (v: Value)
        requires
            self@.wf(),
        ensures
            v@ == self@.project(),
    ;

    /// What the member for the payload holds in the projection of the node:
    /// the document of the node below or, without one, the payload as text.
    fn child_to_json(&self) -> (v: Value)
        requires
            self@.wf(),
        ensures
            v@ == self@.project_data(),
    ;

    /// Notes the protocol type of the enclosing layer.
    fn set_parent(&mut self, parent: Option<TypeTag>)
        ensures
            final(self)@ == (PduView { parent, ..old(self)@ }),
    ;

    /// Replaces what hangs below this node.
    fn set_child(&mut self, child: Pob<'a>)
        ensures
            final(self)@ == (PduView { child: pob_view(child), ..old(self)@ }),
    ;

    /// The protocol type of the enclosing layer, where somebody noted it.
    fn parent_pdu(&self) -> (p: Option<TypeTag>)
        ensures
            p == self@.parent,
    ;

    /// The node decoded from the payload, if any.
    fn child_pdu(&self) -> (c: Option<&Node<'a>>)
        ensures
            c is Some <==> self@.child is Some,
            c is Some ==> c->0@ == *self@.child->0,
    ;

    /// The node decoded from the payload, if any, for editing.
    fn child_pdu_mut(&mut self) -> (c: Option<&mut Node<'a>>)
        ensures
            c is Some <==> old(self)@.child is Some,
            c is Some ==> c->0@ == *old(self)@.child->0 && final(self)@ == (PduView {
                child: Some(Box::new(final(c->0)@)),
                ..old(self)@
            }),
            c is None ==> *final(self) == *old(self),
    ;

    /// This value as a node of any type.
    fn into_node(self) -> (n: Node<'a>)
        ensures
            n@ == self@,
    ;

    /// `node` as a value of this type, if it is one.
    fn cast_ref<'b>(node: &'b Node<'a>) -> (r: Option<&'b Self>)
        ensures
            r is Some <==> node@.tag == Self::spec_id(),
            r is Some ==> r->0@ == node@,
    ;

    /// `node` as a value of this type, if it is one, for editing.
    fn cast_mut<'b>(node: &'b mut Node<'a>) -> (r: Option<&'b mut Self>)
        ensures
            r is Some <==> old(node)@.tag == Self::spec_id(),
            r is Some ==> r->0@ == old(node)@ && final(node)@ == final(r->0)@,
            r is None ==> *final(node) == *old(node),
    ;

    /// `node` as a value of this type, if it is one; else the node itself.
    fn cast(node: Node<'a>) -> (r: Result<Self, Node<'a>>)
        ensures
            r is Ok <==> node@.tag == Self::spec_id(),
            r is Ok ==> r->Ok_0@ == node@,
            r is Err ==> r->Err_0 == node,
    ;
}

/// Owned copies of nodes that may be absent.
pub trait PobOwned {
    /// An owned copy of the node alone, if there is a node.
    fn clone(&self) -> (r: Pob<'static>)
        ensures
            r is Some <==> self.spec_pob() is Some,
            r is Some ==> r->0@ == self.spec_pob()->0.detached(),
    ;

    /// The model of the node, if there is one.
    spec fn spec_pob(&self) -> Option<Box<PduView>>;
}

impl<'a> PobOwned for Pob<'a> {
    fn clone(&self) -> (r: Pob<'static>) {
        match self {
            Some(boxed) => Some(Box::new(Node::to_owned(&**boxed))),
            None => None,
        }
    }

    open(crate) spec fn spec_pob(&self) -> Option<Box<PduView>> {
        pob_view(*self)
    }
}

/// Decodes `bytes` as a `T` and hands out the `T`.
pub fn deserialize<'a, T: Pdu<'a>>(bytes: &'a [u8], tables: &DissectionTables) -> (r: Option<T>)
    ensures
        match r {
            Some(t) => spec_decode(T::spec_id(), bytes@, tables@) == Ok::<PduView, ParseError>(t@)
                && t@.wf(),
            None => spec_decode(T::spec_id(), bytes@, tables@) is Err,
        },
{
    match T::from_bytes(bytes, tables) {
        Ok(node) => match node.downcast::<T>() {
            Ok(t) => Some(t),
            Err(_) => None,
        },
        Err(_) => None,
    }
}

} // verus!
