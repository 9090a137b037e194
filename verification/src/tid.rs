//! Type identity of protocol nodes.

use vstd::prelude::*;

verus! {

/// The identity of a concrete protocol type.
///
/// Two nodes have the same tag exactly when they are of the same protocol
/// type.
#[derive(Debug, Clone, Copy, PartialEq, Eq, Hash, Structural)]
pub enum TypeTag {
    /// An Ethernet II frame.
    Ethernet,
    /// An IPv4 datagram.
    Ip,
    /// An IPv6 datagram.
    Ipv6,
    /// A single IPv4 option.
    IpOption,
    /// An ICMP message.
    Icmp,
    /// The body of an ICMP echo reply.
    EchoReply,
    /// A TCP segment.
    Tcp,
    /// A UDP datagram.
    Udp,
    /// Bytes that no decoder has looked into.
    Raw,
}

/// A type that knows its own tag.
pub trait Tid<'a>: Sized {
    /// The tag of every value of this type.
    spec fn spec_id() -> TypeTag;

    /// The tag of this value.
    fn self_id(&self) -> (t: TypeTag)
        ensures
            t == Self::spec_id(),
    ;

    /// The tag of the type.
    fn id() -> (t: TypeTag)
        ensures
            t == Self::spec_id(),
    ;
}

} // verus!
