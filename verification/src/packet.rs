//! A packet as a flat list of layers.

use vstd::prelude::*;
use crate::pdu::{model_seq, Node, Pdu, PduView};
use crate::tid::TypeTag;

verus! {

/// The encodings of `nodes`, one after the other.
pub open spec fn encode_all(nodes: Seq<PduView>) -> Seq<u8>
    decreases nodes.len(),
{
    if nodes.len() == 0 {
        Seq::empty()
    } else {
        encode_all(nodes.drop_last()) + nodes.last().encode()
    }
}

/// The index of the first of `nodes` that has the type `tag`, if there is
/// one.
pub open spec fn first_of_type(nodes: Seq<PduView>, tag: TypeTag) -> Option<int>
    decreases nodes.len(),
{
    if nodes.len() == 0 {
        None
    } else {
        match first_of_type(nodes.drop_last(), tag) {
            Some(i) => Some(i),
            None => if nodes.last().tag == tag {
                Some(nodes.len() - 1)
            } else {
                None
            },
        }
    }
}

/// The layers of a packet, outermost first.
pub struct Packet<'a> {
    /// The layers.
    pub pdu_chain: Vec<Node<'a>>,
}

impl<'a> View for Packet<'a> {
    type V = Seq<PduView>;

    open spec fn view(&self) -> Seq<PduView> {
        model_seq(self.pdu_chain@)
    }
}

/// Where the first node of type `tag` is found, it is in range and of that
/// type, and no node before it is.
pub proof fn lemma_first_of_type(nodes: Seq<PduView>, tag: TypeTag)
    ensures
        match first_of_type(nodes, tag) {
            Some(i) => 0 <= i < nodes.len() && nodes[i].tag == tag && forall|j: int|
                0 <= j < i ==> nodes[j].tag != tag,
            None => forall|j: int| 0 <= j < nodes.len() ==> nodes[j].tag != tag,
        },
    decreases nodes.len(),
{
    if nodes.len() > 0 {
        let rest = nodes.drop_last();
        lemma_first_of_type(rest, tag);
        assert(forall|j: int| 0 <= j < rest.len() ==> rest[j] == nodes[j]);
    }
}

impl<'a> Packet<'a> {
    /// The packet with the given layers.
    pub fn new(pdu_chain: Vec<Node<'a>>) -> (p: Self)
        ensures
            p.pdu_chain == pdu_chain,
    {
        Packet { pdu_chain }
    }

    /// The index of the first layer of type `tag`, if there is one.
    fn position(&self, tag: TypeTag) -> (r: Option<usize>)
        ensures
            match r {
                Some(i) => first_of_type(self@, tag) == Some(i as int) && i < self.pdu_chain@.len(),
                None => first_of_type(self@, tag) is None,
            },
    {
        let n: usize = self.pdu_chain.len();
        let mut i: usize = 0;
        while i < n
            invariant
                i <= n == self.pdu_chain@.len(),
                first_of_type(self@.take(i as int), tag) is None,
            decreases n - i,
        {
            proof {
                assert(self@.take(i + 1).drop_last() =~= self@.take(i as int));
                lemma_first_found_stays(self@, tag, i + 1);
            }
            if self.pdu_chain[i].self_id() == tag {
                return Some(i);
            }
            i += 1;
        }
        assert(self@.take(n as int) =~= self@);
        None
    }

    /// Encodes the layers one after the other.
    pub fn to_bytes(&self) -> (r: Vec<u8>)
        ensures
            r@ == encode_all(self@),
    {
        let mut packet: Vec<u8> = Vec::new();
        let n: usize = self.pdu_chain.len();
        let mut i: usize = 0;
        while i < n
            invariant
                i <= n == self.pdu_chain@.len(),
                packet@ == encode_all(self@.take(i as int)),
            decreases n - i,
        {
            let layer = self.pdu_chain[i].to_bytes();
            packet.extend_from_slice(layer.as_slice());
            proof {
                assert(self@.take(i + 1).drop_last() =~= self@.take(i as int));
            }
            i += 1;
        }
        assert(self@.take(n as int) =~= self@);
        packet
    }

    /// The first layer of type `T`.
    pub fn find<T: Pdu<'a>>(&self) -> (r: Option<&T>)
        ensures
            r is Some <==> first_of_type(self@, T::spec_id()) is Some,
            r is Some ==> r->0@ == self@[first_of_type(self@, T::spec_id())->0],
    {
        proof {
            lemma_first_of_type(self@, T::spec_id());
        }
        match self.position(T::id()) {
            Some(i) => T::cast_ref(&self.pdu_chain[i]),
            None => None,
        }
    }

    /// The first layer of type `T`, for editing. What is written through the
    /// result is written into the packet.
    pub fn find_mut<T: Pdu<'a>>(&mut self) -> (r: Option<&mut T>)
        ensures
            r is Some <==> first_of_type(old(self)@, T::spec_id()) is Some,
            r is Some ==> {
                let i = first_of_type(old(self)@, T::spec_id())->0;
                r->0@ == old(self)@[i] && final(self)@ == old(self)@.update(i, final(r->0)@)
            },
            r is None ==> final(self)@ == old(self)@,
    {
        proof {
            lemma_first_of_type(self@, T::spec_id());
        }
        match self.position(T::id()) {
            Some(i) => {
                let ghost before = self.pdu_chain@;
                assert forall|n: Node<'a>| #[trigger]
                    model_seq(before.update(i as int, n)) == model_seq(before).update(
                        i as int,
                        n@,
                    ) by {
                    assert(model_seq(before.update(i as int, n)) =~= model_seq(before).update(
                        i as int,
                        n@,
                    ));
                }
                T::cast_mut(&mut self.pdu_chain[i])
            },
            None => None,
        }
    }
}

/// A node of type `tag` among the first `n` of `nodes` is found among them
/// exactly when the search of all `nodes` finds it there.
proof fn lemma_first_found_stays(nodes: Seq<PduView>, tag: TypeTag, n: int)
    requires
        0 <= n <= nodes.len(),
    ensures
        first_of_type(nodes.take(n), tag) is Some ==> first_of_type(nodes, tag) == first_of_type(
            nodes.take(n),
            tag,
        ),
    decreases nodes.len() - n,
{
    if n < nodes.len() {
        assert(nodes.take(n + 1).drop_last() =~= nodes.take(n));
        lemma_first_found_stays(nodes, tag, n + 1);
    } else {
        assert(nodes.take(n) =~= nodes);
    }
}

} // verus!
