//! The chain builder: decoding a byte range layer by layer.

use vstd::prelude::*;
use crate::bytes::ByteView;
use crate::error::ParseError;
use crate::pdu::{min_header_len, min_header_size, Node, PduFields, PduResult, PduView};
use crate::registry::{
    discriminator, header_len, header_size, next_layer, DissectionTables, Layer, TablesView,
};
use crate::table::{DissectionTable, TableKey, TableView};
use crate::tid::TypeTag;

verus! {

/// The node of type `tag` that `bytes` splits into, with `child` below it.
pub open spec fn layer_view(tag: TypeTag, bytes: Seq<u8>, child: Option<Box<PduView>>) -> PduView {
    let n = header_len(tag, bytes) as int;
    PduView { tag, header: bytes.take(n), data: bytes.skip(n), parent: None, child }
}

/// The opaque node that wraps `bytes`.
pub open spec fn raw_view(bytes: Seq<u8>) -> PduView {
    PduView {
        tag: TypeTag::Raw,
        header: bytes,
        data: Seq::empty(),
        parent: None,
        child: None,
    }
}

/// What decoding `bytes` as a node of type `tag` gives.
///
/// The buffer must hold the protocol's minimum header and the header length
/// that the header itself declares, which in turn must not be below the
/// minimum. A protocol that names the protocol of its payload has the payload
/// decoded through the table of its layer, and fails where that fails.
pub open spec fn spec_decode(
    tag: TypeTag,
    bytes: Seq<u8>,
    tables: TablesView,
) -> Result<PduView, ParseError>
    decreases bytes.len(), 0nat,
{
    if bytes.len() < min_header_len(tag) {
        Err(ParseError::NotEnoughData)
    } else if header_len(tag, bytes) < min_header_len(tag) {
        Err(ParseError::InvalidHeader)
    } else if header_len(tag, bytes) > bytes.len() {
        Err(ParseError::NotEnoughData)
    } else {
        match next_layer(tag) {
            None => Ok(layer_view(tag, bytes, None)),
            Some(layer) => match spec_build(
                tables.table(layer),
                discriminator(tag, bytes),
                bytes.skip(header_len(tag, bytes) as int),
                tables,
            ) {
                Ok(child) => Ok(layer_view(tag, bytes, Some(Box::new(child)))),
                Err(e) => Err(e),
            },
        }
    }
}

/// What building a node from `bytes` through `table` under `key` gives: what
/// the registered decoder gives, or, for an unregistered key, the opaque node
/// where the fallback is installed and a failure where it is not.
pub open spec fn spec_build(
    table: TableView,
    key: u64,
    bytes: Seq<u8>,
    tables: TablesView,
) -> Result<PduView, ParseError>
    decreases bytes.len(), 1nat,
{
    match table.lookup(key) {
        Some(tag) => spec_decode(tag, bytes, tables),
        None => if table.fallback {
            Ok(raw_view(bytes))
        } else {
            Err(ParseError::UnsupportedProtocol)
        },
    }
}

/// A decoded chain holds, in every layer, at least the minimum header of the
/// layer's protocol, and encodes to exactly the bytes it was decoded from.
pub proof fn lemma_decode_encode(tag: TypeTag, bytes: Seq<u8>, tables: TablesView)
    requires
        spec_decode(tag, bytes, tables) is Ok,
    ensures
        spec_decode(tag, bytes, tables)->Ok_0.wf(),
        spec_decode(tag, bytes, tables)->Ok_0.encode() == bytes,
        spec_decode(tag, bytes, tables)->Ok_0.tag == tag,
    decreases bytes.len(),
{
    let n = header_len(tag, bytes) as int;
    let node = spec_decode(tag, bytes, tables)->Ok_0;
    assert(bytes.take(n) + bytes.skip(n) =~= bytes);
    assert(node.header.len() == n);
    match next_layer(tag) {
        None => {
            assert(node.child is None);
        },
        Some(layer) => {
            let table = tables.table(layer);
            let payload = bytes.skip(n);
            let child = spec_build(table, discriminator(tag, bytes), payload, tables)->Ok_0;
            match table.lookup(discriminator(tag, bytes)) {
                Some(inner) => {
                    lemma_decode_encode(inner, payload, tables);
                },
                None => {
                    assert(raw_view(payload).encode() =~= payload);
                    assert(raw_view(payload).wf());
                },
            }
            assert(child.wf() && child.encode() == payload);
            assert(node.child == Some(Box::new(child)));
        },
    }
}

/// Decoding, encoding and decoding again gives what decoding once gave.
pub proof fn lemma_round_trip(tag: TypeTag, bytes: Seq<u8>, tables: TablesView)
    requires
        spec_decode(tag, bytes, tables) is Ok,
    ensures
        spec_decode(tag, spec_decode(tag, bytes, tables)->Ok_0.encode(), tables) == spec_decode(
            tag,
            bytes,
            tables,
        ),
{
    lemma_decode_encode(tag, bytes, tables);
}

/// With the fallback installed, building under an unregistered key never
/// fails: it gives the opaque node that wraps the bytes unchanged.
pub proof fn lemma_fallback_total(table: TableView, key: u64, bytes: Seq<u8>, tables: TablesView)
    requires
        table.fallback,
        table.lookup(key) is None,
    ensures
        spec_build(table, key, bytes, tables) == Ok::<PduView, ParseError>(raw_view(bytes)),
        raw_view(bytes).encode() == bytes,
{
    assert(raw_view(bytes).encode() =~= bytes);
}

/// Where every table has the fallback installed, no buffer fails to decode
/// for want of a decoder, however deep the chain goes.
pub proof fn lemma_fallback_absorbs_unknown(tag: TypeTag, bytes: Seq<u8>, tables: TablesView)
    requires
        forall|layer: Layer| (#[trigger] tables.table(layer)).fallback,
    ensures
        spec_decode(tag, bytes, tables) != Err::<PduView, ParseError>(
            ParseError::UnsupportedProtocol,
        ),
    decreases bytes.len(),
{
    if bytes.len() >= min_header_len(tag) && min_header_len(tag) <= header_len(tag, bytes)
        <= bytes.len() {
        match next_layer(tag) {
            None => {},
            Some(layer) => {
                let table = tables.table(layer);
                let payload = bytes.skip(header_len(tag, bytes) as int);
                match table.lookup(discriminator(tag, bytes)) {
                    Some(inner) => {
                        lemma_fallback_absorbs_unknown(inner, payload, tables);
                    },
                    None => {},
                }
            },
        }
    }
}

/// A buffer shorter than the minimum header of a protocol, or shorter than
/// the header length that its header declares, does not decode as that
/// protocol: there is not enough data.
pub proof fn lemma_truncated(tag: TypeTag, bytes: Seq<u8>, tables: TablesView)
    requires
        bytes.len() < min_header_len(tag) || (header_len(tag, bytes) >= min_header_len(tag)
            && bytes.len() < header_len(tag, bytes)),
    ensures
        spec_decode(tag, bytes, tables) == Err::<PduView, ParseError>(ParseError::NotEnoughData),
{
}

/// Whether `r` is the outcome that the model `m` describes.
pub open spec fn matches_model(r: PduResult<'_>, m: Result<PduView, ParseError>) -> bool {
    match r {
        Ok(node) => m == Ok::<PduView, ParseError>(node@),
        Err(e) => m == Err::<PduView, ParseError>(e),
    }
}

/// Decodes `bytes` as a node of type `tag`, and its payload through `tables`.
/// No byte is copied: the nodes borrow their headers and payloads from
/// `bytes`.
pub fn decode<'a>(tag: TypeTag, bytes: &'a [u8], tables: &DissectionTables) -> (r: PduResult<'a>)
    ensures
        matches_model(r, spec_decode(tag, bytes@, tables@)),
        r is Ok ==> r->Ok_0@.wf() && r->Ok_0@.encode() == bytes@ && r->Ok_0@.tag == tag,
        r is Ok ==> r->Ok_0.zero_copy(),
    decreases bytes@.len(), 0nat,
{
    proof {
        if spec_decode(tag, bytes@, tables@) is Ok {
            lemma_decode_encode(tag, bytes@, tables@);
        }
    }
    if bytes.len() < min_header_size(tag) {
        return Err(ParseError::NotEnoughData);
    }
    let n: usize = header_size(tag, bytes);
    if n < min_header_size(tag) {
        return Err(ParseError::InvalidHeader);
    }
    if n > bytes.len() {
        return Err(ParseError::NotEnoughData);
    }
    let header = ByteView::borrowed(&bytes[0..n]);
    let payload = &bytes[n..bytes.len()];
    let mut fields = PduFields::new(header, ByteView::borrowed(payload));
    proof {
        assert(header@ =~= bytes@.take(n as int));
        assert(payload@ =~= bytes@.skip(n as int));
    }
    match tables.next_decoder(tag, bytes) {
        None => {},
        Some((entry, fallback)) => {
            let ghost layer = next_layer(tag)->0;
            let ghost below = spec_build(
                tables@.table(layer),
                discriminator(tag, bytes@),
                payload@,
                tables@,
            );
            match build_entry(entry, fallback, payload, tables) {
                Ok(child) => {
                    assert(below == Ok::<PduView, ParseError>(child@));
                    fields.child = Some(Box::new(child));
                },
                Err(e) => {
                    assert(below == Err::<PduView, ParseError>(e));
                    return Err(e);
                },
            }
        },
    }
    Ok(Node::assemble(tag, fields))
}

fn build_entry<'a>(
    entry: Option<TypeTag>,
    fallback: bool,
    bytes: &'a [u8],
    tables: &DissectionTables,
) -> (r: PduResult<'a>)
    ensures
        forall|table: TableView, key: u64|
            table.lookup(key) == entry && table.fallback == fallback ==> matches_model(
                r,
                #[trigger] spec_build(table, key, bytes@, tables@),
            ),
        r is Ok ==> r->Ok_0.zero_copy(),
    decreases bytes@.len(), 1nat,
{
    match entry {
        Some(tag) => decode(tag, bytes, tables),
        None => {
            if fallback {
                proof {
                    assert(bytes@.take(bytes@.len() as int) =~= bytes@);
                    assert(bytes@.skip(bytes@.len() as int) =~= Seq::<u8>::empty());
                }
                decode(TypeTag::Raw, bytes, tables)
            } else {
                Err(ParseError::UnsupportedProtocol)
            }
        },
    }
}

/// Builds the node for `bytes` that `dissect_table` prescribes under `value`:
/// the registered decoder's node, or the opaque node for an unregistered key
/// where the fallback is installed. No byte is copied.
pub fn build_from_table<'a, K: TableKey>(
    dissect_table: &DissectionTable<K>,
    value: K,
    bytes: &'a [u8],
    tables: &DissectionTables,
) -> (r: PduResult<'a>)
    ensures
        matches_model(r, spec_build(dissect_table@, value.spec_key(), bytes@, tables@)),
        r is Ok ==> r->Ok_0@.wf() && r->Ok_0@.encode() == bytes@,
        r is Ok ==> r->Ok_0.zero_copy(),
{
    proof {
        let table = dissect_table@;
        match table.lookup(value.spec_key()) {
            Some(tag) => {
                if spec_decode(tag, bytes@, tables@) is Ok {
                    lemma_decode_encode(tag, bytes@, tables@);
                }
            },
            None => {
                assert(raw_view(bytes@).encode() =~= bytes@);
            },
        }
    }
    build_entry(dissect_table.lookup(&value), dissect_table.has_fallback(), bytes, tables)
}

} // verus!
