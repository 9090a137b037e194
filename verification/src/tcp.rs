//! TCP segments.

use vstd::prelude::*;
use crate::bytes::{
    field_u16, field_u32, lemma_field_u16_written, lemma_field_u32_written, merge_bits, splice,
};
use crate::chain::decode;
use crate::json::{doc_u16, doc_u32, doc_u8, named, Doc, Value};
use crate::pdu::{Node, Pdu, PduFields, PduResult, PduView, Pob};
use crate::registry::DissectionTables;
use crate::tid::{Tid, TypeTag};
use crate::utils::{be_bytes_u16, be_bytes_u32};

verus! {

/// Where the byte with the data offset is.
pub const TCP_DATA_SIZE_OFFSET: usize = 12;

/// The number of bytes that one unit of the data offset stands for.
pub const TCP_HEADER_MULT: usize = 4;

/// Where the source port starts.
pub const TCP_SPORT_OFFSET: usize = 0;

/// Where the destination port starts.
pub const TCP_DPORT_OFFSET: usize = 2;

/// Where the sequence number starts.
pub const TCP_SQNUM_OFFSET: usize = 4;

/// Where the acknowledgement number starts.
pub const TCP_AKNUM_OFFSET: usize = 8;

/// Where the data offset and the reserved bits share a byte.
pub const TCP_DR_OFFSET: usize = 12;

/// Where the flags are.
pub const TCP_FLAGS_OFFSET: usize = 13;

/// Where the window size starts.
pub const TCP_WINDOW_OFFSET: usize = 14;

/// Where the checksum starts.
pub const TCP_CHECKSUM_OFFSET: usize = 16;

/// Where the urgent pointer starts.
pub const TCP_URGPTR_OFFSET: usize = 18;

/// The length of a TCP header without options in bytes.
pub const TCP_MIN_HEADER_LEN: usize = 20;

/// The header length in bytes that a segment starting with `bytes` declares:
/// four times the high half of its thirteenth byte.
pub open spec fn spec_data_offset(bytes: Seq<u8>) -> nat {
    ((bytes[TCP_DATA_SIZE_OFFSET as int] >> 4) * TCP_HEADER_MULT) as nat
}

/// Reads the declared header length, in bytes, of the segment that starts
/// with `bytes`.
pub fn get_data_offset(bytes: &[u8]) -> (n: usize)
    requires
        bytes@.len() > TCP_DATA_SIZE_OFFSET,
    ensures
        n == spec_data_offset(bytes@),
        n <= 60,
{
    let b: u8 = bytes[TCP_DATA_SIZE_OFFSET];
    let words: u8 = b >> 4;
    assert(b >> 4 <= 15) by (bit_vector);
    words as usize * TCP_HEADER_MULT
}

/// A TCP segment.
#[derive(Debug)]
pub struct Tcp<'a> {
    pub(crate) fields: PduFields<'a>,
}

impl<'a> View for Tcp<'a> {
    type V = PduView;

    open(crate) spec fn view(&self) -> PduView {
        self.fields.view_as(TypeTag::Tcp)
    }
}

impl<'a> Tcp<'a> {
    /// Whether the node owns its header, as it does once a field was set.
    pub open(crate) spec fn owns_header(&self) -> bool {
        self.fields.header is Owned
    }
}

impl<'a> Tid<'a> for Tcp<'a> {
    open spec fn spec_id() -> TypeTag {
        TypeTag::Tcp
    }

    fn self_id(&self) -> (t: TypeTag) {
        TypeTag::Tcp
    }

    fn id() -> (t: TypeTag) {
        TypeTag::Tcp
    }
}

/// The reserved bits of the header `header`: the low half of the byte that
/// they share with the data offset.
pub open spec fn spec_reserved(header: Seq<u8>) -> u8 {
    header[TCP_DR_OFFSET as int] & 0x0F
}

/// The header `header` after the data offset field is set to `data_offset`.
pub open spec fn with_data_offset(header: Seq<u8>, data_offset: u8) -> Seq<u8> {
    header.update(
        TCP_DR_OFFSET as int,
        merge_bits(header[TCP_DR_OFFSET as int], 0xF0, data_offset << 4),
    )
}

/// The header `header` after the reserved bits are set to `reserved`.
pub open spec fn with_reserved(header: Seq<u8>, reserved: u8) -> Seq<u8> {
    header.update(TCP_DR_OFFSET as int, merge_bits(header[TCP_DR_OFFSET as int], 0x0F, reserved))
}

/// What writing the data offset does to the byte it shares with the reserved
/// bits.
pub proof fn lemma_data_offset_bits(old: u8, v: u8)
    by (bit_vector)
    ensures
        merge_bits(old, 0xF0, v << 4) >> 4 == v & 0x0F,
        merge_bits(old, 0xF0, v << 4) & 0x0F == old & 0x0F,
{
}

/// What writing the reserved bits does to the byte they share with the data
/// offset.
pub proof fn lemma_reserved_bits(old: u8, v: u8)
    by (bit_vector)
    ensures
        merge_bits(old, 0x0F, v) & 0x0F == v & 0x0F,
        merge_bits(old, 0x0F, v) >> 4 == old >> 4,
{
}

/// The data offset and the reserved bits share a byte and do not disturb each
/// other: setting one to a value of four bits gives that value and leaves
/// the other as it was.
pub proof fn lemma_data_offset_reserved_isolated(header: Seq<u8>, v1: u8, v2: u8)
    requires
        header.len() > TCP_DR_OFFSET,
        v1 < 16,
        v2 < 16,
    ensures
        spec_data_offset(with_data_offset(header, v1)) == v1 * 4,
        spec_reserved(with_data_offset(header, v1)) == spec_reserved(header),
        spec_reserved(with_reserved(header, v2)) == v2,
        spec_data_offset(with_reserved(header, v2)) == spec_data_offset(header),
{
    let b = header[TCP_DR_OFFSET as int];
    lemma_data_offset_bits(b, v1);
    lemma_reserved_bits(b, v2);
    assert(v1 & 0x0F == v1) by (bit_vector)
        requires
            v1 < 16,
    ;
    assert(v2 & 0x0F == v2) by (bit_vector)
        requires
            v2 < 16,
    ;
}

impl<'a> Tcp<'a> {
    /// The source port.
    pub fn src_port(&self) -> (v: u16)
        requires
            self@.wf(),
        ensures
            v == field_u16(self@.header, TCP_SPORT_OFFSET as int),
    {
        self.fields.header.read_u16(TCP_SPORT_OFFSET)
    }

    /// Sets the source port.
    pub fn set_src_port(&mut self, sport: u16)
        requires
            old(self)@.wf(),
        ensures
            final(self)@ == old(self)@.with_header(
                splice(old(self)@.header, TCP_SPORT_OFFSET as int, be_bytes_u16(sport)),
            ),
            final(self)@.wf(),
            final(self).owns_header(),
            field_u16(final(self)@.header, TCP_SPORT_OFFSET as int) == sport,
    {
        self.fields.header.write_u16(TCP_SPORT_OFFSET, sport);
        proof {
            lemma_field_u16_written(old(self)@.header, TCP_SPORT_OFFSET as int, sport);
        }
    }

    /// Sets the source port and hands the segment back for further changes.
    pub fn with_src_port(&mut self, sport: u16) -> (r: &mut Self)
        requires
            old(self)@.wf(),
        ensures
            r@ == old(self)@.with_header(
                splice(old(self)@.header, TCP_SPORT_OFFSET as int, be_bytes_u16(sport)),
            ),
            r@.wf(),
            *final(self) == *final(r),
    {
        self.set_src_port(sport);
        self
    }

    /// The destination port.
    pub fn dst_port(&self) -> (v: u16)
        requires
            self@.wf(),
        ensures
            v == field_u16(self@.header, TCP_DPORT_OFFSET as int),
    {
        self.fields.header.read_u16(TCP_DPORT_OFFSET)
    }

    /// Sets the destination port.
    pub fn set_dst_port(&mut self, dport: u16)
        requires
            old(self)@.wf(),
        ensures
            final(self)@ == old(self)@.with_header(
                splice(old(self)@.header, TCP_DPORT_OFFSET as int, be_bytes_u16(dport)),
            ),
            final(self)@.wf(),
            final(self).owns_header(),
            field_u16(final(self)@.header, TCP_DPORT_OFFSET as int) == dport,
    {
        self.fields.header.write_u16(TCP_DPORT_OFFSET, dport);
        proof {
            lemma_field_u16_written(old(self)@.header, TCP_DPORT_OFFSET as int, dport);
        }
    }

    /// Sets the destination port and hands the segment back for further
    /// changes.
    pub fn with_dst_port(&mut self, dport: u16) -> (r: &mut Self)
        requires
            old(self)@.wf(),
        ensures
            r@ == old(self)@.with_header(
                splice(old(self)@.header, TCP_DPORT_OFFSET as int, be_bytes_u16(dport)),
            ),
            r@.wf(),
            *final(self) == *final(r),
    {
        self.set_dst_port(dport);
        self
    }

    /// The sequence number.
    pub fn seq_number(&self) -> (v: u32)
        requires
            self@.wf(),
        ensures
            v == field_u32(self@.header, TCP_SQNUM_OFFSET as int),
    {
        self.fields.header.read_u32(TCP_SQNUM_OFFSET)
    }

    /// Sets the sequence number.
    pub fn set_seq_number(&mut self, seq_num: u32)
        requires
            old(self)@.wf(),
        ensures
            final(self)@ == old(self)@.with_header(
                splice(old(self)@.header, TCP_SQNUM_OFFSET as int, be_bytes_u32(seq_num)),
            ),
            final(self)@.wf(),
            final(self).owns_header(),
            field_u32(final(self)@.header, TCP_SQNUM_OFFSET as int) == seq_num,
    {
        self.fields.header.write_u32(TCP_SQNUM_OFFSET, seq_num);
        proof {
            lemma_field_u32_written(old(self)@.header, TCP_SQNUM_OFFSET as int, seq_num);
        }
    }

    /// Sets the sequence number and hands the segment back for further changes.
    pub fn with_seq_number(&mut self, seq_num: u32) -> (r: &mut Self)
        requires
            old(self)@.wf(),
        ensures
            r@ == old(self)@.with_header(
                splice(old(self)@.header, TCP_SQNUM_OFFSET as int, be_bytes_u32(seq_num)),
            ),
            r@.wf(),
            *final(self) == *final(r),
    {
        self.set_seq_number(seq_num);
        self
    }

    /// The acknowledgement number.
    pub fn ack_number(&self) -> (v: u32)
        requires
            self@.wf(),
        ensures
            v == field_u32(self@.header, TCP_AKNUM_OFFSET as int),
    {
        self.fields.header.read_u32(TCP_AKNUM_OFFSET)
    }

    /// Sets the acknowledgement number.
    pub fn set_ack_number(&mut self, ack_num: u32)
        requires
            old(self)@.wf(),
        ensures
            final(self)@ == old(self)@.with_header(
                splice(old(self)@.header, TCP_AKNUM_OFFSET as int, be_bytes_u32(ack_num)),
            ),
            final(self)@.wf(),
            final(self).owns_header(),
            field_u32(final(self)@.header, TCP_AKNUM_OFFSET as int) == ack_num,
    {
        self.fields.header.write_u32(TCP_AKNUM_OFFSET, ack_num);
        proof {
            lemma_field_u32_written(old(self)@.header, TCP_AKNUM_OFFSET as int, ack_num);
        }
    }

    /// Sets the acknowledgement number and hands the segment back for further
    /// changes.
    pub fn with_ack_number(&mut self, ack_num: u32) -> (r: &mut Self)
        requires
            old(self)@.wf(),
        ensures
            r@ == old(self)@.with_header(
                splice(old(self)@.header, TCP_AKNUM_OFFSET as int, be_bytes_u32(ack_num)),
            ),
            r@.wf(),
            *final(self) == *final(r),
    {
        self.set_ack_number(ack_num);
        self
    }

    /// The header length in bytes: four times the data offset field.
    pub fn data_offset(&self) -> (v: u8)
        requires
            self@.wf(),
        ensures
            v == spec_data_offset(self@.header),
    {
        let b: u8 = self.fields.header.get(TCP_DR_OFFSET);
        assert(b >> 4 <= 15) by (bit_vector);
        (b >> 4) * 4
    }

    /// Sets the data offset field, which counts the header in units of four
    /// bytes. Only the bits of this field change; of `data_offset`, only the
    /// bits that fit the field count.
    pub fn set_data_offset(&mut self, data_offset: u8)
        requires
            old(self)@.wf(),
        ensures
            final(self)@ == old(self)@.with_header(
                with_data_offset(old(self)@.header, data_offset),
            ),
            final(self)@.wf(),
            final(self).owns_header(),
            spec_data_offset(final(self)@.header) == (data_offset & 0x0F) * 4,
            spec_reserved(final(self)@.header) == spec_reserved(old(self)@.header),
    {
        proof {
            lemma_data_offset_bits(old(self)@.header[TCP_DR_OFFSET as int], data_offset);
        }
        self.fields.header.write_bits(TCP_DR_OFFSET, 0xF0, data_offset << 4);
    }

    /// Sets the data offset field, which counts the header in units of four
    /// bytes and hands the segment back for further changes.
    pub fn with_data_offset(&mut self, data_offset: u8) -> (r: &mut Self)
        requires
            old(self)@.wf(),
        ensures
            r@ == old(self)@.with_header(with_data_offset(old(self)@.header, data_offset)),
            r@.wf(),
            *final(self) == *final(r),
    {
        self.set_data_offset(data_offset);
        self
    }

    /// The reserved bits.
    pub fn reserved(&self) -> (v: u8)
        requires
            self@.wf(),
        ensures
            v == spec_reserved(self@.header),
    {
        let b: u8 = self.fields.header.get(TCP_DR_OFFSET);
        b & 0x0F
    }

    /// Sets the reserved bits. Only the bits of this field change; of
    /// `reserved`, only the bits that fit the field count.
    pub fn set_reserved(&mut self, reserved: u8)
        requires
            old(self)@.wf(),
        ensures
            final(self)@ == old(self)@.with_header(with_reserved(old(self)@.header, reserved)),
            final(self)@.wf(),
            final(self).owns_header(),
            spec_reserved(final(self)@.header) == reserved & 0x0F,
            spec_data_offset(final(self)@.header) == spec_data_offset(old(self)@.header),
    {
        proof {
            lemma_reserved_bits(old(self)@.header[TCP_DR_OFFSET as int], reserved);
        }
        self.fields.header.write_bits(TCP_DR_OFFSET, 0x0F, reserved);
    }

    /// Sets the reserved bits and hands the segment back for further changes.
    pub fn with_reserved(&mut self, reserved: u8) -> (r: &mut Self)
        requires
            old(self)@.wf(),
        ensures
            r@ == old(self)@.with_header(with_reserved(old(self)@.header, reserved)),
            r@.wf(),
            *final(self) == *final(r),
    {
        self.set_reserved(reserved);
        self
    }

    /// The flags.
    pub fn flags(&self) -> (v: u8)
        requires
            self@.wf(),
        ensures
            v == self@.header[TCP_FLAGS_OFFSET as int],
    {
        self.fields.header.get(TCP_FLAGS_OFFSET)
    }

    /// Sets the flags.
    pub fn set_flags(&mut self, flags: u8)
        requires
            old(self)@.wf(),
        ensures
            final(self)@ == old(self)@.with_header(
                old(self)@.header.update(TCP_FLAGS_OFFSET as int, flags),
            ),
            final(self)@.wf(),
            final(self).owns_header(),
            final(self)@.header[TCP_FLAGS_OFFSET as int] == flags,
    {
        self.fields.header.set(TCP_FLAGS_OFFSET, flags);
    }

    /// Sets the flags and hands the segment back for further changes.
    pub fn with_flags(&mut self, flags: u8) -> (r: &mut Self)
        requires
            old(self)@.wf(),
        ensures
            r@ == old(self)@.with_header(old(self)@.header.update(TCP_FLAGS_OFFSET as int, flags)),
            r@.wf(),
            *final(self) == *final(r),
    {
        self.set_flags(flags);
        self
    }

    /// The window size.
    pub fn window(&self) -> (v: u16)
        requires
            self@.wf(),
        ensures
            v == field_u16(self@.header, TCP_WINDOW_OFFSET as int),
    {
        self.fields.header.read_u16(TCP_WINDOW_OFFSET)
    }

    /// Sets the window size.
    pub fn set_window(&mut self, window: u16)
        requires
            old(self)@.wf(),
        ensures
            final(self)@ == old(self)@.with_header(
                splice(old(self)@.header, TCP_WINDOW_OFFSET as int, be_bytes_u16(window)),
            ),
            final(self)@.wf(),
            final(self).owns_header(),
            field_u16(final(self)@.header, TCP_WINDOW_OFFSET as int) == window,
    {
        self.fields.header.write_u16(TCP_WINDOW_OFFSET, window);
        proof {
            lemma_field_u16_written(old(self)@.header, TCP_WINDOW_OFFSET as int, window);
        }
    }

    /// Sets the window size and hands the segment back for further changes.
    pub fn with_window(&mut self, window: u16) -> (r: &mut Self)
        requires
            old(self)@.wf(),
        ensures
            r@ == old(self)@.with_header(
                splice(old(self)@.header, TCP_WINDOW_OFFSET as int, be_bytes_u16(window)),
            ),
            r@.wf(),
            *final(self) == *final(r),
    {
        self.set_window(window);
        self
    }

    /// The checksum.
    pub fn checksum(&self) -> (v: u16)
        requires
            self@.wf(),
        ensures
            v == field_u16(self@.header, TCP_CHECKSUM_OFFSET as int),
    {
        self.fields.header.read_u16(TCP_CHECKSUM_OFFSET)
    }

    /// Sets the checksum.
    pub fn set_checksum(&mut self, checksum: u16)
        requires
            old(self)@.wf(),
        ensures
            final(self)@ == old(self)@.with_header(
                splice(old(self)@.header, TCP_CHECKSUM_OFFSET as int, be_bytes_u16(checksum)),
            ),
            final(self)@.wf(),
            final(self).owns_header(),
            field_u16(final(self)@.header, TCP_CHECKSUM_OFFSET as int) == checksum,
    {
        self.fields.header.write_u16(TCP_CHECKSUM_OFFSET, checksum);
        proof {
            lemma_field_u16_written(old(self)@.header, TCP_CHECKSUM_OFFSET as int, checksum);
        }
    }

    /// Sets the checksum and hands the segment back for further changes.
    pub fn with_checksum(&mut self, checksum: u16) -> (r: &mut Self)
        requires
            old(self)@.wf(),
        ensures
            r@ == old(self)@.with_header(
                splice(old(self)@.header, TCP_CHECKSUM_OFFSET as int, be_bytes_u16(checksum)),
            ),
            r@.wf(),
            *final(self) == *final(r),
    {
        self.set_checksum(checksum);
        self
    }

    /// The urgent pointer.
    pub fn urg_pointer(&self) -> (v: u16)
        requires
            self@.wf(),
        ensures
            v == field_u16(self@.header, TCP_URGPTR_OFFSET as int),
    {
        self.fields.header.read_u16(TCP_URGPTR_OFFSET)
    }

    /// Sets the urgent pointer.
    pub fn set_urg_pointer(&mut self, urg_pointer: u16)
        requires
            old(self)@.wf(),
        ensures
            final(self)@ == old(self)@.with_header(
                splice(old(self)@.header, TCP_URGPTR_OFFSET as int, be_bytes_u16(urg_pointer)),
            ),
            final(self)@.wf(),
            final(self).owns_header(),
            field_u16(final(self)@.header, TCP_URGPTR_OFFSET as int) == urg_pointer,
    {
        self.fields.header.write_u16(TCP_URGPTR_OFFSET, urg_pointer);
        proof {
            lemma_field_u16_written(old(self)@.header, TCP_URGPTR_OFFSET as int, urg_pointer);
        }
    }

    /// The bytes that the segment carries.
    pub fn payload(&self) -> (d: &[u8])
        ensures
            d@ == self@.data,
    {
        self.fields.data.as_slice()
    }
}

/// What a TCP segment with the header `header` projects to, where `data` stands
/// for what it carries.
pub open spec fn spec_tcp_json(header: Seq<u8>, data: Doc) -> Doc {
    named(
        "tcp"@,
        Seq::empty()
            .push(("tcp.sport"@, doc_u16(field_u16(header, TCP_SPORT_OFFSET as int))))
            .push(("tcp.dport"@, doc_u16(field_u16(header, TCP_DPORT_OFFSET as int))))
            .push(("tcp.seq_number"@, doc_u32(field_u32(header, TCP_SQNUM_OFFSET as int))))
            .push(("tcp.ack_number"@, doc_u32(field_u32(header, TCP_AKNUM_OFFSET as int))))
            .push(("tcp.data_offset"@, doc_u8(spec_data_offset(header) as u8)))
            .push(("tcp.reserved"@, doc_u8(spec_reserved(header))))
            .push(("tcp.flags"@, doc_u8(header[TCP_FLAGS_OFFSET as int])))
            .push(("tcp.window"@, doc_u16(field_u16(header, TCP_WINDOW_OFFSET as int))))
            .push(("tcp.checksum"@, doc_u16(field_u16(header, TCP_CHECKSUM_OFFSET as int))))
            .push(("tcp.urg_pointer"@, doc_u16(field_u16(header, TCP_URGPTR_OFFSET as int))))
            .push(("tcp.data"@, data)),
    )
}

impl<'a> Tcp<'a> {
    /// Projects the fields of the header to a document, with `data` as the
    /// member that stands for what the node carries.
    pub fn fields_to_json(&self, data: Value) -> (v: Value)
        requires
            self@.wf(),
        ensures
            v@ == spec_tcp_json(self@.header, data@),
    {
        let mut inner = Value::object();
        inner.insert("tcp.sport", Value::from_u16(self.src_port()));
        inner.insert("tcp.dport", Value::from_u16(self.dst_port()));
        inner.insert("tcp.seq_number", Value::from_u32(self.seq_number()));
        inner.insert("tcp.ack_number", Value::from_u32(self.ack_number()));
        inner.insert("tcp.data_offset", Value::from_u8(self.data_offset()));
        inner.insert("tcp.reserved", Value::from_u8(self.reserved()));
        inner.insert("tcp.flags", Value::from_u8(self.flags()));
        inner.insert("tcp.window", Value::from_u16(self.window()));
        inner.insert("tcp.checksum", Value::from_u16(self.checksum()));
        inner.insert("tcp.urg_pointer", Value::from_u16(self.urg_pointer()));
        inner.insert("tcp.data", data);
        Value::wrap("tcp", inner)
    }
}

impl<'a> Pdu<'a> for Tcp<'a> {
    proof fn lemma_view_tag(&self) {
    }

    fn from_bytes(bytes: &'a [u8], tables: &DissectionTables) -> (r: PduResult<'a>) {
        decode(TypeTag::Tcp, bytes, tables)
    }

    fn to_owned(&self) -> (r: Node<'static>) {
        Node::Tcp(Tcp { fields: self.fields.detach() })
    }

    fn to_bytes(&self) -> (r: Vec<u8>) {
        self.fields.encode()
    }

    fn to_json(&self) -> (v: Value) {
        self.fields_to_json(self.fields.data_to_json())
    }

    fn child_to_json(&self) -> (v: Value) {
        self.fields.data_to_json()
    }

    fn set_parent(&mut self, parent: Option<TypeTag>) {
        self.fields.parent = parent;
    }

    fn set_child(&mut self, child: Pob<'a>) {
        self.fields.child = child;
    }

    fn parent_pdu(&self) -> (p: Option<TypeTag>) {
        self.fields.parent
    }

    fn child_pdu(&self) -> (c: Option<&Node<'a>>) {
        self.fields.child_ref()
    }

    fn child_pdu_mut(&mut self) -> (c: Option<&mut Node<'a>>) {
        self.fields.child_mut()
    }

    fn into_node(self) -> (n: Node<'a>) {
        Node::Tcp(self)
    }

    fn cast_ref<'b>(node: &'b Node<'a>) -> (r: Option<&'b Self>) {
        match node {
            Node::Tcp(p) => Some(p),
            _ => None,
        }
    }

    fn cast_mut<'b>(node: &'b mut Node<'a>) -> (r: Option<&'b mut Self>) {
        match node {
            Node::Tcp(p) => Some(p),
            _ => None,
        }
    }

    fn cast(node: Node<'a>) -> (r: Result<Self, Node<'a>>) {
        match node {
            Node::Tcp(p) => Ok(p),
            other => Err(other),
        }
    }
}

} // verus!
