//! IPv4 datagrams.

use vstd::prelude::*;
use crate::bytes::{
    field_u16, field_u32, lemma_field_u16_written, lemma_field_u32_written, merge_bits, splice,
    ByteView,
};
use crate::chain::decode;
use crate::json::{doc_u16, doc_u8, named, Doc, Value};
use crate::pdu::{Node, Pdu, PduFields, PduResult, PduView, Pob};
use crate::registry::DissectionTables;
use crate::table::TableKey;
use crate::tid::{Tid, TypeTag};
use crate::utils::{
    be_bytes_u16, be_bytes_u32, decimal_byte, joined, lemma_be_value_2, push_char,
    push_decimal_byte, u32_to_be_bytes,
};

verus! {

/// The number of bytes that one unit of the header length field stands for.
pub const IPV4_BYTE_MULTIPLE: usize = 4;

/// Where the version and header length share a byte.
pub const IPV4_VERSION_OFFSET: usize = 0;

/// Where the type of service is.
pub const IPV4_TOS_OFFSET: usize = 1;

/// Where the total length starts.
pub const IPV4_TOTAL_LEN_OFFSET: usize = 2;

/// Where the identification starts.
pub const IPV4_ID_OFFSET: usize = 4;

/// Where the flags and the fragment offset start.
pub const IPV4_FRAG_FLAG_OFFSET: usize = 6;

/// Where the time to live is.
pub const IPV4_TTL_OFFSET: usize = 8;

/// Where the protocol number is.
pub const IPV4_PROTO_OFFSET: usize = 9;

/// Where the header checksum starts.
pub const IPV4_CHECKSUM_OFFSET: usize = 10;

/// Where the source address starts.
pub const IPV4_SRC_ADDR_OFFSET: usize = 12;

/// Where the destination address starts.
pub const IPV4_DST_ADDR_OFFSET: usize = 16;

/// Where the options start.
pub const IPV4_OPT_OFFSET: usize = 20;

/// The length of an IPv4 header without options in bytes.
pub const IPV4_HEADER_LEN: usize = 20;

/// The protocol number of an IPv4 datagram: the protocol of its payload.
#[derive(Debug, Clone, Copy, PartialEq, Eq, Hash)]
pub struct Ipv4Type(pub u8);

impl TableKey for Ipv4Type {
    open spec fn spec_key(self) -> u64 {
        self.0 as u64
    }

    fn key(&self) -> (k: u64) {
        self.0 as u64
    }

    proof fn lemma_key_injective(a: Self, b: Self) {
    }
}

/// The header length in bytes that a datagram starting with `bytes` declares:
/// four times the low half of its first byte.
pub open spec fn spec_ip_header_len(bytes: Seq<u8>) -> nat {
    ((bytes[IPV4_VERSION_OFFSET as int] & 0x0F) * IPV4_BYTE_MULTIPLE) as nat
}

/// The protocol number that a datagram starting with `bytes` declares.
pub open spec fn spec_ip_type(bytes: Seq<u8>) -> u8 {
    bytes[IPV4_PROTO_OFFSET as int]
}

/// Reads the declared header length, in bytes, of the datagram that starts
/// with `ip_header_bytes`.
pub fn get_ip_header_len(ip_header_bytes: &[u8]) -> (n: usize)
    requires
        ip_header_bytes@.len() > IPV4_VERSION_OFFSET,
    ensures
        n == spec_ip_header_len(ip_header_bytes@),
        n <= 60,
{
    let b: u8 = ip_header_bytes[IPV4_VERSION_OFFSET];
    let ihl: u8 = b & 0x0F;
    assert(b & 0x0F <= 15) by (bit_vector);
    ihl as usize * IPV4_BYTE_MULTIPLE
}

/// Reads the protocol number of the datagram that starts with `bytes`.
pub fn get_ip_type(bytes: &[u8]) -> (t: u8)
    requires
        bytes@.len() > IPV4_PROTO_OFFSET,
    ensures
        t == spec_ip_type(bytes@),
{
    bytes[IPV4_PROTO_OFFSET]
}

/// An IPv4 datagram.
#[derive(Debug)]
pub struct Ip<'a> {
    pub(crate) fields: PduFields<'a>,
}

impl<'a> View for Ip<'a> {
    type V = PduView;

    open(crate) spec fn view(&self) -> PduView {
        self.fields.view_as(TypeTag::Ip)
    }
}

impl<'a> Ip<'a> {
    /// Whether the node owns its header, as it does once a field was set.
    pub open(crate) spec fn owns_header(&self) -> bool {
        self.fields.header is Owned
    }

    /// Whether the node owns its payload.
    pub open(crate) spec fn owns_payload(&self) -> bool {
        self.fields.data is Owned
    }
}

impl<'a> Tid<'a> for Ip<'a> {
    open spec fn spec_id() -> TypeTag {
        TypeTag::Ip
    }

    fn self_id(&self) -> (t: TypeTag) {
        TypeTag::Ip
    }

    fn id() -> (t: TypeTag) {
        TypeTag::Ip
    }
}

/// An IPv4 address.
#[derive(Debug, Clone, Copy, PartialEq, Eq, Hash, Structural)]
pub struct Ipv4Address(pub u32);

/// The text of an address: the decimal numbers of its four bytes, most
/// significant first, with dots between them.
pub open spec fn ipv4_text(bits: u32) -> Seq<char> {
    joined(be_bytes_u32(bits), '.', |b: u8| decimal_byte(b))
}

impl Ipv4Address {
    /// The address whose four bytes, most significant first, make up `bits`.
    pub fn from_bits(bits: u32) -> (a: Self)
        ensures
            a.0 == bits,
    {
        Ipv4Address(bits)
    }

    /// The four bytes of the address as one number, most significant first.
    pub fn to_bits(&self) -> (bits: u32)
        ensures
            bits == self.0,
    {
        self.0
    }

    /// The four bytes of the address, most significant first.
    pub fn octets(&self) -> (r: [u8; 4])
        ensures
            r@ == be_bytes_u32(self.0),
    {
        u32_to_be_bytes(self.0)
    }

    /// The address as text, such as `192.0.2.1`.
    pub fn to_str(&self) -> (s: String)
        ensures
            s@ == ipv4_text(self.0),
    {
        let bytes = self.octets();
        let mut out = String::new();
        let mut i: usize = 0;
        while i < 4
            invariant
                i <= 4,
                bytes@.len() == 4,
                out@ == joined(bytes@.take(i as int), '.', |b: u8| decimal_byte(b)),
            decreases 4 - i,
        {
            if i != 0 {
                push_char(&mut out, '.');
            }
            push_decimal_byte(&mut out, bytes[i]);
            proof {
                let next = bytes@.take(i + 1);
                assert(next.drop_last() =~= bytes@.take(i as int));
                assert(next.last() == bytes@[i as int]);
            }
            i += 1;
        }
        assert(bytes@.take(4) =~= bytes@);
        out
    }
}

/// The version that the header `header` declares: the high half of its first
/// byte.
pub open spec fn spec_version(header: Seq<u8>) -> u8 {
    (header[IPV4_VERSION_OFFSET as int] & 0xF0) >> 4
}

/// The header `header` after the version is set to `version`.
pub open spec fn with_version(header: Seq<u8>, version: u8) -> Seq<u8> {
    header.update(
        IPV4_VERSION_OFFSET as int,
        merge_bits(header[IPV4_VERSION_OFFSET as int], 0xF0, version << 4),
    )
}

/// The header length, in units of four bytes, that the header `header`
/// declares: the low half of its first byte.
pub open spec fn spec_ihl(header: Seq<u8>) -> u8 {
    header[IPV4_VERSION_OFFSET as int] & 0x0F
}

/// The header `header` after the header length is set to `ihl`.
pub open spec fn with_ihl(header: Seq<u8>, ihl: u8) -> Seq<u8> {
    header.update(
        IPV4_VERSION_OFFSET as int,
        merge_bits(header[IPV4_VERSION_OFFSET as int], 0x0F, ihl),
    )
}

/// The differentiated services code point of the header `header`: the high six
/// bits of its second byte.
pub open spec fn spec_dscp(header: Seq<u8>) -> u8 {
    header[IPV4_TOS_OFFSET as int] >> 2
}

/// The header `header` after the code point is set to `dscp`.
pub open spec fn with_dscp(header: Seq<u8>, dscp: u8) -> Seq<u8> {
    header.update(
        IPV4_TOS_OFFSET as int,
        merge_bits(header[IPV4_TOS_OFFSET as int], 0xFC, dscp << 2),
    )
}

/// The congestion notification bits of the header `header`: the low two bits of
/// its second byte.
pub open spec fn spec_ecn(header: Seq<u8>) -> u8 {
    header[IPV4_TOS_OFFSET as int] & 0x03
}

/// The header `header` after the congestion notification bits are set to `ecn`.
pub open spec fn with_ecn(header: Seq<u8>, ecn: u8) -> Seq<u8> {
    header.update(IPV4_TOS_OFFSET as int, merge_bits(header[IPV4_TOS_OFFSET as int], 0x03, ecn))
}

/// The three flags of the header `header`: the high three bits of its seventh
/// byte.
pub open spec fn spec_flags(header: Seq<u8>) -> u8 {
    header[IPV4_FRAG_FLAG_OFFSET as int] >> 5
}

/// The header `header` after the three flags are set to `flags`.
pub open spec fn with_flags(header: Seq<u8>, flags: u8) -> Seq<u8> {
    header.update(
        IPV4_FRAG_FLAG_OFFSET as int,
        merge_bits(header[IPV4_FRAG_FLAG_OFFSET as int], 0xE0, flags << 5),
    )
}

/// Whether the reserved flag is set in the header `header`.
pub open spec fn spec_rf(header: Seq<u8>) -> bool {
    header[IPV4_FRAG_FLAG_OFFSET as int] & 0x80 != 0
}

/// The header `header` after the reserved flag is set to the lowest bit of
/// `rf`.
pub open spec fn with_rf(header: Seq<u8>, rf: u8) -> Seq<u8> {
    header.update(
        IPV4_FRAG_FLAG_OFFSET as int,
        merge_bits(header[IPV4_FRAG_FLAG_OFFSET as int], 0x80, rf << 7),
    )
}

/// Whether the header `header` forbids fragmentation.
pub open spec fn spec_df(header: Seq<u8>) -> bool {
    header[IPV4_FRAG_FLAG_OFFSET as int] & 0x40 != 0
}

/// The header `header` after the flag that forbids fragmentation is set to the
/// lowest bit of `df`.
pub open spec fn with_df(header: Seq<u8>, df: u8) -> Seq<u8> {
    header.update(
        IPV4_FRAG_FLAG_OFFSET as int,
        merge_bits(header[IPV4_FRAG_FLAG_OFFSET as int], 0x40, df << 6),
    )
}

/// Whether the header `header` announces more fragments.
pub open spec fn spec_mf(header: Seq<u8>) -> bool {
    header[IPV4_FRAG_FLAG_OFFSET as int] & 0x20 != 0
}

/// The header `header` after the flag that announces more fragments is set to
/// the lowest bit of `mf`.
pub open spec fn with_mf(header: Seq<u8>, mf: u8) -> Seq<u8> {
    header.update(
        IPV4_FRAG_FLAG_OFFSET as int,
        merge_bits(header[IPV4_FRAG_FLAG_OFFSET as int], 0x20, mf << 5),
    )
}

/// The fragment offset of the header `header`: the low thirteen bits of the two
/// bytes that it shares with the flags.
pub open spec fn spec_frag_offset(header: Seq<u8>) -> u16 {
    field_u16(header, IPV4_FRAG_FLAG_OFFSET as int) & 0x1FFF
}

/// The header `header` after the fragment offset is set to the low thirteen
/// bits of `offset`.
pub open spec fn with_frag_offset(header: Seq<u8>, offset: u16) -> Seq<u8> {
    header.update(
        IPV4_FRAG_FLAG_OFFSET as int,
        merge_bits(header[IPV4_FRAG_FLAG_OFFSET as int], 0x1F, (offset >> 8) as u8),
    ).update(IPV4_FRAG_FLAG_OFFSET + 1, (offset & 0xFF) as u8)
}

/// The version and the header length share a byte and do not disturb each
/// other: setting one to a value of four bits gives that value and leaves
/// the other as it was.
pub proof fn lemma_version_ihl_isolated(header: Seq<u8>, v1: u8, v2: u8)
    requires
        header.len() > IPV4_VERSION_OFFSET,
        v1 < 16,
        v2 < 16,
    ensures
        spec_version(with_version(header, v1)) == v1,
        spec_ihl(with_version(header, v1)) == spec_ihl(header),
        spec_ihl(with_ihl(header, v2)) == v2,
        spec_version(with_ihl(header, v2)) == spec_version(header),
        spec_version(with_ihl(with_version(header, v1), v2)) == v1,
        spec_ihl(with_version(with_ihl(header, v2), v1)) == v2,
{
    let b = header[IPV4_VERSION_OFFSET as int];
    lemma_version_bits(b, v1);
    lemma_ihl_bits(b, v2);
    lemma_ihl_bits(with_version(header, v1)[IPV4_VERSION_OFFSET as int], v2);
    lemma_version_bits(with_ihl(header, v2)[IPV4_VERSION_OFFSET as int], v1);
    assert(v1 & 0x0F == v1) by (bit_vector)
        requires
            v1 < 16,
    ;
    assert(v2 & 0x0F == v2) by (bit_vector)
        requires
            v2 < 16,
    ;
}

/// What writing the version does to the byte it shares with the header
/// length.
pub proof fn lemma_version_bits(old: u8, v: u8)
    by (bit_vector)
    ensures
        (merge_bits(old, 0xF0, v << 4) & 0xF0) >> 4 == v & 0x0F,
        merge_bits(old, 0xF0, v << 4) & 0x0F == old & 0x0F,
{
}

/// What writing the header length does to the byte it shares with the
/// version.
pub proof fn lemma_ihl_bits(old: u8, v: u8)
    by (bit_vector)
    ensures
        merge_bits(old, 0x0F, v) & 0x0F == v & 0x0F,
        (merge_bits(old, 0x0F, v) & 0xF0) >> 4 == (old & 0xF0) >> 4,
{
}

/// What writing the code point does to the byte it shares with the
/// congestion notification bits.
pub proof fn lemma_dscp_bits(old: u8, v: u8)
    by (bit_vector)
    ensures
        merge_bits(old, 0xFC, v << 2) >> 2 == v & 0x3F,
        merge_bits(old, 0xFC, v << 2) & 0x03 == old & 0x03,
{
}

/// What writing the congestion notification bits does to the byte they share
/// with the code point.
pub proof fn lemma_ecn_bits(old: u8, v: u8)
    by (bit_vector)
    ensures
        merge_bits(old, 0x03, v) & 0x03 == v & 0x03,
        merge_bits(old, 0x03, v) >> 2 == old >> 2,
{
}

/// What writing the three flags does to the byte they share with the high
/// bits of the fragment offset.
pub proof fn lemma_flags_bits(old: u8, v: u8)
    by (bit_vector)
    ensures
        merge_bits(old, 0xE0, v << 5) >> 5 == v & 0x07,
        merge_bits(old, 0xE0, v << 5) & 0x1F == old & 0x1F,
{
}

/// What writing the reserved flag does to its byte.
pub proof fn lemma_rf_bit(old: u8, v: u8)
    by (bit_vector)
    ensures
        (merge_bits(old, 0x80, v << 7) & 0x80 != 0) == (v & 1 == 1),
        merge_bits(old, 0x80, v << 7) & 0x40 == old & 0x40,
        merge_bits(old, 0x80, v << 7) & 0x20 == old & 0x20,
        merge_bits(old, 0x80, v << 7) & 0x1F == old & 0x1F,
{
}

/// What writing the flag that forbids fragmentation does to its byte.
pub proof fn lemma_df_bit(old: u8, v: u8)
    by (bit_vector)
    ensures
        (merge_bits(old, 0x40, v << 6) & 0x40 != 0) == (v & 1 == 1),
        merge_bits(old, 0x40, v << 6) & 0x80 == old & 0x80,
        merge_bits(old, 0x40, v << 6) & 0x20 == old & 0x20,
        merge_bits(old, 0x40, v << 6) & 0x1F == old & 0x1F,
{
}

/// What writing the flag that announces more fragments does to its byte.
pub proof fn lemma_mf_bit(old: u8, v: u8)
    by (bit_vector)
    ensures
        (merge_bits(old, 0x20, v << 5) & 0x20 != 0) == (v & 1 == 1),
        merge_bits(old, 0x20, v << 5) & 0x80 == old & 0x80,
        merge_bits(old, 0x20, v << 5) & 0x40 == old & 0x40,
        merge_bits(old, 0x20, v << 5) & 0x1F == old & 0x1F,
{
}

/// What writing the fragment offset does to the two bytes it shares with the
/// flags.
pub proof fn lemma_frag_offset_bits(old: u8, v: u16)
    by (bit_vector)
    ensures
        ((merge_bits(old, 0x1F, (v >> 8) as u8) as u16 * 256 + ((v & 0xFF) as u8) as u16) as u16)
            & 0x1FFF == v & 0x1FFF,
        merge_bits(old, 0x1F, (v >> 8) as u8) >> 5 == old >> 5,
        merge_bits(old, 0x1F, (v >> 8) as u8) & 0x80 == old & 0x80,
        merge_bits(old, 0x1F, (v >> 8) as u8) & 0x40 == old & 0x40,
        merge_bits(old, 0x1F, (v >> 8) as u8) & 0x20 == old & 0x20,
{
}

/// The fragment offset reads the low five bits of the first of its two bytes
/// only.
pub proof fn lemma_frag_offset_reads(a: u8, b: u8, low: u8)
    by (bit_vector)
    requires
        a & 0x1F == b & 0x1F,
    ensures
        ((a as u16 * 256 + low as u16) as u16) & 0x1FFF == ((b as u16 * 256 + low as u16) as u16)
            & 0x1FFF,
{
}

/// The fragment offset stays when the byte that holds the flags changes in
/// its high three bits only.
pub proof fn lemma_frag_offset_kept(header: Seq<u8>, b: u8)
    requires
        header.len() >= IPV4_TTL_OFFSET,
        b & 0x1F == header[IPV4_FRAG_FLAG_OFFSET as int] & 0x1F,
    ensures
        spec_frag_offset(header.update(IPV4_FRAG_FLAG_OFFSET as int, b)) == spec_frag_offset(
            header,
        ),
{
    let changed = header.update(IPV4_FRAG_FLAG_OFFSET as int, b);
    lemma_be_value_2(header.subrange(IPV4_FRAG_FLAG_OFFSET as int, IPV4_TTL_OFFSET as int));
    lemma_be_value_2(changed.subrange(IPV4_FRAG_FLAG_OFFSET as int, IPV4_TTL_OFFSET as int));
    lemma_frag_offset_reads(
        b,
        header[IPV4_FRAG_FLAG_OFFSET as int],
        header[IPV4_FRAG_FLAG_OFFSET + 1],
    );
}

impl<'a> Ip<'a> {
    /// A datagram whose header is twenty zero bytes and that carries nothing.
    pub fn new() -> (r: Self)
        ensures
            r@ == (PduView {
                tag: TypeTag::Ip,
                header: Seq::new(IPV4_HEADER_LEN as nat, |i: int| 0u8),
                data: Seq::empty(),
                parent: None,
                child: None,
            }),
            r@.wf(),
    {
        Ip { fields: PduFields::new(ByteView::zeroed(IPV4_HEADER_LEN), ByteView::empty()) }
    }

    /// The version.
    pub fn version(&self) -> (v: u8)
        requires
            self@.wf(),
        ensures
            v == spec_version(self@.header),
    {
        let b: u8 = self.fields.header.get(IPV4_VERSION_OFFSET);
        (b & 0xF0) >> 4
    }

    /// Sets the version. Only the bits of this field change; of `version`, only
    /// the bits that fit the field count.
    pub fn set_version(&mut self, version: u8)
        requires
            old(self)@.wf(),
        ensures
            final(self)@ == old(self)@.with_header(with_version(old(self)@.header, version)),
            final(self)@.wf(),
            final(self).owns_header(),
            spec_version(final(self)@.header) == version & 0x0F,
            spec_ihl(final(self)@.header) == spec_ihl(old(self)@.header),
    {
        proof {
            lemma_version_bits(old(self)@.header[IPV4_VERSION_OFFSET as int], version);
        }
        self.fields.header.write_bits(IPV4_VERSION_OFFSET, 0xF0, version << 4);
    }

    /// Sets the version and hands the datagram back for further changes.
    pub fn with_version(&mut self, version: u8) -> (r: &mut Self)
        requires
            old(self)@.wf(),
        ensures
            r@ == old(self)@.with_header(with_version(old(self)@.header, version)),
            r@.wf(),
            *final(self) == *final(r),
    {
        self.set_version(version);
        self
    }

    /// The header length in units of four bytes.
    pub fn ihl(&self) -> (v: u8)
        requires
            self@.wf(),
        ensures
            v == spec_ihl(self@.header),
    {
        let b: u8 = self.fields.header.get(IPV4_VERSION_OFFSET);
        b & 0x0F
    }

    /// Sets the header length in units of four bytes. Only the bits of this
    /// field change; of `ihl`, only the bits that fit the field count.
    pub fn set_ihl(&mut self, ihl: u8)
        requires
            old(self)@.wf(),
        ensures
            final(self)@ == old(self)@.with_header(with_ihl(old(self)@.header, ihl)),
            final(self)@.wf(),
            final(self).owns_header(),
            spec_ihl(final(self)@.header) == ihl & 0x0F,
            spec_version(final(self)@.header) == spec_version(old(self)@.header),
    {
        proof {
            lemma_ihl_bits(old(self)@.header[IPV4_VERSION_OFFSET as int], ihl);
        }
        self.fields.header.write_bits(IPV4_VERSION_OFFSET, 0x0F, ihl);
    }

    /// Sets the header length in units of four bytes and hands the datagram
    /// back for further changes.
    pub fn with_ihl(&mut self, ihl: u8) -> (r: &mut Self)
        requires
            old(self)@.wf(),
        ensures
            r@ == old(self)@.with_header(with_ihl(old(self)@.header, ihl)),
            r@.wf(),
            *final(self) == *final(r),
    {
        self.set_ihl(ihl);
        self
    }

    /// The type of service.
    pub fn tos(&self) -> (v: u8)
        requires
            self@.wf(),
        ensures
            v == self@.header[IPV4_TOS_OFFSET as int],
    {
        self.fields.header.get(IPV4_TOS_OFFSET)
    }

    /// Sets the type of service.
    pub fn set_tos(&mut self, tos: u8)
        requires
            old(self)@.wf(),
        ensures
            final(self)@ == old(self)@.with_header(
                old(self)@.header.update(IPV4_TOS_OFFSET as int, tos),
            ),
            final(self)@.wf(),
            final(self).owns_header(),
            final(self)@.header[IPV4_TOS_OFFSET as int] == tos,
    {
        self.fields.header.set(IPV4_TOS_OFFSET, tos);
    }

    /// Sets the type of service and hands the datagram back for further
    /// changes.
    pub fn with_tos(&mut self, tos: u8) -> (r: &mut Self)
        requires
            old(self)@.wf(),
        ensures
            r@ == old(self)@.with_header(old(self)@.header.update(IPV4_TOS_OFFSET as int, tos)),
            r@.wf(),
            *final(self) == *final(r),
    {
        self.set_tos(tos);
        self
    }

    /// The differentiated services code point.
    pub fn dscp(&self) -> (v: u8)
        requires
            self@.wf(),
        ensures
            v == spec_dscp(self@.header),
    {
        let b: u8 = self.fields.header.get(IPV4_TOS_OFFSET);
        b >> 2
    }

    /// Sets the differentiated services code point. Only the bits of this field
    /// change; of `dscp`, only the bits that fit the field count.
    pub fn set_dscp(&mut self, dscp: u8)
        requires
            old(self)@.wf(),
        ensures
            final(self)@ == old(self)@.with_header(with_dscp(old(self)@.header, dscp)),
            final(self)@.wf(),
            final(self).owns_header(),
            spec_dscp(final(self)@.header) == dscp & 0x3F,
            spec_ecn(final(self)@.header) == spec_ecn(old(self)@.header),
    {
        proof {
            lemma_dscp_bits(old(self)@.header[IPV4_TOS_OFFSET as int], dscp);
        }
        self.fields.header.write_bits(IPV4_TOS_OFFSET, 0xFC, dscp << 2);
    }

    /// Sets the differentiated services code point and hands the datagram back
    /// for further changes.
    pub fn with_dscp(&mut self, dscp: u8) -> (r: &mut Self)
        requires
            old(self)@.wf(),
        ensures
            r@ == old(self)@.with_header(with_dscp(old(self)@.header, dscp)),
            r@.wf(),
            *final(self) == *final(r),
    {
        self.set_dscp(dscp);
        self
    }

    /// The congestion notification bits.
    pub fn ecn(&self) -> (v: u8)
        requires
            self@.wf(),
        ensures
            v == spec_ecn(self@.header),
    {
        let b: u8 = self.fields.header.get(IPV4_TOS_OFFSET);
        b & 0x03
    }

    /// Sets the congestion notification bits. Only the bits of this field
    /// change; of `ecn`, only the bits that fit the field count.
    pub fn set_ecn(&mut self, ecn: u8)
        requires
            old(self)@.wf(),
        ensures
            final(self)@ == old(self)@.with_header(with_ecn(old(self)@.header, ecn)),
            final(self)@.wf(),
            final(self).owns_header(),
            spec_ecn(final(self)@.header) == ecn & 0x03,
            spec_dscp(final(self)@.header) == spec_dscp(old(self)@.header),
    {
        proof {
            lemma_ecn_bits(old(self)@.header[IPV4_TOS_OFFSET as int], ecn);
        }
        self.fields.header.write_bits(IPV4_TOS_OFFSET, 0x03, ecn);
    }

    /// Sets the congestion notification bits and hands the datagram back for
    /// further changes.
    pub fn with_ecn(&mut self, ecn: u8) -> (r: &mut Self)
        requires
            old(self)@.wf(),
        ensures
            r@ == old(self)@.with_header(with_ecn(old(self)@.header, ecn)),
            r@.wf(),
            *final(self) == *final(r),
    {
        self.set_ecn(ecn);
        self
    }

    /// The total length.
    pub fn total_len(&self) -> (v: u16)
        requires
            self@.wf(),
        ensures
            v == field_u16(self@.header, IPV4_TOTAL_LEN_OFFSET as int),
    {
        self.fields.header.read_u16(IPV4_TOTAL_LEN_OFFSET)
    }

    /// Sets the total length.
    pub fn set_total_len(&mut self, total_len: u16)
        requires
            old(self)@.wf(),
        ensures
            final(self)@ == old(self)@.with_header(
                splice(old(self)@.header, IPV4_TOTAL_LEN_OFFSET as int, be_bytes_u16(total_len)),
            ),
            final(self)@.wf(),
            final(self).owns_header(),
            field_u16(final(self)@.header, IPV4_TOTAL_LEN_OFFSET as int) == total_len,
    {
        self.fields.header.write_u16(IPV4_TOTAL_LEN_OFFSET, total_len);
        proof {
            lemma_field_u16_written(old(self)@.header, IPV4_TOTAL_LEN_OFFSET as int, total_len);
        }
    }

    /// Sets the total length and hands the datagram back for further changes.
    pub fn with_total_len(&mut self, total_len: u16) -> (r: &mut Self)
        requires
            old(self)@.wf(),
        ensures
            r@ == old(self)@.with_header(
                splice(old(self)@.header, IPV4_TOTAL_LEN_OFFSET as int, be_bytes_u16(total_len)),
            ),
            r@.wf(),
            *final(self) == *final(r),
    {
        self.set_total_len(total_len);
        self
    }

    /// The identification.
    pub fn id(&self) -> (v: u16)
        requires
            self@.wf(),
        ensures
            v == field_u16(self@.header, IPV4_ID_OFFSET as int),
    {
        self.fields.header.read_u16(IPV4_ID_OFFSET)
    }

    /// Sets the identification.
    pub fn set_id(&mut self, id: u16)
        requires
            old(self)@.wf(),
        ensures
            final(self)@ == old(self)@.with_header(
                splice(old(self)@.header, IPV4_ID_OFFSET as int, be_bytes_u16(id)),
            ),
            final(self)@.wf(),
            final(self).owns_header(),
            field_u16(final(self)@.header, IPV4_ID_OFFSET as int) == id,
    {
        self.fields.header.write_u16(IPV4_ID_OFFSET, id);
        proof {
            lemma_field_u16_written(old(self)@.header, IPV4_ID_OFFSET as int, id);
        }
    }

    /// Sets the identification and hands the datagram back for further changes.
    pub fn with_id(&mut self, id: u16) -> (r: &mut Self)
        requires
            old(self)@.wf(),
        ensures
            r@ == old(self)@.with_header(
                splice(old(self)@.header, IPV4_ID_OFFSET as int, be_bytes_u16(id)),
            ),
            r@.wf(),
            *final(self) == *final(r),
    {
        self.set_id(id);
        self
    }

    /// The three flags.
    pub fn flags(&self) -> (v: u8)
        requires
            self@.wf(),
        ensures
            v == spec_flags(self@.header),
    {
        let b: u8 = self.fields.header.get(IPV4_FRAG_FLAG_OFFSET);
        b >> 5
    }

    /// Sets the three flags. Only the bits of this field change; of `flags`,
    /// only the bits that fit the field count.
    pub fn set_flags(&mut self, flags: u8)
        requires
            old(self)@.wf(),
        ensures
            final(self)@ == old(self)@.with_header(with_flags(old(self)@.header, flags)),
            final(self)@.wf(),
            final(self).owns_header(),
            spec_flags(final(self)@.header) == flags & 0x07,
            spec_frag_offset(final(self)@.header) == spec_frag_offset(old(self)@.header),
    {
        proof {
            lemma_flags_bits(old(self)@.header[IPV4_FRAG_FLAG_OFFSET as int], flags);
            lemma_frag_offset_kept(
                old(self)@.header,
                merge_bits(old(self)@.header[IPV4_FRAG_FLAG_OFFSET as int], 0xE0, flags << 5),
            );
        }
        self.fields.header.write_bits(IPV4_FRAG_FLAG_OFFSET, 0xE0, flags << 5);
    }

    /// Sets the three flags and hands the datagram back for further changes.
    pub fn with_flags(&mut self, flags: u8) -> (r: &mut Self)
        requires
            old(self)@.wf(),
        ensures
            r@ == old(self)@.with_header(with_flags(old(self)@.header, flags)),
            r@.wf(),
            *final(self) == *final(r),
    {
        self.set_flags(flags);
        self
    }

    /// The reserved flag.
    pub fn rf(&self) -> (v: bool)
        requires
            self@.wf(),
        ensures
            v == spec_rf(self@.header),
    {
        let b: u8 = self.fields.header.get(IPV4_FRAG_FLAG_OFFSET);
        b & 0x80 != 0
    }

    /// Sets the reserved flag. Only this bit changes; of `rf`, only the lowest
    /// bit counts.
    pub fn set_rf(&mut self, rf: u8)
        requires
            old(self)@.wf(),
        ensures
            final(self)@ == old(self)@.with_header(with_rf(old(self)@.header, rf)),
            final(self)@.wf(),
            final(self).owns_header(),
            spec_rf(final(self)@.header) == (rf & 1 == 1),
            spec_df(final(self)@.header) == spec_df(old(self)@.header),
            spec_mf(final(self)@.header) == spec_mf(old(self)@.header),
            spec_frag_offset(final(self)@.header) == spec_frag_offset(old(self)@.header),
    {
        proof {
            lemma_rf_bit(old(self)@.header[IPV4_FRAG_FLAG_OFFSET as int], rf);
            lemma_frag_offset_kept(
                old(self)@.header,
                merge_bits(old(self)@.header[IPV4_FRAG_FLAG_OFFSET as int], 0x80, rf << 7),
            );
        }
        self.fields.header.write_bits(IPV4_FRAG_FLAG_OFFSET, 0x80, rf << 7);
    }

    /// Sets the reserved flag and hands the datagram back for further changes.
    pub fn with_rf(&mut self, rf: u8) -> (r: &mut Self)
        requires
            old(self)@.wf(),
        ensures
            r@ == old(self)@.with_header(with_rf(old(self)@.header, rf)),
            r@.wf(),
            *final(self) == *final(r),
    {
        self.set_rf(rf);
        self
    }

    /// The flag that forbids fragmentation.
    pub fn df(&self) -> (v: bool)
        requires
            self@.wf(),
        ensures
            v == spec_df(self@.header),
    {
        let b: u8 = self.fields.header.get(IPV4_FRAG_FLAG_OFFSET);
        b & 0x40 != 0
    }

    /// Sets the flag that forbids fragmentation. Only this bit changes; of
    /// `df`, only the lowest bit counts.
    pub fn set_df(&mut self, df: u8)
        requires
            old(self)@.wf(),
        ensures
            final(self)@ == old(self)@.with_header(with_df(old(self)@.header, df)),
            final(self)@.wf(),
            final(self).owns_header(),
            spec_df(final(self)@.header) == (df & 1 == 1),
            spec_rf(final(self)@.header) == spec_rf(old(self)@.header),
            spec_mf(final(self)@.header) == spec_mf(old(self)@.header),
            spec_frag_offset(final(self)@.header) == spec_frag_offset(old(self)@.header),
    {
        proof {
            lemma_df_bit(old(self)@.header[IPV4_FRAG_FLAG_OFFSET as int], df);
            lemma_frag_offset_kept(
                old(self)@.header,
                merge_bits(old(self)@.header[IPV4_FRAG_FLAG_OFFSET as int], 0x40, df << 6),
            );
        }
        self.fields.header.write_bits(IPV4_FRAG_FLAG_OFFSET, 0x40, df << 6);
    }

    /// Sets the flag that forbids fragmentation and hands the datagram back for
    /// further changes.
    pub fn with_df(&mut self, df: u8) -> (r: &mut Self)
        requires
            old(self)@.wf(),
        ensures
            r@ == old(self)@.with_header(with_df(old(self)@.header, df)),
            r@.wf(),
            *final(self) == *final(r),
    {
        self.set_df(df);
        self
    }

    /// The flag that announces more fragments.
    pub fn mf(&self) -> (v: bool)
        requires
            self@.wf(),
        ensures
            v == spec_mf(self@.header),
    {
        let b: u8 = self.fields.header.get(IPV4_FRAG_FLAG_OFFSET);
        b & 0x20 != 0
    }

    /// Sets the flag that announces more fragments. Only this bit changes; of
    /// `mf`, only the lowest bit counts.
    pub fn set_mf(&mut self, mf: u8)
        requires
            old(self)@.wf(),
        ensures
            final(self)@ == old(self)@.with_header(with_mf(old(self)@.header, mf)),
            final(self)@.wf(),
            final(self).owns_header(),
            spec_mf(final(self)@.header) == (mf & 1 == 1),
            spec_rf(final(self)@.header) == spec_rf(old(self)@.header),
            spec_df(final(self)@.header) == spec_df(old(self)@.header),
            spec_frag_offset(final(self)@.header) == spec_frag_offset(old(self)@.header),
    {
        proof {
            lemma_mf_bit(old(self)@.header[IPV4_FRAG_FLAG_OFFSET as int], mf);
            lemma_frag_offset_kept(
                old(self)@.header,
                merge_bits(old(self)@.header[IPV4_FRAG_FLAG_OFFSET as int], 0x20, mf << 5),
            );
        }
        self.fields.header.write_bits(IPV4_FRAG_FLAG_OFFSET, 0x20, mf << 5);
    }

    /// Sets the flag that announces more fragments and hands the datagram back
    /// for further changes.
    pub fn with_mf(&mut self, mf: u8) -> (r: &mut Self)
        requires
            old(self)@.wf(),
        ensures
            r@ == old(self)@.with_header(with_mf(old(self)@.header, mf)),
            r@.wf(),
            *final(self) == *final(r),
    {
        self.set_mf(mf);
        self
    }

    /// The fragment offset.
    pub fn frag_offset(&self) -> (v: u16)
        requires
            self@.wf(),
        ensures
            v == spec_frag_offset(self@.header),
    {
        self.fields.header.read_u16(IPV4_FRAG_FLAG_OFFSET) & 0x1FFF
    }

    /// Sets the fragment offset. The flags stay; of `offset`, only the low
    /// thirteen bits count.
    pub fn set_frag_offset(&mut self, offset: u16)
        requires
            old(self)@.wf(),
        ensures
            final(self)@ == old(self)@.with_header(with_frag_offset(old(self)@.header, offset)),
            final(self)@.wf(),
            final(self).owns_header(),
            spec_frag_offset(final(self)@.header) == offset & 0x1FFF,
            spec_flags(final(self)@.header) == spec_flags(old(self)@.header),
            spec_rf(final(self)@.header) == spec_rf(old(self)@.header),
            spec_df(final(self)@.header) == spec_df(old(self)@.header),
            spec_mf(final(self)@.header) == spec_mf(old(self)@.header),
    {
        let hi: u8 = (offset >> 8) as u8;
        let lo: u8 = (offset & 0xFF) as u8;
        self.fields.header.write_bits(IPV4_FRAG_FLAG_OFFSET, 0x1F, hi);
        self.fields.header.set(IPV4_FRAG_FLAG_OFFSET + 1, lo);
        proof {
            lemma_be_value_2(
                self@.header.subrange(IPV4_FRAG_FLAG_OFFSET as int, IPV4_TTL_OFFSET as int),
            );
            lemma_frag_offset_bits(old(self)@.header[IPV4_FRAG_FLAG_OFFSET as int], offset);
        }
    }

    /// Sets the fragment offset and hands the datagram back for further
    /// changes.
    pub fn with_frag_offset(&mut self, offset: u16) -> (r: &mut Self)
        requires
            old(self)@.wf(),
        ensures
            r@ == old(self)@.with_header(with_frag_offset(old(self)@.header, offset)),
            r@.wf(),
            *final(self) == *final(r),
    {
        self.set_frag_offset(offset);
        self
    }

    /// The time to live.
    pub fn ttl(&self) -> (v: u8)
        requires
            self@.wf(),
        ensures
            v == self@.header[IPV4_TTL_OFFSET as int],
    {
        self.fields.header.get(IPV4_TTL_OFFSET)
    }

    /// Sets the time to live.
    pub fn set_ttl(&mut self, ttl: u8)
        requires
            old(self)@.wf(),
        ensures
            final(self)@ == old(self)@.with_header(
                old(self)@.header.update(IPV4_TTL_OFFSET as int, ttl),
            ),
            final(self)@.wf(),
            final(self).owns_header(),
            final(self)@.header[IPV4_TTL_OFFSET as int] == ttl,
    {
        self.fields.header.set(IPV4_TTL_OFFSET, ttl);
    }

    /// Sets the time to live and hands the datagram back for further changes.
    pub fn with_ttl(&mut self, ttl: u8) -> (r: &mut Self)
        requires
            old(self)@.wf(),
        ensures
            r@ == old(self)@.with_header(old(self)@.header.update(IPV4_TTL_OFFSET as int, ttl)),
            r@.wf(),
            *final(self) == *final(r),
    {
        self.set_ttl(ttl);
        self
    }

    /// The protocol number of the payload.
    pub fn protocol(&self) -> (v: u8)
        requires
            self@.wf(),
        ensures
            v == self@.header[IPV4_PROTO_OFFSET as int],
    {
        self.fields.header.get(IPV4_PROTO_OFFSET)
    }

    /// Sets the protocol number of the payload.
    pub fn set_protocol(&mut self, protocol: u8)
        requires
            old(self)@.wf(),
        ensures
            final(self)@ == old(self)@.with_header(
                old(self)@.header.update(IPV4_PROTO_OFFSET as int, protocol),
            ),
            final(self)@.wf(),
            final(self).owns_header(),
            final(self)@.header[IPV4_PROTO_OFFSET as int] == protocol,
    {
        self.fields.header.set(IPV4_PROTO_OFFSET, protocol);
    }

    /// Sets the protocol number of the payload and hands the datagram back for
    /// further changes.
    pub fn with_protocol(&mut self, protocol: u8) -> (r: &mut Self)
        requires
            old(self)@.wf(),
        ensures
            r@ == old(self)@.with_header(
                old(self)@.header.update(IPV4_PROTO_OFFSET as int, protocol),
            ),
            r@.wf(),
            *final(self) == *final(r),
    {
        self.set_protocol(protocol);
        self
    }

    /// The header checksum.
    pub fn checksum(&self) -> (v: u16)
        requires
            self@.wf(),
        ensures
            v == field_u16(self@.header, IPV4_CHECKSUM_OFFSET as int),
    {
        self.fields.header.read_u16(IPV4_CHECKSUM_OFFSET)
    }

    /// Sets the header checksum.
    pub fn set_checksum(&mut self, checksum: u16)
        requires
            old(self)@.wf(),
        ensures
            final(self)@ == old(self)@.with_header(
                splice(old(self)@.header, IPV4_CHECKSUM_OFFSET as int, be_bytes_u16(checksum)),
            ),
            final(self)@.wf(),
            final(self).owns_header(),
            field_u16(final(self)@.header, IPV4_CHECKSUM_OFFSET as int) == checksum,
    {
        self.fields.header.write_u16(IPV4_CHECKSUM_OFFSET, checksum);
        proof {
            lemma_field_u16_written(old(self)@.header, IPV4_CHECKSUM_OFFSET as int, checksum);
        }
    }

    /// Sets the header checksum and hands the datagram back for further
    /// changes.
    pub fn with_checksum(&mut self, checksum: u16) -> (r: &mut Self)
        requires
            old(self)@.wf(),
        ensures
            r@ == old(self)@.with_header(
                splice(old(self)@.header, IPV4_CHECKSUM_OFFSET as int, be_bytes_u16(checksum)),
            ),
            r@.wf(),
            *final(self) == *final(r),
    {
        self.set_checksum(checksum);
        self
    }

    /// The source address.
    pub fn src_addr(&self) -> (v: Ipv4Address)
        requires
            self@.wf(),
        ensures
            v.0 == field_u32(self@.header, IPV4_SRC_ADDR_OFFSET as int),
    {
        Ipv4Address::from_bits(self.fields.header.read_u32(IPV4_SRC_ADDR_OFFSET))
    }

    /// Sets the source address.
    pub fn set_src_addr(&mut self, src_addr: Ipv4Address)
        requires
            old(self)@.wf(),
        ensures
            final(self)@ == old(self)@.with_header(
                splice(old(self)@.header, IPV4_SRC_ADDR_OFFSET as int, be_bytes_u32(src_addr.0)),
            ),
            final(self)@.wf(),
            final(self).owns_header(),
            field_u32(final(self)@.header, IPV4_SRC_ADDR_OFFSET as int) == src_addr.0,
    {
        self.fields.header.write_u32(IPV4_SRC_ADDR_OFFSET, src_addr.to_bits());
        proof {
            lemma_field_u32_written(old(self)@.header, IPV4_SRC_ADDR_OFFSET as int, src_addr.0);
        }
    }

    /// Sets the source address and hands the datagram back for further changes.
    pub fn with_src_addr(&mut self, src_addr: Ipv4Address) -> (r: &mut Self)
        requires
            old(self)@.wf(),
        ensures
            r@ == old(self)@.with_header(
                splice(old(self)@.header, IPV4_SRC_ADDR_OFFSET as int, be_bytes_u32(src_addr.0)),
            ),
            r@.wf(),
            *final(self) == *final(r),
    {
        self.set_src_addr(src_addr);
        self
    }

    /// The destination address.
    pub fn dst_addr(&self) -> (v: Ipv4Address)
        requires
            self@.wf(),
        ensures
            v.0 == field_u32(self@.header, IPV4_DST_ADDR_OFFSET as int),
    {
        Ipv4Address::from_bits(self.fields.header.read_u32(IPV4_DST_ADDR_OFFSET))
    }

    /// Sets the destination address.
    pub fn set_dst_addr(&mut self, dst_addr: Ipv4Address)
        requires
            old(self)@.wf(),
        ensures
            final(self)@ == old(self)@.with_header(
                splice(old(self)@.header, IPV4_DST_ADDR_OFFSET as int, be_bytes_u32(dst_addr.0)),
            ),
            final(self)@.wf(),
            final(self).owns_header(),
            field_u32(final(self)@.header, IPV4_DST_ADDR_OFFSET as int) == dst_addr.0,
    {
        self.fields.header.write_u32(IPV4_DST_ADDR_OFFSET, dst_addr.to_bits());
        proof {
            lemma_field_u32_written(old(self)@.header, IPV4_DST_ADDR_OFFSET as int, dst_addr.0);
        }
    }

    /// Sets the destination address and hands the datagram back for further
    /// changes.
    pub fn with_dst_addr(&mut self, dst_addr: Ipv4Address) -> (r: &mut Self)
        requires
            old(self)@.wf(),
        ensures
            r@ == old(self)@.with_header(
                splice(old(self)@.header, IPV4_DST_ADDR_OFFSET as int, be_bytes_u32(dst_addr.0)),
            ),
            r@.wf(),
            *final(self) == *final(r),
    {
        self.set_dst_addr(dst_addr);
        self
    }

    /// The bytes that the datagram carries.
    pub fn payload(&self) -> (d: &[u8])
        ensures
            d@ == self@.data,
    {
        self.fields.data.as_slice()
    }

    /// Replaces the bytes that the datagram carries by a copy of `payload`.
    pub fn set_payload(&mut self, payload: &[u8])
        ensures
            final(self)@ == old(self)@.with_data(payload@),
            final(self).owns_payload(),
    {
        self.fields.data = ByteView::borrowed(payload).to_owned();
    }

    /// Replaces the bytes that the datagram carries and hands the datagram back
    /// for further changes.
    pub fn with_payload(&mut self, payload: &[u8]) -> (r: &mut Self)
        ensures
            r@ == old(self)@.with_data(payload@),
            *final(self) == *final(r),
    {
        self.set_payload(payload);
        self
    }
}

/// What an IPv4 datagram with the header `header` projects to, where `data`
/// stands for what it carries.
pub open spec fn spec_ip_json(header: Seq<u8>, data: Doc) -> Doc {
    named(
        "ip"@,
        Seq::empty()
            .push(("ip.version"@, doc_u8(spec_version(header))))
            .push(("ip.ihl"@, doc_u8(spec_ihl(header))))
            .push(("ip.tos"@, doc_u8(header[IPV4_TOS_OFFSET as int])))
            .push(("ip.total_len"@, doc_u16(field_u16(header, IPV4_TOTAL_LEN_OFFSET as int))))
            .push(("ip.id"@, doc_u16(field_u16(header, IPV4_ID_OFFSET as int))))
            .push(("ip.flags"@, doc_u8(spec_flags(header))))
            .push(("ip.frag_offset"@, doc_u16(spec_frag_offset(header))))
            .push(("ip.ttl"@, doc_u8(header[IPV4_TTL_OFFSET as int])))
            .push(("ip.protocol"@, doc_u8(header[IPV4_PROTO_OFFSET as int])))
            .push(("ip.checksum"@, doc_u16(field_u16(header, IPV4_CHECKSUM_OFFSET as int))))
            .push(
                (
                    "ip.src_addr"@,
                    Doc::Text(ipv4_text(field_u32(header, IPV4_SRC_ADDR_OFFSET as int))),
                ),
            )
            .push(
                (
                    "ip.dst_addr"@,
                    Doc::Text(ipv4_text(field_u32(header, IPV4_DST_ADDR_OFFSET as int))),
                ),
            )
            .push(("ip.data"@, data)),
    )
}

impl<'a> Ip<'a> {
    /// Projects the fields of the header to a document, with `data` as the
    /// member that stands for what the node carries.
    pub fn fields_to_json(&self, data: Value) -> (v: Value)
        requires
            self@.wf(),
        ensures
            v@ == spec_ip_json(self@.header, data@),
    {
        let mut inner = Value::object();
        inner.insert("ip.version", Value::from_u8(self.version()));
        inner.insert("ip.ihl", Value::from_u8(self.ihl()));
        inner.insert("ip.tos", Value::from_u8(self.tos()));
        inner.insert("ip.total_len", Value::from_u16(self.total_len()));
        inner.insert("ip.id", Value::from_u16(self.id()));
        inner.insert("ip.flags", Value::from_u8(self.flags()));
        inner.insert("ip.frag_offset", Value::from_u16(self.frag_offset()));
        inner.insert("ip.ttl", Value::from_u8(self.ttl()));
        inner.insert("ip.protocol", Value::from_u8(self.protocol()));
        inner.insert("ip.checksum", Value::from_u16(self.checksum()));
        inner.insert("ip.src_addr", Value::text(self.src_addr().to_str()));
        inner.insert("ip.dst_addr", Value::text(self.dst_addr().to_str()));
        inner.insert("ip.data", data);
        Value::wrap("ip", inner)
    }
}

impl<'a> Pdu<'a> for Ip<'a> {
    proof fn lemma_view_tag(&self) {
    }

    fn from_bytes(bytes: &'a [u8], tables: &DissectionTables) -> (r: PduResult<'a>) {
        decode(TypeTag::Ip, bytes, tables)
    }

    fn to_owned(&self) -> (r: Node<'static>) {
        Node::Ip(Ip { fields: self.fields.detach() })
    }

    fn to_bytes(&self) -> (r: Vec<u8>) {
        self.fields.encode()
    }

    fn to_json(&self) -> (v: Value) {
        self.fields_to_json(self.fields.data_to_json())
    }

    fn child_to_json(&self) -> (v: Value) {
        self.fields.data_to_json()
    }

    fn set_parent(&mut self, parent: Option<TypeTag>) {
        self.fields.parent = parent;
    }

    fn set_child(&mut self, child: Pob<'a>) {
        self.fields.child = child;
    }

    fn parent_pdu(&self) -> (p: Option<TypeTag>) {
        self.fields.parent
    }

    fn child_pdu(&self) -> (c: Option<&Node<'a>>) {
        self.fields.child_ref()
    }

    fn child_pdu_mut(&mut self) -> (c: Option<&mut Node<'a>>) {
        self.fields.child_mut()
    }

    fn into_node(self) -> (n: Node<'a>) {
        Node::Ip(self)
    }

    fn cast_ref<'b>(node: &'b Node<'a>) -> (r: Option<&'b Self>) {
        match node {
            Node::Ip(p) => Some(p),
            _ => None,
        }
    }

    fn cast_mut<'b>(node: &'b mut Node<'a>) -> (r: Option<&'b mut Self>) {
        match node {
            Node::Ip(p) => Some(p),
            _ => None,
        }
    }

    fn cast(node: Node<'a>) -> (r: Result<Self, Node<'a>>) {
        match node {
            Node::Ip(p) => Ok(p),
            other => Err(other),
        }
    }
}

} // verus!
