//! Copy-on-write views over byte buffers.

use vstd::prelude::*;
use crate::utils::{
    be_bytes_u16, be_bytes_u32, be_value, lemma_be_value_2, lemma_be_value_4, lemma_be_value_bound,
    parse_bytes, radix_pow, u16_to_be_bytes, u32_to_be_bytes, Endian,
};

verus! {

/// The 16-bit number stored in `s` from index `off` on, in network byte order.
pub open spec fn field_u16(s: Seq<u8>, off: int) -> u16 {
    be_value(s.subrange(off, off + 2)) as u16
}

/// The 32-bit number stored in `s` from index `off` on, in network byte order.
pub open spec fn field_u32(s: Seq<u8>, off: int) -> u32 {
    be_value(s.subrange(off, off + 4)) as u32
}

/// `s` with the bytes of `src` written over it from index `off` on.
pub open spec fn splice(s: Seq<u8>, off: int, src: Seq<u8>) -> Seq<u8> {
    Seq::new(
        s.len(),
        |i: int|
            if off <= i < off + src.len() {
                src[i - off]
            } else {
                s[i]
            },
    )
}

/// `old` with the bits under `mask` taken from `bits`; the other bits stay.
pub open spec fn merge_bits(old: u8, mask: u8, bits: u8) -> u8 {
    (old & !mask) | (bits & mask)
}

/// After merging, the bits under the mask are the new ones.
pub proof fn lemma_merge_bits_written(old: u8, mask: u8, bits: u8)
    by (bit_vector)
    ensures
        merge_bits(old, mask, bits) & mask == bits & mask,
{
}

/// After merging, the bits outside the mask are the old ones.
pub proof fn lemma_merge_bits_kept(old: u8, mask: u8, bits: u8, other: u8)
    by (bit_vector)
    requires
        mask & other == 0,
    ensures
        merge_bits(old, mask, bits) & other == old & other,
{
}

/// A 16-bit number written at `off` is read back from `off`.
pub proof fn lemma_field_u16_written(s: Seq<u8>, off: int, v: u16)
    requires
        0 <= off,
        off + 2 <= s.len(),
    ensures
        field_u16(splice(s, off, be_bytes_u16(v)), off) == v,
{
    let t = splice(s, off, be_bytes_u16(v));
    assert(t.subrange(off, off + 2) =~= be_bytes_u16(v));
    lemma_be_value_2(be_bytes_u16(v));
}

/// A 32-bit number written at `off` is read back from `off`.
pub proof fn lemma_field_u32_written(s: Seq<u8>, off: int, v: u32)
    requires
        0 <= off,
        off + 4 <= s.len(),
    ensures
        field_u32(splice(s, off, be_bytes_u32(v)), off) == v,
{
    let t = splice(s, off, be_bytes_u32(v));
    assert(t.subrange(off, off + 4) =~= be_bytes_u32(v));
    lemma_be_value_4(be_bytes_u32(v));
}

/// Writing `src` at `off` leaves every range that does not meet the written
/// one as it was.
pub proof fn lemma_splice_elsewhere(s: Seq<u8>, off: int, src: Seq<u8>, from: int, to: int)
    requires
        0 <= off,
        off + src.len() <= s.len(),
        0 <= from <= to <= s.len(),
        to <= off || off + src.len() <= from,
    ensures
        splice(s, off, src).subrange(from, to) == s.subrange(from, to),
{
    assert(splice(s, off, src).subrange(from, to) =~= s.subrange(from, to));
}

/// A range of bytes that is either borrowed from a capture buffer or owned.
///
/// Reading never copies. The first write through a borrowed view replaces it
/// by an owned copy, so the buffer it was borrowed from is never changed.
#[derive(Debug)]
pub enum ByteView<'a> {
    /// Bytes that live in a buffer owned by somebody else.
    Borrowed(&'a [u8]),
    /// Bytes that this view owns.
    Owned(Vec<u8>),
}

impl<'a> View for ByteView<'a> {
    type V = Seq<u8>;

    open spec fn view(&self) -> Seq<u8> {
        match self {
            ByteView::Borrowed(s) => s@,
            ByteView::Owned(v) => v@,
        }
    }
}

impl<'a> ByteView<'a> {
    /// A view that borrows `bytes`.
    pub fn borrowed(bytes: &'a [u8]) -> (r: Self)
        ensures
            r@ == bytes@,
            r is Borrowed,
    {
        ByteView::Borrowed(bytes)
    }

    /// A view that owns `bytes`.
    pub fn owned(bytes: Vec<u8>) -> (r: Self)
        ensures
            r@ == bytes@,
            r is Owned,
    {
        ByteView::Owned(bytes)
    }

    /// An owned view without bytes.
    pub fn empty() -> (r: Self)
        ensures
            r@ == Seq::<u8>::empty(),
            r is Owned,
    {
        ByteView::Owned(Vec::new())
    }

    /// An owned view of `len` zero bytes.
    pub fn zeroed(len: usize) -> (r: Self)
        ensures
            r@ == Seq::new(len as nat, |i: int| 0u8),
            r is Owned,
    {
        let mut v: Vec<u8> = Vec::new();
        let mut i: usize = 0;
        while i < len
            invariant
                i <= len,
                v@ == Seq::new(i as nat, |j: int| 0u8),
            decreases len - i,
        {
            v.push(0u8);
            i += 1;
        }
        ByteView::Owned(v)
    }

    /// The number of bytes in the view.
    pub fn len(&self) -> (n: usize)
        ensures
            n == self@.len(),
    {
        match self {
            ByteView::Borrowed(s) => s.len(),
            ByteView::Owned(v) => v.len(),
        }
    }

    /// Whether the view holds no byte.
    pub fn is_empty(&self) -> (b: bool)
        ensures
            b == (self@.len() == 0),
    {
        self.len() == 0
    }

    /// Whether the bytes still live in a buffer owned by somebody else.
    pub fn is_borrowed(&self) -> (b: bool)
        ensures
            b == (self is Borrowed),
    {
        match self {
            ByteView::Borrowed(_) => true,
            ByteView::Owned(_) => false,
        }
    }

    /// The byte at index `i`.
    pub fn get(&self, i: usize) -> (b: u8)
        requires
            i < self@.len(),
        ensures
            b == self@[i as int],
    {
        match self {
            ByteView::Borrowed(s) => s[i],
            ByteView::Owned(v) => v[i],
        }
    }

    /// All bytes of the view, without copying.
    pub fn as_slice(&self) -> (s: &[u8])
        ensures
            s@ == self@,
    {
        match self {
            ByteView::Borrowed(s) => s,
            ByteView::Owned(v) => v.as_slice(),
        }
    }

    /// The bytes from index `from` up to, not including, index `to`.
    pub fn slice(&self, from: usize, to: usize) -> (s: &[u8])
        requires
            from <= to <= self@.len(),
        ensures
            s@ == self@.subrange(from as int, to as int),
    {
        let all = self.as_slice();
        &all[from..to]
    }

    /// A fresh vector with a copy of the bytes.
    pub fn to_vec(&self) -> (v: Vec<u8>)
        ensures
            v@ == self@,
    {
        let mut v: Vec<u8> = Vec::new();
        v.extend_from_slice(self.as_slice());
        v
    }

    /// An owned view of the same bytes that borrows from nothing.
    pub fn to_owned(&self) -> (r: ByteView<'static>)
        ensures
            r@ == self@,
            r is Owned,
    {
        ByteView::Owned(self.to_vec())
    }

    /// Makes the view owned, copying the bytes if they were borrowed, and
    /// gives write access to them.
    pub fn to_mut(&mut self) -> (v: &mut Vec<u8>)
        ensures
            v@ == old(self)@,
            final(self)@ == final(v)@,
            (*final(self)) is Owned,
    {
        if let ByteView::Borrowed(s) = self {
            let mut copy: Vec<u8> = Vec::new();
            copy.extend_from_slice(s);
            *self = ByteView::Owned(copy);
        }
        match self {
            ByteView::Owned(v) => v,
            ByteView::Borrowed(_) => unreached(),
        }
    }

    /// Writes `b` at index `i`, copying the bytes first if they were borrowed.
    pub fn set(&mut self, i: usize, b: u8)
        requires
            i < old(self)@.len(),
        ensures
            final(self)@ == old(self)@.update(i as int, b),
            (*final(self)) is Owned,
    {
        let v = self.to_mut();
        v[i] = b;
    }

    /// Reads the 16-bit number stored from index `off` on, in network byte
    /// order.
    pub fn read_u16(&self, off: usize) -> (v: u16)
        requires
            off + 2 <= self@.len(),
        ensures
            v == field_u16(self@, off as int),
    {
        let _len: usize = self.len();
        let field = self.slice(off, off + 2);
        proof {
            assert(field@.take(2) =~= field@);
            lemma_be_value_bound(field@);
            reveal_with_fuel(radix_pow, 3);
        }
        parse_bytes::<u16>(field, Endian::Big)
    }

    /// Reads the 32-bit number stored from index `off` on, in network byte
    /// order.
    pub fn read_u32(&self, off: usize) -> (v: u32)
        requires
            off + 4 <= self@.len(),
        ensures
            v == field_u32(self@, off as int),
    {
        let _len: usize = self.len();
        let field = self.slice(off, off + 4);
        proof {
            assert(field@.take(4) =~= field@);
            lemma_be_value_bound(field@);
            reveal_with_fuel(radix_pow, 5);
        }
        parse_bytes::<u32>(field, Endian::Big)
    }

    /// Writes `v` from index `off` on, in network byte order.
    pub fn write_u16(&mut self, off: usize, v: u16)
        requires
            off + 2 <= old(self)@.len(),
        ensures
            final(self)@ == splice(old(self)@, off as int, be_bytes_u16(v)),
            (*final(self)) is Owned,
    {
        let bytes = u16_to_be_bytes(v);
        self.write(off, bytes.as_slice());
    }

    /// Writes `v` from index `off` on, in network byte order.
    pub fn write_u32(&mut self, off: usize, v: u32)
        requires
            off + 4 <= old(self)@.len(),
        ensures
            final(self)@ == splice(old(self)@, off as int, be_bytes_u32(v)),
            (*final(self)) is Owned,
    {
        let bytes = u32_to_be_bytes(v);
        self.write(off, bytes.as_slice());
    }

    /// Replaces the bits under `mask` of the byte at index `i` by those of
    /// `bits`, and leaves the other bits of the byte as they are.
    pub fn write_bits(&mut self, i: usize, mask: u8, bits: u8)
        requires
            i < old(self)@.len(),
        ensures
            final(self)@ == old(self)@.update(
                i as int,
                merge_bits(old(self)@[i as int], mask, bits),
            ),
            (*final(self)) is Owned,
    {
        let b: u8 = self.get(i);
        self.set(i, (b & !mask) | (bits & mask));
    }

    /// Appends the bytes of `src`, copying the view's bytes first if they were
    /// borrowed.
    pub fn append(&mut self, src: &[u8])
        ensures
            final(self)@ == old(self)@ + src@,
            (*final(self)) is Owned,
    {
        let v = self.to_mut();
        v.extend_from_slice(src);
    }

    /// Writes the bytes of `src` from index `off` on, copying the view's bytes
    /// first if they were borrowed.
    pub fn write(&mut self, off: usize, src: &[u8])
        requires
            off + src@.len() <= old(self)@.len(),
        ensures
            final(self)@ == splice(old(self)@, off as int, src@),
            (*final(self)) is Owned,
    {
        let v = self.to_mut();
        let ghost before = v@;
        let n: usize = src.len();
        let total: usize = v.len();
        let mut i: usize = 0;
        while i < n
            invariant
                i <= n,
                n == src@.len(),
                off + n <= total == before.len(),
                v@.len() == before.len(),
                forall|j: int| 0 <= j < before.len() ==> v@[j] == (if off <= j < off + i {
                    src@[j - off]
                } else {
                    before[j]
                }),
            decreases n - i,
        {
            v[off + i] = src[i];
            i += 1;
        }
        assert(v@ =~= splice(before, off as int, src@));
    }
}

} // verus!
