//! Byte-order arithmetic and text rendering of raw bytes.

use vstd::prelude::*;

verus! {

/// The order in which the bytes of a multi-byte integer are stored.
#[derive(Debug, Clone, Copy, PartialEq, Eq, Structural)]
pub enum Endian {
    /// Most significant byte first (network byte order).
    Big,
    /// Least significant byte first.
    Little,
}

/// 256 raised to the power `n`.
pub open spec fn radix_pow(n: nat) -> nat
    decreases n,
{
    if n == 0 {
        1
    } else {
        256 * radix_pow((n - 1) as nat)
    }
}

/// The number that `s` stands for when its first byte is the most significant.
pub open spec fn be_value(s: Seq<u8>) -> nat
    decreases s.len(),
{
    if s.len() == 0 {
        0
    } else {
        be_value(s.drop_last()) * 256 + s.last() as nat
    }
}

/// The number that `s` stands for when its first byte is the least significant.
pub open spec fn le_value(s: Seq<u8>) -> nat
    decreases s.len(),
{
    if s.len() == 0 {
        0
    } else {
        s[0] as nat + 256 * le_value(s.drop_first())
    }
}

/// The number that `s` stands for in the given byte order.
pub open spec fn bytes_value(s: Seq<u8>, endian: Endian) -> nat {
    match endian {
        Endian::Big => be_value(s),
        Endian::Little => le_value(s),
    }
}

/// The two bytes of `v`, most significant first.
pub open spec fn be_bytes_u16(v: u16) -> Seq<u8> {
    seq![(v / 256) as u8, (v % 256) as u8]
}

/// The four bytes of `v`, most significant first.
pub open spec fn be_bytes_u32(v: u32) -> Seq<u8> {
    seq![
        (v / 0x100_0000) as u8,
        (v / 0x1_0000 % 256) as u8,
        (v / 0x100 % 256) as u8,
        (v % 256) as u8,
    ]
}

/// The character shown for byte `b`: itself if it is printable ASCII, a dot
/// otherwise.
pub open spec fn printable_char(b: u8) -> char {
    if 0x20 <= b <= 0x7E {
        b as char
    } else {
        '.'
    }
}

/// The upper-case hexadecimal digit for `n`, which is below sixteen.
pub open spec fn hex_digit(n: u8) -> char {
    if n < 10 {
        ((0x30 + n) as u8) as char
    } else {
        ((0x41 + n - 10) as u8) as char
    }
}

/// The two upper-case hexadecimal digits of `b`.
pub open spec fn hex_byte(b: u8) -> Seq<char> {
    seq![hex_digit(b / 16), hex_digit(b % 16)]
}

/// The decimal digit for `n`, which is below ten.
pub open spec fn decimal_digit(n: u8) -> char {
    ((0x30 + n) as u8) as char
}

/// The decimal digits of `b`, without leading zeros.
pub open spec fn decimal_byte(b: u8) -> Seq<char> {
    if b < 10 {
        seq![decimal_digit(b)]
    } else if b < 100 {
        seq![decimal_digit(b / 10), decimal_digit(b % 10)]
    } else {
        seq![decimal_digit(b / 100), decimal_digit(b / 10 % 10), decimal_digit(b % 10)]
    }
}

/// The texts that `render` gives for the bytes of `s`, with `sep` between
/// neighbours.
pub open spec fn joined(s: Seq<u8>, sep: char, render: spec_fn(u8) -> Seq<char>) -> Seq<char>
    decreases s.len(),
{
    if s.len() == 0 {
        Seq::empty()
    } else if s.len() == 1 {
        render(s[0])
    } else {
        joined(s.drop_last(), sep, render) + seq![sep] + render(s.last())
    }
}

/// The text shown for the bytes `s`, one character for each byte.
pub open spec fn printable_text(s: Seq<u8>) -> Seq<char> {
    s.map_values(|b: u8| printable_char(b))
}

/// Every number of `n` bytes is below 256 to the `n`.
pub proof fn lemma_be_value_bound(s: Seq<u8>)
    ensures
        be_value(s) < radix_pow(s.len()),
    decreases s.len(),
{
    if s.len() > 0 {
        lemma_be_value_bound(s.drop_last());
    }
}

/// Every number of `n` bytes is below 256 to the `n`.
pub proof fn lemma_le_value_bound(s: Seq<u8>)
    ensures
        le_value(s) < radix_pow(s.len()),
    decreases s.len(),
{
    if s.len() > 0 {
        lemma_le_value_bound(s.drop_first());
    }
}

/// A two-byte sequence read most significant byte first.
pub proof fn lemma_be_value_2(s: Seq<u8>)
    requires
        s.len() == 2,
    ensures
        be_value(s) == s[0] as nat * 256 + s[1] as nat,
{
    reveal_with_fuel(be_value, 3);
    assert(s.drop_last().drop_last().len() == 0);
}

/// A four-byte sequence read most significant byte first.
pub proof fn lemma_be_value_4(s: Seq<u8>)
    requires
        s.len() == 4,
    ensures
        be_value(s) == s[0] as nat * 0x100_0000 + s[1] as nat * 0x1_0000 + s[2] as nat * 0x100
            + s[3] as nat,
{
    reveal_with_fuel(be_value, 5);
    assert(s.drop_last().drop_last().drop_last().drop_last().len() == 0);
}

/// Reading back the big-endian bytes of a 16-bit number gives the number.
pub proof fn lemma_be_bytes_u16_value(v: u16)
    ensures
        be_value(be_bytes_u16(v)) == v,
{
    lemma_be_value_2(be_bytes_u16(v));
}

/// Reading back the big-endian bytes of a 32-bit number gives the number.
pub proof fn lemma_be_bytes_u32_value(v: u32)
    ensures
        be_value(be_bytes_u32(v)) == v,
{
    lemma_be_value_4(be_bytes_u32(v));
}

/// An unsigned machine integer that can be assembled from bytes.
pub trait Unsigned: Sized + Copy {
    /// The width of the type in bytes.
    spec fn spec_size() -> nat;

    /// The number that a value of the type holds.
    spec fn value(self) -> nat;

    /// The width of the type in bytes.
    fn size() -> (n: usize)
        ensures
            n == Self::spec_size(),
    ;

    /// The value zero.
    fn zero() -> (z: Self)
        ensures
            z.value() == 0,
    ;

    /// Moves the value up by one byte and puts `b` in the freed low byte.
    fn shift_in(self, b: u8) -> (r: Self)
        requires
            self.value() * 256 + b < radix_pow(Self::spec_size()),
        ensures
            r.value() == self.value() * 256 + b,
    ;
}

impl Unsigned for u8 {
    open spec fn spec_size() -> nat {
        1
    }

    open spec fn value(self) -> nat {
        self as nat
    }

    fn size() -> (n: usize) {
        1
    }

    fn zero() -> (z: Self) {
        0
    }

    fn shift_in(self, b: u8) -> (r: Self) {
        proof {
            reveal_with_fuel(radix_pow, 2);
        }
        b
    }
}

impl Unsigned for u16 {
    open spec fn spec_size() -> nat {
        2
    }

    open spec fn value(self) -> nat {
        self as nat
    }

    fn size() -> (n: usize) {
        2
    }

    fn zero() -> (z: Self) {
        0
    }

    fn shift_in(self, b: u8) -> (r: Self) {
        proof {
            reveal_with_fuel(radix_pow, 3);
        }
        self * 256 + b as u16
    }
}

impl Unsigned for u32 {
    open spec fn spec_size() -> nat {
        4
    }

    open spec fn value(self) -> nat {
        self as nat
    }

    fn size() -> (n: usize) {
        4
    }

    fn zero() -> (z: Self) {
        0
    }

    fn shift_in(self, b: u8) -> (r: Self) {
        proof {
            reveal_with_fuel(radix_pow, 5);
        }
        self * 256 + b as u32
    }
}

impl Unsigned for u64 {
    open spec fn spec_size() -> nat {
        8
    }

    open spec fn value(self) -> nat {
        self as nat
    }

    fn size() -> (n: usize) {
        8
    }

    fn zero() -> (z: Self) {
        0
    }

    fn shift_in(self, b: u8) -> (r: Self) {
        proof {
            reveal_with_fuel(radix_pow, 9);
        }
        self * 256 + b as u64
    }
}

impl Unsigned for u128 {
    open spec fn spec_size() -> nat {
        16
    }

    open spec fn value(self) -> nat {
        self as nat
    }

    fn size() -> (n: usize) {
        16
    }

    fn zero() -> (z: Self) {
        0
    }

    fn shift_in(self, b: u8) -> (r: Self) {
        proof {
            reveal_with_fuel(radix_pow, 17);
        }
        self * 256 + b as u128
    }
}

proof fn lemma_radix_pow_monotonic(a: nat, b: nat)
    requires
        a <= b,
    ensures
        radix_pow(a) <= radix_pow(b),
    decreases b,
{
    if a < b {
        lemma_radix_pow_monotonic(a, (b - 1) as nat);
    }
}

/// Reads an unsigned integer from the first bytes of `bytes`, as many as the
/// integer type is wide, in the given byte order.
pub fn parse_bytes<T: Unsigned>(bytes: &[u8], endian: Endian) -> (r: T)
    requires
        bytes@.len() >= T::spec_size(),
    ensures
        r.value() == bytes_value(bytes@.take(T::spec_size() as int), endian),
{
    let size: usize = T::size();
    let mut result = T::zero();
    match endian {
        Endian::Big => {
            let mut i: usize = 0;
            while i < size
                invariant
                    i <= size == T::spec_size() <= bytes@.len(),
                    result.value() == be_value(bytes@.take(i as int)),
                decreases size - i,
            {
                proof {
                    let next = bytes@.take(i + 1);
                    assert(next.drop_last() =~= bytes@.take(i as int));
                    lemma_be_value_bound(next);
                    lemma_radix_pow_monotonic((i + 1) as nat, size as nat);
                }
                result = result.shift_in(bytes[i]);
                i += 1;
            }
            result
        },
        Endian::Little => {
            let mut i: usize = size;
            while i > 0
                invariant
                    i <= size == T::spec_size() <= bytes@.len(),
                    result.value() == le_value(bytes@.subrange(i as int, size as int)),
                decreases i,
            {
                i -= 1;
                proof {
                    let next = bytes@.subrange(i as int, size as int);
                    assert(next.drop_first() =~= bytes@.subrange(i + 1, size as int));
                    lemma_le_value_bound(next);
                    lemma_radix_pow_monotonic((size - i) as nat, size as nat);
                }
                result = result.shift_in(bytes[i]);
            }
            assert(bytes@.subrange(0, size as int) =~= bytes@.take(size as int));
            result
        },
    }
}

/// The two bytes of `v` in network byte order.
pub fn u16_to_be_bytes(v: u16) -> (r: [u8; 2])
    ensures
        r@ == be_bytes_u16(v),
{
    let r: [u8; 2] = [(v / 256) as u8, (v % 256) as u8];
    assert(r@ =~= be_bytes_u16(v));
    r
}

/// The four bytes of `v` in network byte order.
pub fn u32_to_be_bytes(v: u32) -> (r: [u8; 4])
    ensures
        r@ == be_bytes_u32(v),
{
    let r: [u8; 4] = [
        (v / 0x100_0000) as u8,
        (v / 0x1_0000 % 256) as u8,
        (v / 0x100 % 256) as u8,
        (v % 256) as u8,
    ];
    assert(r@ =~= be_bytes_u32(v));
    r
}

/// Appends one character to a string.
///
/// Stands for `String::push`: the string afterwards is the string before
/// followed by `c`.
#[verifier::external_body]
pub(crate) fn push_char(s: &mut String, c: char)
    ensures
        final(s)@ == old(s)@.push(c),
{
    s.push(c)
}

/// Whether two texts are the same.
///
/// Stands for `==` on string slices, which holds exactly when both have the
/// same characters in the same order.
#[verifier::external_body]
pub(crate) fn str_eq(a: &str, b: &str) -> (r: bool)
    ensures
        r == (a@ == b@),
{
    a == b
}

/// Appends the two upper-case hexadecimal digits of `b` to `s`.
pub fn push_hex_byte(s: &mut String, b: u8)
    ensures
        final(s)@ == old(s)@ + hex_byte(b),
{
    let hi: u8 = b / 16;
    let lo: u8 = b % 16;
    let hi_char: char = if hi < 10 {
        (0x30 + hi) as char
    } else {
        (0x41 + hi - 10) as char
    };
    let lo_char: char = if lo < 10 {
        (0x30 + lo) as char
    } else {
        (0x41 + lo - 10) as char
    };
    push_char(s, hi_char);
    push_char(s, lo_char);
    assert(s@ =~= old(s)@ + hex_byte(b));
}

/// Appends the decimal digits of `b`, without leading zeros, to `s`.
pub fn push_decimal_byte(s: &mut String, b: u8)
    ensures
        final(s)@ == old(s)@ + decimal_byte(b),
{
    if b >= 100 {
        push_char(s, (0x30 + b / 100) as char);
    }
    if b >= 10 {
        push_char(s, (0x30 + b / 10 % 10) as char);
    }
    push_char(s, (0x30 + b % 10) as char);
    assert(s@ =~= old(s)@ + decimal_byte(b));
}

/// Renders bytes as text: printable ASCII stays, every other byte becomes a
/// dot.
pub fn printable_ascii(input: &[u8]) -> (s: String)
    ensures
        s@ == printable_text(input@),
{
    let mut out = String::new();
    let n: usize = input.len();
    let mut i: usize = 0;
    while i < n
        invariant
            i <= n == input@.len(),
            out@ == printable_text(input@.take(i as int)),
        decreases n - i,
    {
        let b: u8 = input[i];
        let c: char = if 0x20 <= b && b <= 0x7E {
            b as char
        } else {
            '.'
        };
        push_char(&mut out, c);
        proof {
            assert(printable_text(input@.take(i + 1)) =~= printable_text(
                input@.take(i as int),
            ).push(c));
        }
        i += 1;
    }
    assert(input@.take(n as int) =~= input@);
    out
}

} // verus!
