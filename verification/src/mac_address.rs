//! Link-layer addresses.

use vstd::prelude::*;
use crate::utils::{hex_byte, joined, push_char, push_hex_byte};

verus! {

/// The number of bytes in a MAC address.
pub const MAC_ADDR_SIZE: usize = 6;

/// A buffer does not have the length that an address needs.
#[derive(Debug, Clone, Copy, PartialEq, Eq, Structural)]
pub struct SizeMismatch;

/// A MAC address that lives in a buffer owned by somebody else.
#[derive(Debug, Clone, Copy)]
pub struct MacAddress<'a> {
    pub(crate) address: &'a [u8; 6],
}

impl<'a> View for MacAddress<'a> {
    type V = Seq<u8>;

    open(crate) spec fn view(&self) -> Seq<u8> {
        self.address@
    }
}

/// The text of an address: the hexadecimal digits of its bytes, with colons
/// between the bytes.
pub open spec fn mac_text(address: Seq<u8>) -> Seq<char> {
    joined(address, ':', |b: u8| hex_byte(b))
}

/// Views a slice of six bytes as an array of six bytes.
///
/// Stands for the conversion `TryFrom<&[u8]> for &[u8; 6]`: it succeeds
/// exactly for a slice of length six, and the array then holds the bytes of
/// the slice.
#[verifier::external_body]
fn slice_as_array<'a>(bytes: &'a [u8]) -> (r: Option<&'a [u8; 6]>)
    ensures
        r is Some <==> bytes@.len() == 6,
        r is Some ==> r->0@ == bytes@,
{
    match <&[u8; 6]>::try_from(bytes) {
        Ok(array) => Some(array),
        Err(_) => None,
    }
}

impl<'a> MacAddress<'a> {
    /// The address stored in `bytes`, which are exactly the six bytes of an
    /// address.
    pub fn from_bytes(bytes: &'a [u8]) -> (r: Self)
        requires
            bytes@.len() == MAC_ADDR_SIZE,
        ensures
            r@ == bytes@,
    {
        match slice_as_array(bytes) {
            Some(address) => MacAddress { address },
            None => unreached(),
        }
    }

    /// The address stored in `bytes`, if they are exactly six.
    pub fn try_from_bytes(bytes: &'a [u8]) -> (r: Option<Self>)
        ensures
            r is Some <==> bytes@.len() == MAC_ADDR_SIZE,
            r is Some ==> r->0@ == bytes@,
    {
        match slice_as_array(bytes) {
            Some(address) => Some(MacAddress { address }),
            None => None,
        }
    }

    /// Copies the address into `buff`, which must have room for exactly six
    /// bytes; a buffer of another length stays as it is.
    pub fn into_buff(&self, buff: &mut [u8]) -> (r: Result<(), SizeMismatch>)
        ensures
            r is Ok <==> old(buff)@.len() == MAC_ADDR_SIZE,
            r is Ok ==> final(buff)@ == self@,
            r is Err ==> final(buff)@ == old(buff)@,
    {
        if buff.len() != MAC_ADDR_SIZE {
            return Err(SizeMismatch);
        }
        let mut i: usize = 0;
        while i < MAC_ADDR_SIZE
            invariant
                i <= MAC_ADDR_SIZE,
                buff@.len() == MAC_ADDR_SIZE,
                forall|j: int| 0 <= j < i ==> buff@[j] == self@[j],
            decreases MAC_ADDR_SIZE - i,
        {
            buff[i] = self.address[i];
            i += 1;
        }
        assert(buff@ =~= self@);
        Ok(())
    }

    /// The six bytes of the address.
    pub fn to_bytes(&self) -> (r: [u8; 6])
        ensures
            r@ == self@,
    {
        *self.address
    }

    /// The address as text, such as `00:1A:2B:3C:4D:5E`.
    pub fn to_str(&self) -> (s: String)
        ensures
            s@ == mac_text(self@),
    {
        let mut out = String::new();
        let mut i: usize = 0;
        while i < MAC_ADDR_SIZE
            invariant
                i <= MAC_ADDR_SIZE,
                self@.len() == MAC_ADDR_SIZE,
                out@ == mac_text(self@.take(i as int)),
            decreases MAC_ADDR_SIZE - i,
        {
            if i != 0 {
                push_char(&mut out, ':');
            }
            push_hex_byte(&mut out, self.address[i]);
            proof {
                let next = self@.take(i + 1);
                assert(next.drop_last() =~= self@.take(i as int));
                assert(next.last() == self@[i as int]);
            }
            i += 1;
        }
        assert(self@.take(MAC_ADDR_SIZE as int) =~= self@);
        out
    }
}

} // verus!
