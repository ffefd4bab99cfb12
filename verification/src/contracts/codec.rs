//! The byte format of contract inputs and storage records.
//!
//! Integers are little-endian and of fixed width, addresses and digests are
//! their bytes, and lists, byte strings and texts are preceded by their
//! length as a 64-bit integer. A record is its fields one after the other,
//! and a tagged value is a 32-bit tag followed by the fields of its variant.
//! Reading takes a value off the front of a byte string and leaves the rest.

use vstd::prelude::*;
use vstd::string::*;

use crate::encoding::{push_bytes, push_u128_le, push_u64_le};
use crate::types::address::Address;
use crate::types::amount::HclawAmount;

verus! {

/// The first `count` bytes and the rest, where there are that many.
pub open spec fn split_at(bytes: Seq<u8>, count: nat) -> Option<(Seq<u8>, Seq<u8>)> {
    if bytes.len() >= count {
        Some((bytes.subrange(0, count as int), bytes.subrange(count as int, bytes.len() as int)))
    } else {
        None
    }
}

/// A byte read off the front.
pub open spec fn read_u8(bytes: Seq<u8>) -> Option<(u8, Seq<u8>)> {
    match split_at(bytes, 1) {
        Some((head, rest)) => Some((head[0], rest)),
        None => None,
    }
}

/// A 32-bit integer read off the front.
pub open spec fn read_u32(bytes: Seq<u8>) -> Option<(u32, Seq<u8>)> {
    match split_at(bytes, 4) {
        Some((head, rest)) => Some((vstd::bytes::spec_u32_from_le_bytes(head), rest)),
        None => None,
    }
}

/// A 64-bit integer read off the front.
pub open spec fn read_u64(bytes: Seq<u8>) -> Option<(u64, Seq<u8>)> {
    match split_at(bytes, 8) {
        Some((head, rest)) => Some((vstd::bytes::spec_u64_from_le_bytes(head), rest)),
        None => None,
    }
}

/// A 128-bit integer read off the front.
pub open spec fn read_u128(bytes: Seq<u8>) -> Option<(u128, Seq<u8>)> {
    match split_at(bytes, 16) {
        Some((head, rest)) => Some((vstd::bytes::spec_u128_from_le_bytes(head), rest)),
        None => None,
    }
}

/// An amount read off the front.
pub open spec fn read_amount(bytes: Seq<u8>) -> Option<(HclawAmount, Seq<u8>)> {
    match read_u128(bytes) {
        Some((raw, rest)) => Some((HclawAmount(raw), rest)),
        None => None,
    }
}

/// The twenty bytes of an address read off the front.
pub open spec fn read_address(bytes: Seq<u8>) -> Option<(Seq<u8>, Seq<u8>)> {
    split_at(bytes, 20)
}

/// The thirty-two bytes of a digest read off the front.
pub open spec fn read_digest(bytes: Seq<u8>) -> Option<(Seq<u8>, Seq<u8>)> {
    split_at(bytes, 32)
}

/// A byte string with its length in front, read off the front.
pub open spec fn read_blob(bytes: Seq<u8>) -> Option<(Seq<u8>, Seq<u8>)> {
    match read_u64(bytes) {
        Some((len, rest)) => split_at(rest, len as nat),
        None => None,
    }
}

/// `count` addresses read off the front.
pub open spec fn read_addresses(bytes: Seq<u8>, count: nat) -> Option<(Seq<Seq<u8>>, Seq<u8>)>
    decreases count,
{
    if count == 0 {
        Some((Seq::empty(), bytes))
    } else {
        match read_addresses(bytes, (count - 1) as nat) {
            Some((list, rest)) => match read_address(rest) {
                Some((address, after)) => Some((list.push(address), after)),
                None => None,
            },
            None => None,
        }
    }
}

/// A list of addresses with its length in front, read off the front.
pub open spec fn read_address_list(bytes: Seq<u8>) -> Option<(Seq<Seq<u8>>, Seq<u8>)> {
    match read_u64(bytes) {
        Some((len, rest)) => read_addresses(rest, len as nat),
        None => None,
    }
}

/// The bytes of a list of addresses with its length in front.
pub open spec fn address_list_bytes(list: Seq<Address>) -> Seq<u8> {
    vstd::bytes::spec_u64_to_le_bytes(list.len() as u64) + crate::encoding::address_bytes(list)
}

/// The byte strings of a list of addresses.
pub open spec fn address_views(list: Seq<Address>) -> Seq<Seq<u8>> {
    list.map_values(|a: Address| a.0@)
}

/// Splitting what was joined gives the parts back.
pub proof fn lemma_split_joined(head: Seq<u8>, tail: Seq<u8>)
    ensures
        split_at(head + tail, head.len()) == Some((head, tail)),
{
    let all = head + tail;
    assert(all.subrange(0, head.len() as int) =~= head);
    assert(all.subrange(head.len() as int, all.len() as int) =~= tail);
}

/// A 32-bit integer is read back from its bytes.
pub proof fn lemma_read_u32(value: u32, tail: Seq<u8>)
    ensures
        read_u32(vstd::bytes::spec_u32_to_le_bytes(value) + tail) == Some((value, tail)),
{
    vstd::bytes::lemma_auto_spec_u32_to_from_le_bytes();
    lemma_split_joined(vstd::bytes::spec_u32_to_le_bytes(value), tail);
}

/// A 64-bit integer is read back from its bytes.
pub proof fn lemma_read_u64(value: u64, tail: Seq<u8>)
    ensures
        read_u64(vstd::bytes::spec_u64_to_le_bytes(value) + tail) == Some((value, tail)),
{
    vstd::bytes::lemma_auto_spec_u64_to_from_le_bytes();
    lemma_split_joined(vstd::bytes::spec_u64_to_le_bytes(value), tail);
}

/// A 128-bit integer is read back from its bytes.
pub proof fn lemma_read_u128(value: u128, tail: Seq<u8>)
    ensures
        read_u128(vstd::bytes::spec_u128_to_le_bytes(value) + tail) == Some((value, tail)),
{
    vstd::bytes::lemma_auto_spec_u128_to_from_le_bytes();
    lemma_split_joined(vstd::bytes::spec_u128_to_le_bytes(value), tail);
}

/// An address is read back from its bytes.
pub proof fn lemma_read_address(address: Address, tail: Seq<u8>)
    ensures
        read_address(address.0@ + tail) == Some((address.0@, tail)),
{
    lemma_split_joined(address.0@, tail);
}

/// A list of addresses is read back from its bytes.
pub proof fn lemma_read_addresses(list: Seq<Address>, tail: Seq<u8>)
    ensures
        read_addresses(crate::encoding::address_bytes(list) + tail, list.len()) == Some(
            (address_views(list), tail),
        ),
    decreases list.len(),
{
    if list.len() == 0 {
        assert(crate::encoding::address_bytes(list) + tail =~= tail);
        assert(address_views(list) =~= Seq::<Seq<u8>>::empty());
    } else {
        let front = list.drop_last();
        let last = list.last();
        let all = crate::encoding::address_bytes(list) + tail;
        assert(all =~= crate::encoding::address_bytes(front) + (last.0@ + tail));
        lemma_read_addresses(front, last.0@ + tail);
        lemma_read_address(last, tail);
        assert(address_views(list) =~= address_views(front).push(last.0@));
    }
}

/// A text with the length of its UTF-8 bytes in front, read off the front.
/// Bytes that are not UTF-8 are no text.
pub open spec fn read_text(bytes: Seq<u8>) -> Option<(Seq<char>, Seq<u8>)> {
    match read_blob(bytes) {
        Some((blob, rest)) => if vstd::utf8::valid_utf8(blob) {
            Some((vstd::utf8::decode_utf8(blob), rest))
        } else {
            None
        },
        None => None,
    }
}

/// The bytes of a byte string with its length in front.
pub open spec fn blob_bytes(blob: Seq<u8>) -> Seq<u8> {
    vstd::bytes::spec_u64_to_le_bytes(blob.len() as u64) + blob
}

/// The bytes of a text with the length of its UTF-8 bytes in front.
pub open spec fn text_field_bytes(text: Seq<char>) -> Seq<u8> {
    blob_bytes(vstd::utf8::encode_utf8(text))
}

/// A byte string is read back from its bytes with the length in front.
pub proof fn lemma_read_blob(blob: Seq<u8>, tail: Seq<u8>)
    requires
        blob.len() <= u64::MAX,
    ensures
        read_blob(blob_bytes(blob) + tail) == Some((blob, tail)),
{
    let counted = blob + tail;
    assert(blob_bytes(blob) + tail =~= vstd::bytes::spec_u64_to_le_bytes(blob.len() as u64)
        + counted);
    lemma_read_u64(blob.len() as u64, counted);
    lemma_split_joined(blob, tail);
}

/// A text is read back from its bytes with the length in front.
pub proof fn lemma_read_text(text: Seq<char>, tail: Seq<u8>)
    requires
        vstd::utf8::encode_utf8(text).len() <= u64::MAX,
    ensures
        read_text(text_field_bytes(text) + tail) == Some((text, tail)),
{
    lemma_read_blob(vstd::utf8::encode_utf8(text), tail);
    vstd::utf8::encode_utf8_valid_utf8(text);
    vstd::utf8::encode_utf8_decode_utf8(text);
}

/// Five byte strings and a sixth, joined from the left, are the same
/// joined from the right.
pub proof fn lemma_joined_five(
    a: Seq<u8>,
    b: Seq<u8>,
    c: Seq<u8>,
    d: Seq<u8>,
    e: Seq<u8>,
    rest: Seq<u8>,
)
    ensures
        a + b + c + d + e + rest == a + (b + (c + (d + (e + rest)))),
{
    assert(a + b + c + d + e + rest =~= a + (b + (c + (d + (e + rest)))));
}

/// Six byte strings and a seventh, joined from the left, are the same
/// joined from the right.
pub proof fn lemma_joined_six(
    a: Seq<u8>,
    b: Seq<u8>,
    c: Seq<u8>,
    d: Seq<u8>,
    e: Seq<u8>,
    f: Seq<u8>,
    rest: Seq<u8>,
)
    ensures
        a + b + c + d + e + f + rest == a + (b + (c + (d + (e + (f + rest))))),
{
    assert(a + b + c + d + e + f + rest =~= a + (b + (c + (d + (e + (f + rest))))));
}

/// Calls `String::from_utf8`, which succeeds exactly on valid UTF-8 and then
/// holds the decoded text; the error is dropped.
#[verifier::external_body]
fn text_from_utf8(bytes: Vec<u8>) -> (r: Option<String>)
    ensures
        r.is_some() == vstd::utf8::valid_utf8(bytes@),
        r matches Some(text) ==> text@ == vstd::utf8::decode_utf8(bytes@),
{
    String::from_utf8(bytes).ok()
}

/// A reader over a byte string.
pub struct Reader<'a> {
    bytes: &'a [u8],
    position: usize,
}

impl<'a> Reader<'a> {
    /// The bytes that have not been read yet.
    pub closed spec fn rest(&self) -> Seq<u8> {
        self.bytes@.subrange(self.position as int, self.bytes@.len() as int)
    }

    #[verifier::type_invariant]
    spec fn in_range(self) -> bool {
        self.position <= self.bytes@.len()
    }

    /// A reader at the front of `bytes`.
    pub fn new(bytes: &'a [u8]) -> (r: Self)
        ensures
            r.rest() == bytes@,
    {
        let r = Reader { bytes, position: 0 };
        assert(r.rest() =~= bytes@);
        r
    }

    /// The number of bytes that have not been read yet.
    pub fn remaining(&self) -> (r: usize)
        ensures
            r == self.rest().len(),
    {
        proof {
            use_type_invariant(self);
        }
        self.bytes.len() - self.position
    }

    /// Reads `count` bytes. Where fewer are left, nothing is read.
    pub fn take(&mut self, count: usize) -> (r: Option<&'a [u8]>)
        ensures
            match split_at(old(self).rest(), count as nat) {
                Some((head, rest)) => r is Some && r->Some_0@ == head && final(self).rest() == rest,
                None => r is None && final(self).rest() == old(self).rest(),
            },
    {
        proof {
            use_type_invariant(&*self);
        }
        if self.bytes.len() - self.position < count {
            return None;
        }
        let start = self.position;
        let head = vstd::slice::slice_subrange(self.bytes, start, start + count);
        self.position = start + count;
        proof {
            let rest = old(self).rest();
            assert(head@ =~= rest.subrange(0, count as int));
            assert(self.rest() =~= rest.subrange(count as int, rest.len() as int));
        }
        Some(head)
    }

    /// Reads one byte.
    pub fn u8(&mut self) -> (r: Option<u8>)
        ensures
            match read_u8(old(self).rest()) {
                Some((value, rest)) => r == Some(value) && final(self).rest() == rest,
                None => r is None && final(self).rest() == old(self).rest(),
            },
    {
        match self.take(1) {
            Some(head) => Some(head[0]),
            None => None,
        }
    }

    /// Reads a 32-bit integer.
    pub fn u32(&mut self) -> (r: Option<u32>)
        ensures
            match read_u32(old(self).rest()) {
                Some((value, rest)) => r == Some(value) && final(self).rest() == rest,
                None => r is None && final(self).rest() == old(self).rest(),
            },
    {
        match self.take(4) {
            Some(head) => Some(vstd::bytes::u32_from_le_bytes(head)),
            None => None,
        }
    }

    /// Reads a 64-bit integer.
    pub fn u64(&mut self) -> (r: Option<u64>)
        ensures
            match read_u64(old(self).rest()) {
                Some((value, rest)) => r == Some(value) && final(self).rest() == rest,
                None => r is None && final(self).rest() == old(self).rest(),
            },
    {
        match self.take(8) {
            Some(head) => Some(vstd::bytes::u64_from_le_bytes(head)),
            None => None,
        }
    }

    /// Reads a 128-bit integer.
    pub fn u128(&mut self) -> (r: Option<u128>)
        ensures
            match read_u128(old(self).rest()) {
                Some((value, rest)) => r == Some(value) && final(self).rest() == rest,
                None => r is None && final(self).rest() == old(self).rest(),
            },
    {
        match self.take(16) {
            Some(head) => Some(vstd::bytes::u128_from_le_bytes(head)),
            None => None,
        }
    }

    /// Reads an amount.
    pub fn amount(&mut self) -> (r: Option<HclawAmount>)
        ensures
            match read_amount(old(self).rest()) {
                Some((value, rest)) => r == Some(value) && final(self).rest() == rest,
                None => r is None && final(self).rest() == old(self).rest(),
            },
    {
        match self.u128() {
            Some(raw) => Some(HclawAmount(raw)),
            None => None,
        }
    }

    /// Reads an address.
    pub fn address(&mut self) -> (r: Option<Address>)
        ensures
            match read_address(old(self).rest()) {
                Some((value, rest)) => r is Some && r->Some_0.0@ == value && final(self).rest()
                    == rest,
                None => r is None && final(self).rest() == old(self).rest(),
            },
    {
        match self.take(20) {
            Some(head) => {
                let a = Address::from_prefix(head);
                assert(head@.subrange(0, 20) =~= head@);
                Some(a)
            },
            None => None,
        }
    }

    /// Reads a digest.
    pub fn digest(&mut self) -> (r: Option<crate::crypto::hash::Hash>)
        ensures
            match read_digest(old(self).rest()) {
                Some((value, rest)) => r is Some && r->Some_0.0@ == value && final(self).rest()
                    == rest,
                None => r is None && final(self).rest() == old(self).rest(),
            },
    {
        match self.take(32) {
            Some(head) => {
                let mut out = [0u8;32];
                let mut i: usize = 0;
                while i < 32
                    invariant
                        head@.len() == 32,
                        0 <= i <= 32,
                        forall|j: int| 0 <= j < i ==> out[j] == head@[j],
                    decreases 32 - i,
                {
                    out[i] = head[i];
                    i += 1;
                }
                assert(out@ =~= head@);
                Some(crate::crypto::hash::Hash(out))
            },
            None => None,
        }
    }

    /// Reads a byte string with its length in front. Where the length or the
    /// bytes are cut short, the reader may have moved.
    pub fn blob(&mut self) -> (r: Option<Vec<u8>>)
        ensures
            match read_blob(old(self).rest()) {
                Some((value, rest)) => r is Some && r->Some_0@ == value && final(self).rest()
                    == rest,
                None => r is None,
            },
    {
        let len = match self.u64() {
            Some(n) => n,
            None => {
                return None;
            },
        };
        let left = self.remaining();
        if len > left as u64 {
            return None;
        }
        match self.take(len as usize) {
            Some(head) => Some(crate::encoding::copy_bytes(head)),
            None => None,
        }
    }

    /// Reads a text with the length of its UTF-8 bytes in front. Where the
    /// text is cut short or is not UTF-8, the reader may have moved.
    pub fn text(&mut self) -> (r: Option<String>)
        ensures
            match read_text(old(self).rest()) {
                Some((value, rest)) => r is Some && r->Some_0@ == value && final(self).rest()
                    == rest,
                None => r is None,
            },
    {
        match self.blob() {
            Some(blob) => text_from_utf8(blob),
            None => None,
        }
    }

    /// Reads a list of addresses with its length in front. Where the list is
    /// cut short, the reader may have moved.
    pub fn address_list(&mut self) -> (r: Option<Vec<Address>>)
        ensures
            match read_address_list(old(self).rest()) {
                Some((value, rest)) => r is Some && address_views(r->Some_0@) == value && final(self).rest() == rest,
                None => r is None,
            },
    {
        let len = match self.u64() {
            Some(n) => n,
            None => {
                return None;
            },
        };
        let ghost start = self.rest();
        let mut out: Vec<Address> = Vec::new();
        let mut i: u64 = 0;
        assert(address_views(out@) =~= Seq::<Seq<u8>>::empty());
        while i < len
            invariant
                0 <= i <= len,
                out@.len() == i,
                read_u64(old(self).rest()) == Some((len, start)),
                read_addresses(start, i as nat) == Some((address_views(out@), self.rest())),
            decreases len - i,
        {
            match self.address() {
                Some(a) => {
                    let ghost before = address_views(out@);
                    out.push(a);
                    assert(address_views(out@) =~= before.push(a.0@));
                },
                None => {
                    proof {
                        assert(read_addresses(start, (i + 1) as nat).is_none());
                        lemma_read_addresses_fails(start, (i + 1) as nat, len as nat);
                    }
                    return None;
                },
            }
            i += 1;
        }
        Some(out)
    }
}

/// Once fewer addresses can be read than were asked for, no larger number
/// can be read either.
pub proof fn lemma_read_addresses_fails(bytes: Seq<u8>, short: nat, count: nat)
    requires
        short <= count,
        read_addresses(bytes, short).is_none(),
    ensures
        read_addresses(bytes, count).is_none(),
    decreases count,
{
    if short < count {
        lemma_read_addresses_fails(bytes, short, (count - 1) as nat);
    }
}

/// Appends a byte string, with its length in front, to `out`.
pub fn push_blob(out: &mut Vec<u8>, blob: &[u8])
    ensures
        final(out)@ == old(out)@ + blob_bytes(blob@),
{
    push_u64_le(out, blob.len() as u64);
    push_bytes(out, blob);
    assert(out@ =~= old(out)@ + blob_bytes(blob@));
}

/// Appends a text, with the length of its UTF-8 bytes in front, to `out`.
pub fn push_text_field(out: &mut Vec<u8>, text: &str)
    ensures
        final(out)@ == old(out)@ + text_field_bytes(text@),
{
    push_blob(out, text.as_bytes());
}

/// Appends an amount to `out`.
pub fn push_amount(out: &mut Vec<u8>, amount: HclawAmount)
    ensures
        final(out)@ == old(out)@ + vstd::bytes::spec_u128_to_le_bytes(amount.0),
{
    push_u128_le(out, amount.0);
}

/// Appends a list of addresses, with its length in front, to `out`.
pub fn push_address_list(out: &mut Vec<u8>, list: &[Address])
    ensures
        final(out)@ == old(out)@ + address_list_bytes(list@),
{
    push_u64_le(out, list.len() as u64);
    crate::encoding::push_addresses(out, list);
    assert(out@ =~= old(out)@ + address_list_bytes(list@));
}

} // verus!
