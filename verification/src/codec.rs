//! Byte encodings of the values that the store holds: counters, ids and
//! names, each in its Borsh form.

use borsh::{BorshDeserialize, BorshSerialize};
use vstd::prelude::*;
use vstd::bytes::{
    lemma_auto_spec_u32_to_from_le_bytes, lemma_auto_spec_u64_to_from_le_bytes,
    spec_u32_from_le_bytes, spec_u32_to_le_bytes, spec_u64_from_le_bytes, spec_u64_to_le_bytes,
};
use vstd::utf8::{decode_utf8, encode_utf8, encode_utf8_decode_utf8, encode_utf8_valid_utf8, valid_utf8};

verus! {

/// The eight bytes of `v`, least significant first.
pub open spec fn u64_bytes(v: u64) -> Seq<u8> {
    spec_u64_to_le_bytes(v)
}

/// The integer that `bytes` encodes, if they are exactly eight.
pub open spec fn parse_u64(bytes: Seq<u8>) -> Option<u64> {
    if bytes.len() == 8 {
        Some(spec_u64_from_le_bytes(bytes))
    } else {
        None
    }
}

/// Whether a name can be encoded: its UTF-8 form must have a length that fits
/// the four-byte prefix.
pub open spec fn name_fits(name: Seq<char>) -> bool {
    encode_utf8(name).len() <= u32::MAX
}

/// The encoding of a name: the length of its UTF-8 form in four bytes, least
/// significant first, and then that form.
pub open spec fn name_bytes(name: Seq<char>) -> Seq<u8> {
    spec_u32_to_le_bytes(encode_utf8(name).len() as u32) + encode_utf8(name)
}

/// The name that `bytes` encode: the first four bytes must give the number of
/// bytes that follow, and those must be well-formed UTF-8.
pub open spec fn parse_name(bytes: Seq<u8>) -> Option<Seq<char>> {
    if bytes.len() >= 4 && spec_u32_from_le_bytes(bytes.subrange(0, 4)) == bytes.len() - 4
        && valid_utf8(bytes.subrange(4, bytes.len() as int)) {
        Some(decode_utf8(bytes.subrange(4, bytes.len() as int)))
    } else {
        None
    }
}

/// Encoding an integer and parsing the bytes gives the integer back.
pub proof fn lemma_u64_round_trip(v: u64)
    ensures
        u64_bytes(v).len() == 8,
        parse_u64(u64_bytes(v)) == Some(v),
{
    lemma_auto_spec_u64_to_from_le_bytes();
}

/// Distinct integers have distinct encodings.
pub proof fn lemma_u64_bytes_injective(a: u64, b: u64)
    requires
        u64_bytes(a) == u64_bytes(b),
    ensures
        a == b,
{
    lemma_u64_round_trip(a);
    lemma_u64_round_trip(b);
}

/// Encoding a name that fits and parsing the bytes gives the name back.
pub proof fn lemma_name_round_trip(name: Seq<char>)
    requires
        name_fits(name),
    ensures
        parse_name(name_bytes(name)) == Some(name),
{
    let payload = encode_utf8(name);
    let prefix = spec_u32_to_le_bytes(payload.len() as u32);
    let bytes = name_bytes(name);
    lemma_auto_spec_u32_to_from_le_bytes();
    assert(prefix.len() == 4);
    assert(bytes.subrange(0, 4) =~= prefix);
    assert(bytes.subrange(4, bytes.len() as int) =~= payload);
    encode_utf8_valid_utf8(name);
    encode_utf8_decode_utf8(name);
}

/// `BorshSerialize::try_to_vec` of borsh, on a `u64`. The contract claims that
/// it always succeeds and gives the eight bytes of the integer, least
/// significant first.
#[verifier::external_body]
fn borsh_u64_to_vec(v: u64) -> (r: Option<Vec<u8>>)
    ensures
        r is Some,
        r->Some_0@ == u64_bytes(v),
{
    v.try_to_vec().ok()
}

/// `BorshDeserialize::try_from_slice` of borsh, for a `u64`. The contract
/// claims that it accepts exactly the inputs of eight bytes and reads them
/// least significant first.
#[verifier::external_body]
fn borsh_u64_from_slice(bytes: &Vec<u8>) -> (r: Option<u64>)
    ensures
        r == parse_u64(bytes@),
{
    u64::try_from_slice(bytes.as_slice()).ok()
}

/// `BorshSerialize::try_to_vec` of borsh, on a `String`. The contract claims
/// that it fails exactly when the string's UTF-8 form is longer than a `u32`
/// can count, and otherwise gives that count in four bytes, least significant
/// first, followed by the UTF-8 form.
#[verifier::external_body]
fn borsh_string_to_vec(name: &String) -> (r: Option<Vec<u8>>)
    ensures
        r is Some <==> name_fits(name@),
        r is Some ==> r->Some_0@ == name_bytes(name@),
{
    name.try_to_vec().ok()
}

/// `BorshDeserialize::try_from_slice` of borsh, for a `String`. The contract
/// claims that it accepts exactly the inputs made of a four-byte count, least
/// significant first, and that many bytes of well-formed UTF-8, and gives the
/// string with those bytes.
#[verifier::external_body]
fn borsh_string_from_slice(bytes: &Vec<u8>) -> (r: Option<String>)
    ensures
        match r {
            Some(name) => parse_name(bytes@) == Some(name@),
            None => parse_name(bytes@) is None,
        },
{
    String::try_from_slice(bytes.as_slice()).ok()
}

/// The stored form of an integer.
pub fn encode_u64(v: u64) -> (r: Vec<u8>)
    ensures
        r@ == u64_bytes(v),
{
    borsh_u64_to_vec(v).unwrap()
}

/// The integer that stored bytes hold, if they hold one.
pub fn decode_u64(bytes: &Vec<u8>) -> (r: Option<u64>)
    ensures
        r == parse_u64(bytes@),
{
    borsh_u64_from_slice(bytes)
}

/// The stored form of a name, if the name is short enough to have one.
pub fn encode_name(name: &String) -> (r: Option<Vec<u8>>)
    ensures
        r is Some <==> name_fits(name@),
        r is Some ==> r->Some_0@ == name_bytes(name@),
{
    borsh_string_to_vec(name)
}

/// The name that stored bytes hold, if they hold one.
pub fn decode_name(bytes: &Vec<u8>) -> (r: Option<String>)
    ensures
        match r {
            Some(name) => parse_name(bytes@) == Some(name@),
            None => parse_name(bytes@) is None,
        },
{
    borsh_string_from_slice(bytes)
}

/// Whether two byte strings hold the same bytes.
pub fn bytes_eq(a: &Vec<u8>, b: &Vec<u8>) -> (r: bool)
    ensures
        r == (a@ == b@),
{
    if a.len() != b.len() {
        return false;
    }
    let mut i: usize = 0;
    while i < a.len()
        invariant
            a@.len() == b@.len(),
            i <= a@.len(),
            forall|j: int| 0 <= j < i ==> a@[j] == b@[j],
        decreases a@.len() - i,
    {
        if a[i] != b[i] {
            return false;
        }
        i += 1;
    }
    assert(a@ =~= b@);
    true
}

/// Appends the bytes of `src` to `dst`.
pub fn append_bytes(dst: &mut Vec<u8>, src: &Vec<u8>)
    ensures
        final(dst)@ == old(dst)@ + src@,
{
    let mut i: usize = 0;
    while i < src.len()
        invariant
            i <= src@.len(),
            dst@ == old(dst)@ + src@.take(i as int),
        decreases src@.len() - i,
    {
        dst.push(src[i]);
        assert(src@.take(i + 1) =~= src@.take(i as int).push(src@[i as int]));
        assert(dst@ =~= old(dst)@ + src@.take(i + 1));
        i += 1;
    }
    assert(src@.take(i as int) =~= src@);
}

/// A fresh copy of `src`.
pub fn copy_bytes(src: &Vec<u8>) -> (r: Vec<u8>)
    ensures
        r@ == src@,
{
    let mut r: Vec<u8> = Vec::new();
    append_bytes(&mut r, src);
    assert(r@ =~= src@);
    r
}

} // verus!
