//! The binary format of inputs and outputs, as far as the codec crate is
//! called for it. Every function here hands one value to the codec or takes
//! one from it; nothing in this file is proved.

use parity_scale_codec::{Decode, Encode};
use vstd::bytes::{spec_u128_from_le_bytes, spec_u128_to_le_bytes};
use vstd::prelude::*;

verus! {

/// The codec's error type. Nothing is known of a value of it.
#[verifier::external_type_specification]
#[verifier::external_body]
pub struct ExCodecError(parity_scale_codec::Error);

/// The number that four bytes hold, least significant first.
pub open spec fn le_u32(b0: u8, b1: u8, b2: u8, b3: u8) -> int {
    b0 as int + 0x100 * (b1 as int) + 0x1_0000 * (b2 as int) + 0x100_0000 * (b3 as int)
}

/// A length in its compact form. The two lowest bits of the first byte say
/// how many bytes it takes: one for a length up to 63, two up to 16383, four
/// up to 2^30 - 1, each holding four times the length and the mode, least
/// significant byte first; beyond that the byte `3` and the length in four
/// bytes.
pub open spec fn compact_len_bytes(len: int) -> Seq<u8> {
    if len <= 0x3f {
        seq![(4 * len) as u8]
    } else if len <= 0x3fff {
        seq![((4 * len + 1) % 0x100) as u8, ((4 * len + 1) / 0x100) as u8]
    } else if len <= 0x3fff_ffff {
        seq![
            ((4 * len + 2) % 0x100) as u8,
            ((4 * len + 2) / 0x100 % 0x100) as u8,
            ((4 * len + 2) / 0x1_0000 % 0x100) as u8,
            ((4 * len + 2) / 0x100_0000) as u8,
        ]
    } else {
        seq![
            3u8,
            (len % 0x100) as u8,
            (len / 0x100 % 0x100) as u8,
            (len / 0x1_0000 % 0x100) as u8,
            (len / 0x100_0000) as u8,
        ]
    }
}

/// The length that `input` starts with and the number of bytes that the
/// length takes, or `None` where `input` does not start with a length in its
/// compact form: it is cut short, or the length would have fitted a shorter
/// form, or the first byte is `3` with a higher bit set.
pub open spec fn compact_len_of(input: Seq<u8>) -> Option<(int, int)> {
    if input.len() < 1 {
        None
    } else if input[0] % 4 == 0 {
        Some((input[0] as int / 4, 1))
    } else if input[0] % 4 == 1 {
        if input.len() >= 2 && (input[0] as int + 0x100 * (input[1] as int)) / 4 > 0x3f {
            Some(((input[0] as int + 0x100 * (input[1] as int)) / 4, 2))
        } else {
            None
        }
    } else if input[0] % 4 == 2 {
        if input.len() >= 4 && le_u32(input[0], input[1], input[2], input[3]) / 4 > 0x3fff {
            Some((le_u32(input[0], input[1], input[2], input[3]) / 4, 4))
        } else {
            None
        }
    } else {
        if input[0] == 3 && input.len() >= 5 && le_u32(input[1], input[2], input[3], input[4])
            > 0x3fff_ffff {
            Some((le_u32(input[1], input[2], input[3], input[4]), 5))
        } else {
            None
        }
    }
}

/// The bytes of a byte string: its length in compact form, then the bytes.
pub open spec fn byte_vec_bytes(value: Seq<u8>) -> Seq<u8> {
    compact_len_bytes(value.len() as int) + value
}

/// The byte string that `input` starts with: a length in compact form and
/// that many bytes after it. There is none where `input` starts with no such
/// length or holds fewer bytes after it.
pub open spec fn byte_vec_of(input: Seq<u8>) -> Option<Seq<u8>> {
    match compact_len_of(input) {
        Some((len, width)) => if width + len <= input.len() {
            Some(input.subrange(width, width + len))
        } else {
            None
        },
        None => None,
    }
}

/// `Encode::encode` on a `u8`: the byte itself.
#[verifier::external_body]
pub(crate) fn encode_u8(value: u8) -> (out: Vec<u8>)
    ensures
        out@ == seq![value],
{
    value.encode()
}

/// `Encode::encode` on a `[u8]`: the length in compact form, then the bytes.
/// The codec gives up on a slice of more than `u32::MAX` bytes.
#[verifier::external_body]
pub(crate) fn encode_byte_vec(value: &[u8]) -> (out: Vec<u8>)
    requires
        value@.len() <= u32::MAX,
    ensures
        out@ == byte_vec_bytes(value@),
{
    value.encode()
}

/// `Encode::encode` on a `u128`: its sixteen bytes, least significant first.
#[verifier::external_body]
pub(crate) fn encode_u128(value: u128) -> (out: Vec<u8>)
    ensures
        out@ == spec_u128_to_le_bytes(value),
        out@.len() == 16,
{
    value.encode()
}

/// `Encode::encode` on a `[u8; 32]`: the bytes themselves, with no length
/// before them.
#[verifier::external_body]
pub(crate) fn encode_bytes32(value: &[u8; 32]) -> (out: Vec<u8>)
    ensures
        out@ == value@,
{
    value.encode()
}

/// `Encode::encode` on a `[u8; 20]`: the bytes themselves, with no length
/// before them.
#[verifier::external_body]
pub(crate) fn encode_bytes20(value: &[u8; 20]) -> (out: Vec<u8>)
    ensures
        out@ == value@,
{
    value.encode()
}

/// `Decode::decode` for `u128` on a byte slice: it fails where fewer than
/// sixteen bytes are there, and else reads the first sixteen, least
/// significant first. What follows them is not looked at.
#[verifier::external_body]
pub(crate) fn decode_u128(input: &[u8]) -> (r: Result<u128, parity_scale_codec::Error>)
    ensures
        r is Ok <==> input@.len() >= 16,
        r is Ok ==> r->Ok_0 == spec_u128_from_le_bytes(input@.subrange(0, 16)),
{
    let mut rest: &[u8] = input;
    u128::decode(&mut rest)
}

/// `Decode::decode` for `u8` on a byte slice: it fails on an empty slice, and
/// else gives the first byte.
#[verifier::external_body]
pub(crate) fn decode_u8(input: &[u8]) -> (r: Result<u8, parity_scale_codec::Error>)
    ensures
        r is Ok <==> input@.len() >= 1,
        r is Ok ==> r->Ok_0 == input@[0],
{
    let mut rest: &[u8] = input;
    u8::decode(&mut rest)
}

/// `Decode::decode` for `[u8; 32]` on a byte slice: it fails where fewer than
/// thirty-two bytes are there, and else gives the first thirty-two.
#[verifier::external_body]
pub(crate) fn decode_bytes32(input: &[u8]) -> (r: Result<[u8; 32], parity_scale_codec::Error>)
    ensures
        r is Ok <==> input@.len() >= 32,
        r is Ok ==> r->Ok_0@ == input@.subrange(0, 32),
{
    let mut rest: &[u8] = input;
    <[u8; 32]>::decode(&mut rest)
}

/// `Decode::decode` for `[u8; 20]` on a byte slice: it fails where fewer than
/// twenty bytes are there, and else gives the first twenty.
#[verifier::external_body]
pub(crate) fn decode_bytes20(input: &[u8]) -> (r: Result<[u8; 20], parity_scale_codec::Error>)
    ensures
        r is Ok <==> input@.len() >= 20,
        r is Ok ==> r->Ok_0@ == input@.subrange(0, 20),
{
    let mut rest: &[u8] = input;
    <[u8; 20]>::decode(&mut rest)
}

/// `Decode::decode` for `Vec<u8>` on a byte slice: it reads a length in
/// compact form and then that many bytes, and fails where the length is not
/// in its shortest form or fewer bytes are left than it says. What follows
/// the bytes is not looked at.
#[verifier::external_body]
pub(crate) fn decode_byte_vec(input: &[u8]) -> (r: Result<Vec<u8>, parity_scale_codec::Error>)
    ensures
        r is Ok <==> byte_vec_of(input@) is Some,
        r is Ok ==> byte_vec_of(input@) == Some(r->Ok_0@),
{
    let mut rest: &[u8] = input;
    Vec::<u8>::decode(&mut rest)
}

} // verus!
