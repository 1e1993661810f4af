//! Reading and writing the fixed-width fields of inputs and outputs.
//!
//! A field is written by appending its bytes, and read at an offset. The
//! fields of a tuple follow one another with nothing between them.

use crate::codec::{
    byte_vec_bytes, byte_vec_of, compact_len_bytes, compact_len_of, decode_byte_vec, le_u32,
    decode_bytes20, decode_bytes32, decode_u128, decode_u8, encode_byte_vec, encode_bytes20,
    encode_bytes32, encode_u128, encode_u8,
};
use crate::types::{AccountId, H160};
use vstd::bytes::{
    lemma_auto_spec_u128_to_from_le_bytes, spec_u128_from_le_bytes, spec_u128_to_le_bytes,
};
use vstd::prelude::*;
use vstd::slice::slice_subrange;

verus! {

/// The bytes of a `u128` field.
pub open spec fn u128_bytes(value: u128) -> Seq<u8> {
    spec_u128_to_le_bytes(value)
}

/// The `n` bytes that start at `at`, where `input` holds that many.
pub open spec fn bytes_at(input: Seq<u8>, at: int, n: int) -> Option<Seq<u8>> {
    if 0 <= at && 0 <= n && at + n <= input.len() {
        Some(input.subrange(at, at + n))
    } else {
        None
    }
}

/// The byte at `at`, where `input` holds one.
pub open spec fn u8_at(input: Seq<u8>, at: int) -> Option<u8> {
    if 0 <= at < input.len() {
        Some(input[at])
    } else {
        None
    }
}

/// The `u128` field that starts at `at`, where `input` holds its sixteen
/// bytes.
pub open spec fn u128_at(input: Seq<u8>, at: int) -> Option<u128> {
    match bytes_at(input, at, 16) {
        Some(bytes) => Some(spec_u128_from_le_bytes(bytes)),
        None => None,
    }
}

/// What is left of `input` from `at` on; nothing where `at` lies behind its
/// end.
pub open spec fn rest_of(input: Seq<u8>, at: int) -> Seq<u8> {
    if 0 <= at <= input.len() {
        input.subrange(at, input.len() as int)
    } else {
        Seq::empty()
    }
}

/// The byte string that starts at `at`: a length in compact form and that
/// many bytes.
pub open spec fn byte_vec_at(input: Seq<u8>, at: int) -> Option<Seq<u8>> {
    byte_vec_of(rest_of(input, at))
}

/// What is left of `input` from `at` on; nothing where `at` lies behind its
/// end.
fn rest_from(input: &[u8], at: usize) -> (rest: &[u8])
    ensures
        rest@ == rest_of(input@, at as int),
        at <= input@.len() ==> rest@ == input@.subrange(at as int, input@.len() as int),
        at > input@.len() ==> rest@.len() == 0,
{
    let len = input.len();
    let start: usize = if at <= len {
        at
    } else {
        len
    };
    slice_subrange(input, start, len)
}

/// Appends one byte.
pub fn put_u8(buf: &mut Vec<u8>, value: u8)
    ensures
        final(buf)@ == old(buf)@ + seq![value],
{
    let mut bytes = encode_u8(value);
    buf.append(&mut bytes);
}

/// Appends a byte string: its length in compact form, then the bytes.
pub fn put_byte_vec(buf: &mut Vec<u8>, value: &[u8])
    requires
        value@.len() <= u32::MAX,
    ensures
        final(buf)@ == old(buf)@ + byte_vec_bytes(value@),
{
    let mut bytes = encode_byte_vec(value);
    buf.append(&mut bytes);
}

/// Appends a `u128` field.
pub fn put_u128(buf: &mut Vec<u8>, value: u128)
    ensures
        final(buf)@ == old(buf)@ + u128_bytes(value),
{
    let mut bytes = encode_u128(value);
    buf.append(&mut bytes);
}

/// Appends an account.
pub fn put_account(buf: &mut Vec<u8>, account: &AccountId)
    ensures
        final(buf)@ == old(buf)@ + account@,
{
    let mut bytes = encode_bytes32(&account.bytes);
    buf.append(&mut bytes);
}

/// Appends an address.
pub fn put_address(buf: &mut Vec<u8>, address: &H160)
    ensures
        final(buf)@ == old(buf)@ + address@,
{
    let mut bytes = encode_bytes20(&address.bytes);
    buf.append(&mut bytes);
}

/// Reads the byte at `at`.
pub fn read_u8(input: &[u8], at: usize) -> (r: Result<u8, parity_scale_codec::Error>)
    ensures
        r is Ok <==> u8_at(input@, at as int) is Some,
        r is Ok ==> Some(r->Ok_0) == u8_at(input@, at as int),
{
    decode_u8(rest_from(input, at))
}

/// Reads the byte string that starts at `at`.
pub fn read_byte_vec(input: &[u8], at: usize) -> (r: Result<Vec<u8>, parity_scale_codec::Error>)
    ensures
        r is Ok <==> byte_vec_at(input@, at as int) is Some,
        r is Ok ==> Some(r->Ok_0@) == byte_vec_at(input@, at as int),
{
    decode_byte_vec(rest_from(input, at))
}

/// Reads the `u128` field that starts at `at`.
pub fn read_u128(input: &[u8], at: usize) -> (r: Result<u128, parity_scale_codec::Error>)
    ensures
        r is Ok <==> u128_at(input@, at as int) is Some,
        r is Ok ==> Some(r->Ok_0) == u128_at(input@, at as int),
{
    let rest = rest_from(input, at);
    proof {
        if at + 16 <= input@.len() {
            assert(rest@.subrange(0, 16) =~= input@.subrange(at as int, at + 16));
        }
    }
    decode_u128(rest)
}

/// Reads the account that starts at `at`.
pub fn read_account(input: &[u8], at: usize) -> (r: Result<AccountId, parity_scale_codec::Error>)
    ensures
        r is Ok <==> bytes_at(input@, at as int, 32) is Some,
        r is Ok ==> Some(r->Ok_0@) == bytes_at(input@, at as int, 32),
{
    let rest = rest_from(input, at);
    proof {
        if at + 32 <= input@.len() {
            assert(rest@.subrange(0, 32) =~= input@.subrange(at as int, at + 32));
        }
    }
    match decode_bytes32(rest) {
        Ok(bytes) => Ok(AccountId { bytes }),
        Err(error) => Err(error),
    }
}

/// Reads the address that starts at `at`.
pub fn read_address(input: &[u8], at: usize) -> (r: Result<H160, parity_scale_codec::Error>)
    ensures
        r is Ok <==> bytes_at(input@, at as int, 20) is Some,
        r is Ok ==> Some(r->Ok_0@) == bytes_at(input@, at as int, 20),
{
    let rest = rest_from(input, at);
    proof {
        if at + 20 <= input@.len() {
            assert(rest@.subrange(0, 20) =~= input@.subrange(at as int, at + 20));
        }
    }
    match decode_bytes20(rest) {
        Ok(bytes) => Ok(H160 { bytes }),
        Err(error) => Err(error),
    }
}

/// A `u128` field that was written after `before` is read again at the
/// offset where it was put, whatever follows it.
pub proof fn lemma_u128_round_trip(before: Seq<u8>, value: u128, after: Seq<u8>)
    ensures
        u128_at(before + u128_bytes(value) + after, before.len() as int) == Some(value),
{
    lemma_auto_spec_u128_to_from_le_bytes();
    let all = before + u128_bytes(value) + after;
    assert(all.subrange(before.len() as int, before.len() as int + 16) =~= u128_bytes(value));
}

/// Bytes that were written after `before` are read again at the offset
/// where they were put, whatever follows them.
pub proof fn lemma_bytes_round_trip(before: Seq<u8>, bytes: Seq<u8>, after: Seq<u8>)
    ensures
        bytes_at(before + bytes + after, before.len() as int, bytes.len() as int) == Some(bytes),
{
    let all = before + bytes + after;
    assert(all.subrange(before.len() as int, before.len() as int + bytes.len() as int) =~= bytes);
}

/// A number below 2^32 is the sum of its four bytes, each at its place, and
/// its two lowest bits are those of its lowest byte.
proof fn lemma_four_bytes(x: u32)
    ensures
        x % 0x100 + 0x100 * (x / 0x100 % 0x100) + 0x1_0000 * (x / 0x1_0000 % 0x100) + 0x100_0000
            * (x / 0x100_0000) == x,
        x % 0x100 % 4 == x % 4,
        x / 0x100_0000 < 0x100,
{
    assert(x % 0x100 + 0x100 * (x / 0x100 % 0x100) + 0x1_0000 * (x / 0x1_0000 % 0x100)
        + 0x100_0000 * (x / 0x100_0000) == x) by (bit_vector);
    assert(x % 0x100 % 4 == x % 4) by (bit_vector);
    assert(x / 0x100_0000 < 0x100) by (bit_vector);
}

/// A length of at most `u32::MAX` that was written in compact form is read
/// again, with the number of bytes that it took, whatever follows it.
pub proof fn lemma_compact_len_round_trip(len: int, after: Seq<u8>)
    requires
        0 <= len <= u32::MAX,
    ensures
        compact_len_of(compact_len_bytes(len) + after) == Some(
            (len, compact_len_bytes(len).len() as int),
        ),
{
    let bytes = compact_len_bytes(len);
    let all = bytes + after;
    if len <= 0x3f {
        assert(all[0] == bytes[0]);
        assert(bytes[0] as int == 4 * len);
    } else if len <= 0x3fff {
        let x = (4 * len + 1) as u32;
        lemma_four_bytes(x);
        assert(x / 0x100 < 0x100);
        assert(x / 0x100 % 0x100 == x / 0x100);
        assert(x / 0x1_0000 == 0);
        assert(x / 0x100_0000 == 0);
        assert(all[0] == bytes[0] && all[1] == bytes[1]);
        assert(bytes[0] as int == x % 0x100);
        assert(bytes[1] as int == x / 0x100);
        assert(bytes[0] as int + 0x100 * (bytes[1] as int) == 4 * len + 1);
    } else if len <= 0x3fff_ffff {
        let x = (4 * len + 2) as u32;
        lemma_four_bytes(x);
        assert(all[0] == bytes[0] && all[1] == bytes[1] && all[2] == bytes[2] && all[3]
            == bytes[3]);
        assert(bytes[0] as int == x % 0x100);
        assert(bytes[1] as int == x / 0x100 % 0x100);
        assert(bytes[2] as int == x / 0x1_0000 % 0x100);
        assert(bytes[3] as int == x / 0x100_0000);
        assert(le_u32(all[0], all[1], all[2], all[3]) == 4 * len + 2);
    } else {
        let x = len as u32;
        lemma_four_bytes(x);
        assert(all[0] == bytes[0] && all[1] == bytes[1] && all[2] == bytes[2] && all[3]
            == bytes[3] && all[4] == bytes[4]);
        assert(bytes[1] as int == x % 0x100);
        assert(bytes[2] as int == x / 0x100 % 0x100);
        assert(bytes[3] as int == x / 0x1_0000 % 0x100);
        assert(bytes[4] as int == x / 0x100_0000);
        assert(le_u32(all[1], all[2], all[3], all[4]) == len);
    }
}

/// A byte string of at most `u32::MAX` bytes that was written is read again
/// as it was, the empty one too, whatever follows it.
pub proof fn lemma_byte_vec_round_trip(value: Seq<u8>, after: Seq<u8>)
    requires
        value.len() <= u32::MAX,
    ensures
        byte_vec_of(byte_vec_bytes(value) + after) == Some(value),
{
    let prefix = compact_len_bytes(value.len() as int);
    lemma_compact_len_round_trip(value.len() as int, value + after);
    assert(prefix + (value + after) =~= byte_vec_bytes(value) + after);
    let all = byte_vec_bytes(value) + after;
    assert(all.subrange(prefix.len() as int, prefix.len() as int + value.len() as int)
        =~= value);
}

} // verus!
