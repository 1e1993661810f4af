//! The call into the other virtual machine: its failures, its request, and
//! the reading of the host's answer.

use crate::codec::{byte_vec_bytes, byte_vec_of};
use crate::types::Request;
use crate::wire::{
    byte_vec_at, lemma_byte_vec_round_trip, lemma_u128_round_trip, put_byte_vec, put_u128,
    put_u8, read_byte_vec, read_u8, rest_of, u128_at, u128_bytes, u8_at,
};
use vstd::pervasive::unreached;
use vstd::prelude::*;

verus! {

/// The greatest status code that the host enumerates for a call into the
/// other virtual machine.
pub const MAX_STATUS: u32 = 6;

/// The identifier of the call: command `1` of family `1`.
pub const XVM_CALL_ID: u32 = 0x0001_0001;

/// A failure of a call into the other virtual machine.
#[derive(PartialEq, Eq, Copy, Clone, Debug, Structural)]
pub enum XvmCallError {
    /// The host knows no virtual machine of that number.
    InvalidVmId,
    /// The call would stay within the calling virtual machine.
    SameVmCallNotAllowed,
    /// The target is no address of the other virtual machine.
    InvalidTarget,
    /// The input is longer than the host takes.
    InputTooLarge,
    /// The caller may not make the call.
    BadOrigin,
    /// The called code failed.
    ExecutionFailed,
    /// The host gave a status code that it does not enumerate.
    UnknownStatusCode,
}

impl XvmCallError {
    /// The tag that stands for the variant in an encoded value: its place in
    /// the declaration.
    pub open spec fn tag_of(self) -> u8 {
        match self {
            XvmCallError::InvalidVmId => 0,
            XvmCallError::SameVmCallNotAllowed => 1,
            XvmCallError::InvalidTarget => 2,
            XvmCallError::InputTooLarge => 3,
            XvmCallError::BadOrigin => 4,
            XvmCallError::ExecutionFailed => 5,
            XvmCallError::UnknownStatusCode => 6,
        }
    }

    /// The variant that a tag stands for, if any.
    pub open spec fn of_tag(tag: u8) -> Option<XvmCallError> {
        if tag == 0 {
            Some(XvmCallError::InvalidVmId)
        } else if tag == 1 {
            Some(XvmCallError::SameVmCallNotAllowed)
        } else if tag == 2 {
            Some(XvmCallError::InvalidTarget)
        } else if tag == 3 {
            Some(XvmCallError::InputTooLarge)
        } else if tag == 4 {
            Some(XvmCallError::BadOrigin)
        } else if tag == 5 {
            Some(XvmCallError::ExecutionFailed)
        } else if tag == 6 {
            Some(XvmCallError::UnknownStatusCode)
        } else {
            None
        }
    }

    /// What a status code means: `0` is success, each code up to `MAX_STATUS`
    /// is the failure whose tag is one less, and every other code is
    /// `UnknownStatusCode`.
    pub open spec fn status_outcome(status_code: u32) -> Result<(), XvmCallError> {
        if status_code == 0 {
            Ok(())
        } else if status_code <= MAX_STATUS {
            Err(Self::of_tag((status_code - 1) as u8)->0)
        } else {
            Err(XvmCallError::UnknownStatusCode)
        }
    }

    /// The tag that stands for the variant in an encoded value.
    pub fn tag(self) -> (tag: u8)
        ensures
            tag == self.tag_of(),
    {
        match self {
            XvmCallError::InvalidVmId => 0,
            XvmCallError::SameVmCallNotAllowed => 1,
            XvmCallError::InvalidTarget => 2,
            XvmCallError::InputTooLarge => 3,
            XvmCallError::BadOrigin => 4,
            XvmCallError::ExecutionFailed => 5,
            XvmCallError::UnknownStatusCode => 6,
        }
    }

    /// The variant that a tag stands for, if any.
    pub fn from_tag(tag: u8) -> (r: Option<XvmCallError>)
        ensures
            r == Self::of_tag(tag),
            r is Some ==> r->0.tag_of() == tag,
    {
        match tag {
            0 => Some(XvmCallError::InvalidVmId),
            1 => Some(XvmCallError::SameVmCallNotAllowed),
            2 => Some(XvmCallError::InvalidTarget),
            3 => Some(XvmCallError::InputTooLarge),
            4 => Some(XvmCallError::BadOrigin),
            5 => Some(XvmCallError::ExecutionFailed),
            6 => Some(XvmCallError::UnknownStatusCode),
            _ => None,
        }
    }

    /// Reads a status code of the host.
    pub fn from_status_code(status_code: u32) -> (r: Result<(), XvmCallError>)
        ensures
            r == Self::status_outcome(status_code),
            r is Ok <==> status_code == 0,
            1 <= status_code <= MAX_STATUS ==> r is Err && r->Err_0.tag_of() + 1 == status_code,
            status_code > MAX_STATUS ==> r == Err::<(), XvmCallError>(
                XvmCallError::UnknownStatusCode,
            ),
    {
        match status_code {
            0 => Ok(()),
            1 => Err(XvmCallError::InvalidVmId),
            2 => Err(XvmCallError::SameVmCallNotAllowed),
            3 => Err(XvmCallError::InvalidTarget),
            4 => Err(XvmCallError::InputTooLarge),
            5 => Err(XvmCallError::BadOrigin),
            6 => Err(XvmCallError::ExecutionFailed),
            _ => Err(XvmCallError::UnknownStatusCode),
        }
    }
}

/// Every variant is found again from its tag.
pub proof fn lemma_tag_round_trip(error: XvmCallError)
    ensures
        XvmCallError::of_tag(error.tag_of()) == Some(error),
{
}

/// Each of the six failures that the host enumerates is the outcome of one
/// status code and of no other; `UnknownStatusCode` is the outcome of every
/// code above `MAX_STATUS` and of no code up to it.
pub proof fn lemma_status_round_trip(error: XvmCallError, status_code: u32)
    ensures
        error != XvmCallError::UnknownStatusCode ==> (XvmCallError::status_outcome(status_code)
            == Err::<(), XvmCallError>(error) <==> status_code == error.tag_of() + 1),
        XvmCallError::status_outcome(status_code) == Err::<(), XvmCallError>(
            XvmCallError::UnknownStatusCode,
        ) <==> status_code > MAX_STATUS,
{
}

/// The input of the call: the number of the virtual machine, the target and
/// the input of the called code as byte strings, and the value sent along.
pub open spec fn xvm_call_input(vm_id: u8, target: Seq<u8>, input: Seq<u8>, value: u128) -> Seq<
    u8,
> {
    seq![vm_id] + byte_vec_bytes(target) + byte_vec_bytes(input) + u128_bytes(value)
}

/// What the output of the call says, read as a result: a first byte `0` is
/// followed by the bytes that the called code returned, as a byte string; a
/// first byte `1` is followed by the tag of a failure. The outer `Option` is
/// `None` where the output is no such result.
pub open spec fn xvm_result_of(output: Seq<u8>) -> Option<Result<Seq<u8>, XvmCallError>> {
    if u8_at(output, 0) == Some(0u8) {
        match byte_vec_at(output, 1) {
            Some(bytes) => Some(Ok(bytes)),
            None => None,
        }
    } else if u8_at(output, 0) == Some(1u8) && u8_at(output, 1) is Some && XvmCallError::of_tag(
        output[1],
    ) is Some {
        Some(Err(XvmCallError::of_tag(output[1])->0))
    } else {
        None
    }
}

/// A result of the call with the returned bytes as a sequence.
pub open spec fn xvm_result_view(result: Result<Vec<u8>, XvmCallError>) -> Result<
    Seq<u8>,
    XvmCallError,
> {
    match result {
        Ok(bytes) => Ok(bytes@),
        Err(error) => Err(error),
    }
}

/// The bytes of a result of the call.
pub open spec fn xvm_result_bytes(result: Result<Seq<u8>, XvmCallError>) -> Seq<u8> {
    match result {
        Ok(bytes) => seq![0u8] + byte_vec_bytes(bytes),
        Err(error) => seq![1u8, error.tag_of()],
    }
}

/// The request of a call into the virtual machine `vm_id`. The codec takes
/// no byte string of more than `u32::MAX` bytes.
pub fn xvm_call_request(vm_id: u8, target: &[u8], input: &[u8], value: u128) -> (request: Request)
    requires
        target@.len() <= u32::MAX,
        input@.len() <= u32::MAX,
    ensures
        request.func_id == 0x0001_0001,
        request.input@ == xvm_call_input(vm_id, target@, input@, value),
{
    let mut buf: Vec<u8> = Vec::new();
    put_u8(&mut buf, vm_id);
    put_byte_vec(&mut buf, target);
    put_byte_vec(&mut buf, input);
    put_u128(&mut buf, value);
    proof {
        assert(buf@ =~= xvm_call_input(vm_id, target@, input@, value));
    }
    Request { func_id: XVM_CALL_ID, input: buf }
}

/// Reads the output of the call, or finds that it is no result: then the
/// outer `Option` is `None`. The status code is not read for this call.
pub fn try_xvm_call_reply(output: &[u8]) -> (r: Option<Result<Vec<u8>, XvmCallError>>)
    ensures
        r is Some <==> xvm_result_of(output@) is Some,
        r is Some ==> Some(xvm_result_view(r->0)) == xvm_result_of(output@),
{
    match read_u8(output, 0) {
        Ok(first) => {
            if first == 0 {
                match read_byte_vec(output, 1) {
                    Ok(bytes) => Some(Ok(bytes)),
                    Err(_) => None,
                }
            } else if first == 1 {
                match read_u8(output, 1) {
                    Ok(tag) => match XvmCallError::from_tag(tag) {
                        Some(failure) => Some(Err(failure)),
                        None => None,
                    },
                    Err(_) => None,
                }
            } else {
                None
            }
        },
        Err(_) => None,
    }
}

/// Reads the output of the call.
pub fn xvm_call_reply(output: &[u8]) -> (r: Result<Vec<u8>, XvmCallError>)
    requires
        xvm_result_of(output@) is Some,
    ensures
        Some(xvm_result_view(r)) == xvm_result_of(output@),
{
    match try_xvm_call_reply(output) {
        Some(result) => result,
        None => unreached(),
    }
}

/// Where four parts follow one another, what is left after the first is the
/// other three, and what is left after the first two is the last two.
proof fn lemma_four_parts(a: Seq<u8>, b: Seq<u8>, c: Seq<u8>, d: Seq<u8>)
    requires
        a.len() == 1,
    ensures
        (a + b + c + d)[0] == a[0],
        (a + b + c + d).len() >= 1,
        rest_of(a + b + c + d, 1) == b + (c + d),
        rest_of(a + b + c + d, 1 + b.len() as int) == c + d,
        a + b + c + d == (a + b + c) + d + Seq::<u8>::empty(),
        (a + b + c).len() == 1 + b.len() + c.len(),
{
    let all = a + b + c + d;
    assert(rest_of(all, 1) =~= b + (c + d));
    assert(rest_of(all, 1 + b.len() as int) =~= c + d);
    assert(all =~= (a + b + c) + d + Seq::<u8>::empty());
}

/// Each field of the input of the call is read again at its offset: byte
/// strings of any length up to `u32::MAX`, the empty one too.
pub proof fn lemma_xvm_call_input_round_trip(
    vm_id: u8,
    target: Seq<u8>,
    input: Seq<u8>,
    value: u128,
)
    requires
        target.len() <= u32::MAX,
        input.len() <= u32::MAX,
    ensures
        u8_at(xvm_call_input(vm_id, target, input, value), 0) == Some(vm_id),
        byte_vec_at(xvm_call_input(vm_id, target, input, value), 1) == Some(target),
        byte_vec_at(
            xvm_call_input(vm_id, target, input, value),
            1 + byte_vec_bytes(target).len() as int,
        ) == Some(input),
        u128_at(
            xvm_call_input(vm_id, target, input, value),
            1 + byte_vec_bytes(target).len() as int + byte_vec_bytes(input).len() as int,
        ) == Some(value),
{
    let t = byte_vec_bytes(target);
    let i = byte_vec_bytes(input);
    let v = u128_bytes(value);
    lemma_four_parts(seq![vm_id], t, i, v);
    lemma_byte_vec_round_trip(target, i + v);
    lemma_byte_vec_round_trip(input, v);
    lemma_u128_round_trip(seq![vm_id] + t + i, value, Seq::empty());
}

/// A result of the call that is written as the format has it is read again
/// as it was.
pub proof fn lemma_xvm_result_round_trip(result: Result<Seq<u8>, XvmCallError>)
    requires
        result is Ok ==> result->Ok_0.len() <= u32::MAX,
    ensures
        xvm_result_of(xvm_result_bytes(result)) == Some(result),
{
    let all = xvm_result_bytes(result);
    match result {
        Ok(bytes) => {
            assert(all[0] == 0u8);
            lemma_byte_vec_round_trip(bytes, Seq::empty());
            assert(rest_of(all, 1) =~= byte_vec_bytes(bytes) + Seq::<u8>::empty());
        },
        Err(error) => {
            lemma_tag_round_trip(error);
            assert(all[0] == 1u8);
            assert(all[1] == error.tag_of());
        },
    }
}

} // verus!
