//! The family that maps native accounts and addresses of the other virtual
//! machine onto one another: its commands, the request of each lookup, and
//! the reading of the host's answers.

use crate::environment::{value_at, Environment, HostValue};
use crate::func_id::{encode_id, func_id_of};
use crate::types::{Request, UnifiedAddress, H160};
use crate::wire::{read_u8, u8_at};
use core::marker::PhantomData;
use vstd::pervasive::unreached;
use vstd::prelude::*;

verus! {

/// The family number under which the host offers the lookups.
pub const UNIFIED_ACCOUNTS_FAMILY: u16 = 3;

/// A lookup of the family.
#[derive(PartialEq, Eq, Copy, Clone, Debug, Structural)]
pub enum Command {
    /// The address mapped to an account, if any.
    GetEvmAddress,
    /// The address mapped to an account, or else the one derived from it.
    GetEvmAddressOrDefault,
    /// The account mapped to an address, if any.
    GetNativeAddress,
    /// The account mapped to an address, or else the one derived from it.
    GetNativeAddressOrDefault,
}

impl Command {
    /// The code of the command within its family. A code is never given to
    /// another command.
    pub open spec fn code_of(self) -> u16 {
        match self {
            Command::GetEvmAddress => 0,
            Command::GetEvmAddressOrDefault => 1,
            Command::GetNativeAddress => 2,
            Command::GetNativeAddressOrDefault => 3,
        }
    }

    /// The code of the command within its family.
    pub fn code(self) -> (code: u16)
        ensures
            code == self.code_of(),
    {
        match self {
            Command::GetEvmAddress => 0,
            Command::GetEvmAddressOrDefault => 1,
            Command::GetNativeAddress => 2,
            Command::GetNativeAddressOrDefault => 3,
        }
    }
}

/// Two lookups with one code are one lookup.
pub proof fn lemma_command_codes_distinct(a: Command, b: Command)
    requires
        a.code_of() == b.code_of(),
    ensures
        a == b,
{
}

impl<T> UnifiedAddress<T> {
    /// The address itself, whichever way the host came by it.
    pub open spec fn inner(self) -> T {
        match self {
            UnifiedAddress::Mapped(address) => address,
            UnifiedAddress::Default(address) => address,
        }
    }

    /// Whether the host found a mapping.
    pub open spec fn mapped(self) -> bool {
        self is Mapped
    }

    /// The address itself, whichever way the host came by it.
    pub fn into_address(self) -> (address: T)
        ensures
            address == self.inner(),
    {
        match self {
            UnifiedAddress::Mapped(address) => address,
            UnifiedAddress::Default(address) => address,
        }
    }

    /// Whether the host found a mapping.
    pub fn is_mapped(&self) -> (mapped: bool)
        ensures
            mapped == self.mapped(),
    {
        match self {
            UnifiedAddress::Mapped(_) => true,
            UnifiedAddress::Default(_) => false,
        }
    }
}

/// The bytes of an optional value: `0` where there is none, `1` and the
/// value where there is one.
pub open spec fn optional_bytes<T: HostValue>(value: Option<T>) -> Seq<u8> {
    match value {
        None => seq![0u8],
        Some(found) => seq![1u8] + found.bytes(),
    }
}

/// The bytes of a looked-up address: `0` and the address where it was
/// mapped, `1` and the address where it was derived.
pub open spec fn unified_bytes<T: HostValue>(value: UnifiedAddress<T>) -> Seq<u8> {
    match value {
        UnifiedAddress::Mapped(address) => seq![0u8] + address.bytes(),
        UnifiedAddress::Default(address) => seq![1u8] + address.bytes(),
    }
}

/// The optional value that an answer holds. The outer `Option` is `None`
/// where the answer is no such value: the status code is not `0`, the first
/// byte is neither `0` nor `1`, or the value is cut short.
pub open spec fn optional_of_reply<T: HostValue>(status_code: u32, output: Seq<u8>) -> Option<
    Option<T>,
> {
    if status_code != 0 {
        None
    } else if u8_at(output, 0) == Some(0u8) {
        Some(None)
    } else if u8_at(output, 0) == Some(1u8) && value_at::<T>(output, 1) is Some {
        Some(value_at::<T>(output, 1))
    } else {
        None
    }
}

/// The looked-up address that an answer holds, or `None` where the answer is
/// no such value: the status code is not `0`, the first byte is neither `0`
/// nor `1`, or the address is cut short.
pub open spec fn unified_of_reply<T: HostValue>(status_code: u32, output: Seq<u8>) -> Option<
    UnifiedAddress<T>,
> {
    if status_code != 0 || value_at::<T>(output, 1) is None {
        None
    } else if output[0] == 0 {
        Some(UnifiedAddress::Mapped(value_at::<T>(output, 1)->0))
    } else if output[0] == 1 {
        Some(UnifiedAddress::Default(value_at::<T>(output, 1)->0))
    } else {
        None
    }
}

/// Reads the answer to a lookup that may find nothing, or finds that the
/// answer is no optional value: then the outer `Option` is `None`.
pub fn try_optional_reply<T: HostValue>(status_code: u32, output: &[u8]) -> (r: Option<Option<T>>)
    ensures
        r == optional_of_reply::<T>(status_code, output@),
{
    if status_code != 0 {
        return None;
    }
    match read_u8(output, 0) {
        Ok(tag) => {
            if tag == 0 {
                Some(None)
            } else if tag == 1 {
                match T::read(output, 1) {
                    Some(found) => Some(Some(found)),
                    None => None,
                }
            } else {
                None
            }
        },
        Err(_) => None,
    }
}

/// Reads the answer to a lookup that may find nothing.
pub fn optional_reply<T: HostValue>(status_code: u32, output: &[u8]) -> (r: Option<T>)
    requires
        optional_of_reply::<T>(status_code, output@) is Some,
    ensures
        Some(r) == optional_of_reply::<T>(status_code, output@),
{
    match try_optional_reply::<T>(status_code, output) {
        Some(found) => found,
        None => unreached(),
    }
}

/// Reads the answer to a lookup that always gives an address, or finds that
/// the answer holds none.
pub fn try_unified_reply<T: HostValue>(status_code: u32, output: &[u8]) -> (r: Option<
    UnifiedAddress<T>,
>)
    ensures
        r == unified_of_reply::<T>(status_code, output@),
{
    if status_code != 0 {
        return None;
    }
    match T::read(output, 1) {
        Some(address) => {
            let tag = output[0];
            if tag == 0 {
                Some(UnifiedAddress::Mapped(address))
            } else if tag == 1 {
                Some(UnifiedAddress::Default(address))
            } else {
                None
            }
        },
        None => None,
    }
}

/// Reads the answer to a lookup that always gives an address.
pub fn unified_reply<T: HostValue>(status_code: u32, output: &[u8]) -> (r: UnifiedAddress<T>)
    requires
        unified_of_reply::<T>(status_code, output@) is Some,
    ensures
        Some(r) == unified_of_reply::<T>(status_code, output@),
{
    match try_unified_reply::<T>(status_code, output) {
        Some(address) => address,
        None => unreached(),
    }
}

/// An optional value that is written as the format has it is read again as it
/// was: nothing as nothing, a value unchanged.
pub proof fn lemma_optional_round_trip<T: HostValue>(value: Option<T>, after: Seq<u8>)
    ensures
        optional_of_reply::<T>(0, optional_bytes(value) + after) == Some(value),
{
    let output = optional_bytes(value) + after;
    match value {
        None => {
            assert(output[0] == 0u8);
        },
        Some(found) => {
            found.lemma_bytes();
            assert(output[0] == 1u8);
            assert(output.subrange(1, 1 + T::width() as int) =~= found.bytes());
        },
    }
}

/// A looked-up address that is written as the format has it is read again
/// as it was, with the way the host came by it.
pub proof fn lemma_unified_round_trip<T: HostValue>(value: UnifiedAddress<T>, after: Seq<u8>)
    ensures
        unified_of_reply::<T>(0, unified_bytes(value) + after) == Some(value),
{
    let output = unified_bytes(value) + after;
    value.inner().lemma_bytes();
    assert(output.subrange(1, 1 + T::width() as int) =~= value.inner().bytes());
    match value {
        UnifiedAddress::Mapped(_) => {
            assert(output[0] == 0u8);
        },
        UnifiedAddress::Default(_) => {
            assert(output[0] == 1u8);
        },
    }
}

/// The input of a lookup is the account or the address itself, and is read
/// again from it whole.
pub proof fn lemma_lookup_input_round_trip<T: HostValue>(value: T)
    ensures
        value.bytes().len() == T::width(),
        value_at::<T>(value.bytes(), 0) == Some(value),
{
    value.lemma_bytes();
    assert(value.bytes().subrange(0, T::width() as int) =~= value.bytes());
}

/// The client of the lookup family that the host numbers `ID`, for the host
/// environment `E`. It holds no state: every lookup is one request and one
/// answer.
pub struct UAExtension<E, const ID: u16>(PhantomData<E>);

impl<E: Environment, const ID: u16> UAExtension<E, ID> {
    /// The identifier of the command with code `idx` in this family.
    pub fn get_func_id(idx: u16) -> (id: u32)
        ensures
            id == func_id_of(ID, idx),
    {
        encode_id(ID, idx)
    }

    fn value_request<T: HostValue>(command: Command, value: T) -> (request: Request)
        ensures
            request.func_id == func_id_of(ID, command.code_of()),
            request.input@ == value.bytes(),
    {
        let mut input: Vec<u8> = Vec::new();
        value.put(&mut input);
        proof {
            assert(input@ =~= value.bytes());
        }
        Request { func_id: Self::get_func_id(command.code()), input }
    }

    /// Asks the host for the address mapped to `account_id`, if any.
    pub fn to_h160(account_id: E::AccountId) -> (request: Request)
        ensures
            request.func_id == func_id_of(ID, Command::GetEvmAddress.code_of()),
            request.input@ == account_id.bytes(),
    {
        Self::value_request(Command::GetEvmAddress, account_id)
    }

    /// Asks the host for the address mapped to `account_id`, or else the one
    /// derived from it.
    pub fn to_h160_or_default(account_id: E::AccountId) -> (request: Request)
        ensures
            request.func_id == func_id_of(ID, Command::GetEvmAddressOrDefault.code_of()),
            request.input@ == account_id.bytes(),
    {
        Self::value_request(Command::GetEvmAddressOrDefault, account_id)
    }

    /// Asks the host for the account mapped to `evm_address`, if any.
    pub fn to_account_id(evm_address: H160) -> (request: Request)
        ensures
            request.func_id == func_id_of(ID, Command::GetNativeAddress.code_of()),
            request.input@ == evm_address.bytes(),
    {
        Self::value_request(Command::GetNativeAddress, evm_address)
    }

    /// Asks the host for the account mapped to `evm_address`, or else the one
    /// derived from it.
    pub fn to_account_id_or_default(evm_address: H160) -> (request: Request)
        ensures
            request.func_id == func_id_of(ID, Command::GetNativeAddressOrDefault.code_of()),
            request.input@ == evm_address.bytes(),
    {
        Self::value_request(Command::GetNativeAddressOrDefault, evm_address)
    }
}

} // verus!
