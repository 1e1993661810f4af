//! The host environment: which types stand for an account and for an amount,
//! and how a value of each is written and read.

use crate::types::{AccountId, H160};
use crate::wire::{
    bytes_at, put_account, put_address, put_u128, read_account, read_address, read_u128,
    u128_bytes,
};
use vstd::bytes::{lemma_auto_spec_u128_to_from_le_bytes, spec_u128_from_le_bytes};
use vstd::prelude::*;

verus! {

/// A value that takes a fixed number of bytes in an input or an output.
pub trait HostValue: Sized {
    /// The number of bytes that every value of the type takes.
    spec fn width() -> nat;

    /// The bytes of the value.
    spec fn bytes(&self) -> Seq<u8>;

    /// The value that the bytes stand for.
    spec fn of_bytes(bytes: Seq<u8>) -> Self;

    /// A value takes `width()` bytes and is found again from them.
    proof fn lemma_bytes(&self)
        ensures
            self.bytes().len() == Self::width(),
            Self::of_bytes(self.bytes()) == *self,
    ;

    /// Appends the value.
    fn put(&self, buf: &mut Vec<u8>)
        ensures
            final(buf)@ == old(buf)@ + self.bytes(),
    ;

    /// Reads the value that starts at `at`; there is none where `input` does
    /// not hold `width()` bytes from there on.
    fn read(input: &[u8], at: usize) -> (r: Option<Self>)
        ensures
            r is Some <==> bytes_at(input@, at as int, Self::width() as int) is Some,
            r is Some ==> r->0 == Self::of_bytes(
                input@.subrange(at as int, at as int + Self::width() as int),
            ),
    ;
}

/// The value of type `T` that starts at `at`, where `input` holds its bytes.
pub open spec fn value_at<T: HostValue>(input: Seq<u8>, at: nat) -> Option<T> {
    match bytes_at(input, at as int, T::width() as int) {
        Some(bytes) => Some(T::of_bytes(bytes)),
        None => None,
    }
}

/// The types of a host.
pub trait Environment {
    /// What names an account.
    type AccountId: HostValue;

    /// What counts an amount of an asset.
    type Balance: HostValue;
}

/// The host whose accounts are thirty-two bytes and whose amounts are `u128`.
pub struct DefaultEnvironment {}

impl Environment for DefaultEnvironment {
    type AccountId = AccountId;

    type Balance = u128;
}

impl HostValue for u128 {
    open spec fn width() -> nat {
        16
    }

    open spec fn bytes(&self) -> Seq<u8> {
        u128_bytes(*self)
    }

    open spec fn of_bytes(bytes: Seq<u8>) -> Self {
        spec_u128_from_le_bytes(bytes)
    }

    proof fn lemma_bytes(&self) {
        lemma_auto_spec_u128_to_from_le_bytes();
        assert(u128_bytes(*self).len() == 16);
    }

    fn put(&self, buf: &mut Vec<u8>) {
        put_u128(buf, *self)
    }

    fn read(input: &[u8], at: usize) -> (r: Option<Self>) {
        match read_u128(input, at) {
            Ok(value) => Some(value),
            Err(_) => None,
        }
    }
}

impl HostValue for AccountId {
    open spec fn width() -> nat {
        32
    }

    open spec fn bytes(&self) -> Seq<u8> {
        self@
    }

    open spec fn of_bytes(bytes: Seq<u8>) -> Self {
        choose|account: AccountId| account@ == bytes
    }

    proof fn lemma_bytes(&self) {
        let found = Self::of_bytes(self.bytes());
        assert(found.bytes =~= self.bytes);
    }

    fn put(&self, buf: &mut Vec<u8>) {
        put_account(buf, self)
    }

    fn read(input: &[u8], at: usize) -> (r: Option<Self>) {
        match read_account(input, at) {
            Ok(account) => {
                proof {
                    let found = Self::of_bytes(account@);
                    assert(found.bytes =~= account.bytes);
                }
                Some(account)
            },
            Err(_) => None,
        }
    }
}

impl HostValue for H160 {
    open spec fn width() -> nat {
        20
    }

    open spec fn bytes(&self) -> Seq<u8> {
        self@
    }

    open spec fn of_bytes(bytes: Seq<u8>) -> Self {
        choose|address: H160| address@ == bytes
    }

    proof fn lemma_bytes(&self) {
        let found = Self::of_bytes(self.bytes());
        assert(found.bytes =~= self.bytes);
    }

    fn put(&self, buf: &mut Vec<u8>) {
        put_address(buf, self)
    }

    fn read(input: &[u8], at: usize) -> (r: Option<Self>) {
        match read_address(input, at) {
            Ok(address) => {
                proof {
                    let found = Self::of_bytes(address@);
                    assert(found.bytes =~= address.bytes);
                }
                Some(address)
            },
            Err(_) => None,
        }
    }
}

/// Two values with the same bytes are one value.
pub proof fn lemma_bytes_injective<T: HostValue>(a: T, b: T)
    requires
        a.bytes() == b.bytes(),
    ensures
        a == b,
{
    a.lemma_bytes();
    b.lemma_bytes();
}

/// A value that was written after `before` is read again at the offset where
/// it was put, whatever follows it.
pub proof fn lemma_value_round_trip<T: HostValue>(before: Seq<u8>, value: T, after: Seq<u8>)
    ensures
        value_at::<T>(before + value.bytes() + after, before.len()) == Some(value),
{
    value.lemma_bytes();
    let all = before + value.bytes() + after;
    assert(all.subrange(before.len() as int, before.len() as int + T::width() as int)
        =~= value.bytes());
}

} // verus!
