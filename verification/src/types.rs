//! The plain values that cross the host boundary.

use vstd::prelude::*;

verus! {

/// An amount of an asset.
pub type Balance = u128;

/// A native account: thirty-two bytes.
#[derive(Clone, Copy, Debug, PartialEq, Eq)]
pub struct AccountId {
    pub bytes: [u8; 32],
}

/// An address of the other virtual machine: twenty bytes.
#[derive(Clone, Copy, Debug, PartialEq, Eq)]
pub struct H160 {
    pub bytes: [u8; 20],
}

/// An address that the host looked up: either one that was mapped on purpose,
/// or the one that the host derives where no mapping exists.
#[derive(Clone, Copy, Debug, PartialEq, Eq)]
pub enum UnifiedAddress<T> {
    Mapped(T),
    Default(T),
}

/// What is handed to the host: the function identifier and the encoded input.
#[derive(Clone, Debug, PartialEq, Eq)]
pub struct Request {
    pub func_id: u32,
    pub input: Vec<u8>,
}

impl AccountId {
    /// The account's bytes as a sequence.
    pub open spec fn view(&self) -> Seq<u8> {
        self.bytes@
    }
}

impl H160 {
    /// The address's bytes as a sequence.
    pub open spec fn view(&self) -> Seq<u8> {
        self.bytes@
    }
}

} // verus!
