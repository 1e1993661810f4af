//! A contract whose one message always fails, with a failure whose tag on
//! the wire is fixed by hand.

use vstd::prelude::*;

verus! {

/// The failure that the contract reports.
#[derive(Debug, PartialEq, Eq, Copy, Clone, Structural)]
pub enum RevertError {
    DummyError,
}

impl RevertError {
    /// The tag that stands for the variant in an encoded value. It is `7`,
    /// not the variant's place in the declaration.
    pub open spec fn tag_of(self) -> u8 {
        7
    }

    /// The variant that a tag stands for, if any.
    pub open spec fn of_tag(tag: u8) -> Option<RevertError> {
        if tag == 7 {
            Some(RevertError::DummyError)
        } else {
            None
        }
    }

    /// The tag that stands for the variant in an encoded value.
    pub fn tag(self) -> (tag: u8)
        ensures
            tag == self.tag_of(),
            tag == 7,
    {
        7
    }

    /// The variant that a tag stands for, if any.
    pub fn from_tag(tag: u8) -> (r: Option<RevertError>)
        ensures
            r == Self::of_tag(tag),
            r is Some <==> tag == 7,
    {
        if tag == 7 {
            Some(RevertError::DummyError)
        } else {
            None
        }
    }
}

/// The contract. It holds no state.
#[derive(Debug, PartialEq, Eq, Copy, Clone, Structural)]
pub struct DummyError {}

impl DummyError {
    /// A new contract.
    pub fn new() -> (contract: Self) {
        DummyError {  }
    }

    /// Always fails.
    pub fn do_revert(&self) -> (r: Result<(), RevertError>)
        ensures
            r == Err::<(), RevertError>(RevertError::DummyError),
    {
        Err(RevertError::DummyError)
    }
}

} // verus!
