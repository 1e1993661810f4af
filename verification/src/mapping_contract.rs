//! The contract that offers the lookups of family `3` as its messages, on the
//! default environment.

use crate::environment::{DefaultEnvironment, HostValue};
use crate::types::{AccountId, Request, H160};
use crate::unified_accounts::{UAExtension, UNIFIED_ACCOUNTS_FAMILY};
use vstd::prelude::*;

verus! {

/// The contract. It holds no state.
#[derive(Debug, PartialEq, Eq, Copy, Clone, Structural)]
pub struct UAMappingGetter {}

impl UAMappingGetter {
    /// A new contract.
    pub fn new() -> (contract: Self) {
        UAMappingGetter {  }
    }

    /// The request for the address mapped to an account, if any.
    pub fn to_h160(&self, account_id: AccountId) -> (request: Request)
        ensures
            request.func_id == 0x0003_0000,
            request.input@ == account_id@,
    {
        UAExtension::<DefaultEnvironment, UNIFIED_ACCOUNTS_FAMILY>::to_h160(account_id)
    }

    /// The request for the address mapped to an account, or else the one
    /// derived from it.
    pub fn to_h160_or_default(&self, account_id: AccountId) -> (request: Request)
        ensures
            request.func_id == 0x0003_0001,
            request.input@ == account_id@,
    {
        UAExtension::<DefaultEnvironment, UNIFIED_ACCOUNTS_FAMILY>::to_h160_or_default(account_id)
    }

    /// The request for the account mapped to an address, if any.
    pub fn to_account_id(&self, evm_address: H160) -> (request: Request)
        ensures
            request.func_id == 0x0003_0002,
            request.input@ == evm_address@,
    {
        UAExtension::<DefaultEnvironment, UNIFIED_ACCOUNTS_FAMILY>::to_account_id(evm_address)
    }

    /// The request for the account mapped to an address, or else the one
    /// derived from it.
    pub fn to_account_id_or_default(&self, evm_address: H160) -> (request: Request)
        ensures
            request.func_id == 0x0003_0003,
            request.input@ == evm_address@,
    {
        UAExtension::<DefaultEnvironment, UNIFIED_ACCOUNTS_FAMILY>::to_account_id_or_default(
            evm_address,
        )
    }
}

} // verus!
