//! The contract that offers the asset operations of family `2` as its
//! messages, on the default environment.

use crate::assets::{
    asset_account_amount_input, asset_account_input, asset_accounts_amount_input,
    asset_accounts_input, asset_input, AssetsExtension, ASSETS_FAMILY,
};
use crate::environment::DefaultEnvironment;
use crate::types::{AccountId, Balance, Request};
use vstd::prelude::*;

verus! {

/// The contract. It holds no state.
#[derive(Debug, PartialEq, Eq, Copy, Clone, Structural)]
pub struct Mock {}

impl Mock {
    /// A new contract.
    pub fn new() -> (contract: Self) {
        Mock {  }
    }

    /// The request that creates `amount` of an asset for `beneficiary`.
    pub fn mint(&self, asset_id: u128, beneficiary: AccountId, amount: Balance) -> (request: Request)
        ensures
            request.func_id == 0x0002_0002,
            request.input@ == asset_account_amount_input(asset_id, beneficiary, amount),
    {
        AssetsExtension::<DefaultEnvironment, ASSETS_FAMILY>::mint(asset_id, beneficiary, amount)
    }

    /// The request that destroys `amount` of an asset held by `who`.
    pub fn burn(&self, asset_id: u128, who: AccountId, amount: Balance) -> (request: Request)
        ensures
            request.func_id == 0x0002_0003,
            request.input@ == asset_account_amount_input(asset_id, who, amount),
    {
        AssetsExtension::<DefaultEnvironment, ASSETS_FAMILY>::burn(asset_id, who, amount)
    }

    /// The request that moves `amount` of an asset to `target`.
    pub fn transfer(&self, asset_id: u128, target: AccountId, amount: Balance) -> (request: Request)
        ensures
            request.func_id == 0x0002_0000,
            request.input@ == asset_account_amount_input(asset_id, target, amount),
    {
        AssetsExtension::<DefaultEnvironment, ASSETS_FAMILY>::transfer(asset_id, target, amount)
    }

    /// The request that lets `delegate` move up to `amount` of an asset.
    pub fn approve_transfer(&self, asset_id: u128, delegate: AccountId, amount: Balance) -> (request: Request)
        ensures
            request.func_id == 0x0002_0004,
            request.input@ == asset_account_amount_input(asset_id, delegate, amount),
    {
        AssetsExtension::<DefaultEnvironment, ASSETS_FAMILY>::approve_transfer(asset_id, delegate, amount)
    }

    /// The request that moves `amount` of an asset from `owner` to
    /// `destination` on an approval.
    pub fn transfer_approved(
        &self,
        asset_id: u128,
        owner: AccountId,
        destination: AccountId,
        amount: Balance,
    ) -> (request: Request)
        ensures
            request.func_id == 0x0002_0001,
            request.input@ == asset_accounts_amount_input(asset_id, owner, destination, amount),
    {
        AssetsExtension::<DefaultEnvironment, ASSETS_FAMILY>::transfer_approved(
            asset_id,
            owner,
            destination,
            amount,
        )
    }

    /// The request for what `who` holds of an asset.
    pub fn balance_of(&self, asset_id: u128, who: AccountId) -> (request: Request)
        ensures
            request.func_id == 0x0002_0005,
            request.input@ == asset_account_input(asset_id, who),
    {
        AssetsExtension::<DefaultEnvironment, ASSETS_FAMILY>::balance_of(asset_id, who)
    }

    /// The request for how much of an asset exists.
    pub fn total_supply(&self, asset_id: u128) -> (request: Request)
        ensures
            request.func_id == 0x0002_0006,
            request.input@ == asset_input(asset_id),
    {
        AssetsExtension::<DefaultEnvironment, ASSETS_FAMILY>::total_supply(asset_id)
    }

    /// The request for what `delegate` may still move of an asset of `owner`.
    pub fn allowance(&self, asset_id: u128, owner: AccountId, delegate: AccountId) -> (request: Request)
        ensures
            request.func_id == 0x0002_0007,
            request.input@ == asset_accounts_input(asset_id, owner, delegate),
    {
        AssetsExtension::<DefaultEnvironment, ASSETS_FAMILY>::allowance(asset_id, owner, delegate)
    }

    /// The request for the name of an asset.
    pub fn metadata_name(&self, asset_id: u128) -> (request: Request)
        ensures
            request.func_id == 0x0002_0008,
            request.input@ == asset_input(asset_id),
    {
        AssetsExtension::<DefaultEnvironment, ASSETS_FAMILY>::metadata_name(asset_id)
    }

    /// The request for the symbol of an asset.
    pub fn metadata_symbol(&self, asset_id: u128) -> (request: Request)
        ensures
            request.func_id == 0x0002_0009,
            request.input@ == asset_input(asset_id),
    {
        AssetsExtension::<DefaultEnvironment, ASSETS_FAMILY>::metadata_symbol(asset_id)
    }

    /// The request for the number of decimals of an asset.
    pub fn metadata_decimals(&self, asset_id: u128) -> (request: Request)
        ensures
            request.func_id == 0x0002_000a,
            request.input@ == asset_input(asset_id),
    {
        AssetsExtension::<DefaultEnvironment, ASSETS_FAMILY>::metadata_decimals(asset_id)
    }

    /// The request for the least amount of an asset that an account may hold.
    pub fn minimum_balance(&self, asset_id: u128) -> (request: Request)
        ensures
            request.func_id == 0x0002_000b,
            request.input@ == asset_input(asset_id),
    {
        AssetsExtension::<DefaultEnvironment, ASSETS_FAMILY>::minimum_balance(asset_id)
    }
}

} // verus!
