//! The asset family: its commands, the request of each operation, and the
//! reading of the host's answers.

use crate::assets_error::{lemma_tag_round_trip, AssetsError};
use crate::codec::byte_vec_of;
use crate::environment::{lemma_value_round_trip, value_at, Environment, HostValue};
use crate::func_id::{encode_id, func_id_of};
use crate::types::Request;
use crate::wire::{put_u128, read_byte_vec, read_u8, u128_bytes, u8_at};
use core::marker::PhantomData;
use vstd::pervasive::unreached;
use vstd::prelude::*;

verus! {

/// The family number under which the host offers the asset operations.
pub const ASSETS_FAMILY: u16 = 2;

/// An operation of the asset family.
#[derive(PartialEq, Eq, Copy, Clone, Debug, Structural)]
pub enum Command {
    Transfer,
    TransferApproved,
    Mint,
    Burn,
    ApproveTransfer,
    BalanceOf,
    TotalSupply,
    Allowance,
    MetadataName,
    MetadataSymbol,
    MetadataDecimals,
    MinimumBalance,
}

impl Command {
    /// The code of the command within its family. A code is never given to
    /// another command.
    pub open spec fn code_of(self) -> u16 {
        match self {
            Command::Transfer => 0,
            Command::TransferApproved => 1,
            Command::Mint => 2,
            Command::Burn => 3,
            Command::ApproveTransfer => 4,
            Command::BalanceOf => 5,
            Command::TotalSupply => 6,
            Command::Allowance => 7,
            Command::MetadataName => 8,
            Command::MetadataSymbol => 9,
            Command::MetadataDecimals => 10,
            Command::MinimumBalance => 11,
        }
    }

    /// The code of the command within its family.
    pub fn code(self) -> (code: u16)
        ensures
            code == self.code_of(),
    {
        match self {
            Command::Transfer => 0,
            Command::TransferApproved => 1,
            Command::Mint => 2,
            Command::Burn => 3,
            Command::ApproveTransfer => 4,
            Command::BalanceOf => 5,
            Command::TotalSupply => 6,
            Command::Allowance => 7,
            Command::MetadataName => 8,
            Command::MetadataSymbol => 9,
            Command::MetadataDecimals => 10,
            Command::MinimumBalance => 11,
        }
    }
}

/// Two commands with one code are one command.
pub proof fn lemma_command_codes_distinct(a: Command, b: Command)
    requires
        a.code_of() == b.code_of(),
    ensures
        a == b,
{
}

/// The input of an operation on an asset alone.
pub open spec fn asset_input(id: u128) -> Seq<u8> {
    u128_bytes(id)
}

/// The input of an operation on an asset and one account.
pub open spec fn asset_account_input<A: HostValue>(id: u128, who: A) -> Seq<u8> {
    u128_bytes(id) + who.bytes()
}

/// The input of an operation on an asset and two accounts.
pub open spec fn asset_accounts_input<A: HostValue>(id: u128, first: A, second: A) -> Seq<u8> {
    u128_bytes(id) + first.bytes() + second.bytes()
}

/// The input of an operation on an asset, one account and an amount.
pub open spec fn asset_account_amount_input<A: HostValue, B: HostValue>(
    id: u128,
    who: A,
    amount: B,
) -> Seq<u8> {
    u128_bytes(id) + who.bytes() + amount.bytes()
}

/// The input of an operation on an asset, two accounts and an amount.
pub open spec fn asset_accounts_amount_input<A: HostValue, B: HostValue>(
    id: u128,
    first: A,
    second: A,
    amount: B,
) -> Seq<u8> {
    u128_bytes(id) + first.bytes() + second.bytes() + amount.bytes()
}

/// The bytes of a result without a value: `0` for success, `1` and the
/// failure's tag for a failure.
pub open spec fn unit_result_bytes(result: Result<(), AssetsError>) -> Seq<u8> {
    match result {
        Ok(_) => seq![0u8],
        Err(error) => seq![1u8, error.tag_of()],
    }
}

/// What an output says where it is read as a result without a value: a first
/// byte `0` is success, a first byte `1` is followed by the tag of a
/// failure, and anything else is not an encoding of such a result.
pub open spec fn unit_result_of(output: Seq<u8>) -> Result<(), AssetsError> {
    if u8_at(output, 0) == Some(0u8) {
        Ok(())
    } else if u8_at(output, 0) == Some(1u8) && u8_at(output, 1) is Some && AssetsError::of_tag(
        output[1],
    ) is Some {
        Err(AssetsError::of_tag(output[1])->0)
    } else {
        Err(AssetsError::InvalidScaleEncoding)
    }
}

/// The outcome of an operation that can fail: the status code is read first,
/// and the output only where the status code is `0`.
pub open spec fn fallible_outcome(status_code: u32, output: Seq<u8>) -> Result<(), AssetsError> {
    match AssetsError::status_outcome(status_code) {
        Err(error) => Err(error),
        Ok(_) => unit_result_of(output),
    }
}

/// The amount that the answer to a query holds. There is none where the
/// status code is not `0` or the output is too short for an amount.
pub open spec fn balance_of_reply<B: HostValue>(status_code: u32, output: Seq<u8>) -> Option<B> {
    if status_code == 0 {
        value_at::<B>(output, 0)
    } else {
        None
    }
}

/// The byte string that the answer to a query holds: a length and that many
/// bytes. There is none where the status code is not `0` or the output does
/// not start with a length and as many bytes.
pub open spec fn bytes_of_reply(status_code: u32, output: Seq<u8>) -> Option<Seq<u8>> {
    if status_code == 0 {
        byte_vec_of(output)
    } else {
        None
    }
}

/// The number of decimals that the answer to a query holds. There is none
/// where the status code is not `0` or the output is empty.
pub open spec fn decimals_of_reply(status_code: u32, output: Seq<u8>) -> Option<u8> {
    if status_code == 0 {
        u8_at(output, 0)
    } else {
        None
    }
}

/// Reads an output as a result without a value.
pub fn unit_result(output: &[u8]) -> (r: Result<(), AssetsError>)
    ensures
        r == unit_result_of(output@),
{
    match read_u8(output, 0) {
        Err(error) => Err(AssetsError::from(error)),
        Ok(tag) => {
            if tag == 0 {
                Ok(())
            } else if tag == 1 {
                match read_u8(output, 1) {
                    Err(error) => Err(AssetsError::from(error)),
                    Ok(failure_tag) => match AssetsError::from_tag(failure_tag) {
                        Some(failure) => Err(failure),
                        None => Err(AssetsError::InvalidScaleEncoding),
                    },
                }
            } else {
                Err(AssetsError::InvalidScaleEncoding)
            }
        },
    }
}

/// Reads the answer to an operation that can fail. A status code other than
/// `0` decides alone; with status code `0` the output decides.
pub fn fallible_reply(status_code: u32, output: &[u8]) -> (r: Result<(), AssetsError>)
    ensures
        r == fallible_outcome(status_code, output@),
        status_code != 0 ==> r == AssetsError::status_outcome(status_code),
        r is Ok <==> status_code == 0 && u8_at(output@, 0) == Some(0u8),
{
    match AssetsError::from_status_code(status_code) {
        Err(error) => Err(error),
        Ok(_) => unit_result(output),
    }
}

/// Reads the answer to a query for an amount, or finds that it holds none.
pub fn try_balance_reply<B: HostValue>(status_code: u32, output: &[u8]) -> (r: Option<B>)
    ensures
        r == balance_of_reply::<B>(status_code, output@),
{
    if status_code == 0 {
        B::read(output, 0)
    } else {
        None
    }
}

/// Reads the answer to a query for an amount.
pub fn balance_reply<B: HostValue>(status_code: u32, output: &[u8]) -> (balance: B)
    requires
        balance_of_reply::<B>(status_code, output@) is Some,
    ensures
        Some(balance) == balance_of_reply::<B>(status_code, output@),
{
    match try_balance_reply::<B>(status_code, output) {
        Some(balance) => balance,
        None => unreached(),
    }
}

/// Reads the answer to a query for a byte string, or finds that it holds
/// none.
pub fn try_bytes_reply(status_code: u32, output: &[u8]) -> (r: Option<Vec<u8>>)
    ensures
        r is Some <==> bytes_of_reply(status_code, output@) is Some,
        r is Some ==> Some(r->0@) == bytes_of_reply(status_code, output@),
{
    if status_code != 0 {
        return None;
    }
    proof {
        assert(output@.subrange(0, output@.len() as int) =~= output@);
    }
    match read_byte_vec(output, 0) {
        Ok(bytes) => Some(bytes),
        Err(_) => None,
    }
}

/// Reads the answer to a query for a byte string.
pub fn bytes_reply(status_code: u32, output: &[u8]) -> (bytes: Vec<u8>)
    requires
        bytes_of_reply(status_code, output@) is Some,
    ensures
        Some(bytes@) == bytes_of_reply(status_code, output@),
{
    match try_bytes_reply(status_code, output) {
        Some(bytes) => bytes,
        None => unreached(),
    }
}

/// Reads the answer to a query for a number of decimals, or finds that it
/// holds none.
pub fn try_decimals_reply(status_code: u32, output: &[u8]) -> (r: Option<u8>)
    ensures
        r == decimals_of_reply(status_code, output@),
{
    if status_code != 0 {
        return None;
    }
    match read_u8(output, 0) {
        Ok(decimals) => Some(decimals),
        Err(_) => None,
    }
}

/// Reads the answer to a query for a number of decimals.
pub fn decimals_reply(status_code: u32, output: &[u8]) -> (decimals: u8)
    requires
        decimals_of_reply(status_code, output@) is Some,
    ensures
        Some(decimals) == decimals_of_reply(status_code, output@),
{
    match try_decimals_reply(status_code, output) {
        Some(decimals) => decimals,
        None => unreached(),
    }
}

/// The input of an operation on an asset alone is sixteen bytes long, and
/// the asset is read from it again.
pub proof fn lemma_asset_input_round_trip(id: u128)
    ensures
        asset_input(id).len() == 16,
        value_at::<u128>(asset_input(id), 0) == Some(id),
{
    id.lemma_bytes();
    lemma_value_round_trip::<u128>(Seq::empty(), id, Seq::empty());
    assert(Seq::<u8>::empty() + id.bytes() + Seq::<u8>::empty() =~= asset_input(id));
}

/// Each field of the input of an operation on an asset and one account is
/// read again at its offset.
pub proof fn lemma_asset_account_input_round_trip<A: HostValue>(id: u128, who: A)
    ensures
        asset_account_input(id, who).len() == 16 + A::width(),
        value_at::<u128>(asset_account_input(id, who), 0) == Some(id),
        value_at::<A>(asset_account_input(id, who), 16) == Some(who),
{
    id.lemma_bytes();
    who.lemma_bytes();
    let input = asset_account_input(id, who);
    lemma_value_round_trip::<u128>(Seq::empty(), id, who.bytes());
    assert(Seq::<u8>::empty() + id.bytes() + who.bytes() =~= input);
    lemma_value_round_trip::<A>(id.bytes(), who, Seq::empty());
    assert(id.bytes() + who.bytes() + Seq::<u8>::empty() =~= input);
}

/// Each field of the input of an operation on an asset and two accounts is
/// read again at its offset.
pub proof fn lemma_asset_accounts_input_round_trip<A: HostValue>(id: u128, first: A, second: A)
    ensures
        asset_accounts_input(id, first, second).len() == 16 + 2 * A::width(),
        value_at::<u128>(asset_accounts_input(id, first, second), 0) == Some(id),
        value_at::<A>(asset_accounts_input(id, first, second), 16) == Some(first),
        value_at::<A>(asset_accounts_input(id, first, second), 16 + A::width()) == Some(second),
{
    id.lemma_bytes();
    first.lemma_bytes();
    second.lemma_bytes();
    let input = asset_accounts_input(id, first, second);
    lemma_value_round_trip::<u128>(Seq::empty(), id, first.bytes() + second.bytes());
    assert(Seq::<u8>::empty() + id.bytes() + (first.bytes() + second.bytes()) =~= input);
    lemma_value_round_trip::<A>(id.bytes(), first, second.bytes());
    lemma_value_round_trip::<A>(id.bytes() + first.bytes(), second, Seq::empty());
    assert(id.bytes() + first.bytes() + second.bytes() + Seq::<u8>::empty() =~= input);
}

/// Each field of the input of an operation on an asset, one account and an
/// amount is read again at its offset.
pub proof fn lemma_asset_account_amount_input_round_trip<A: HostValue, B: HostValue>(
    id: u128,
    who: A,
    amount: B,
)
    ensures
        asset_account_amount_input(id, who, amount).len() == 16 + A::width() + B::width(),
        value_at::<u128>(asset_account_amount_input(id, who, amount), 0) == Some(id),
        value_at::<A>(asset_account_amount_input(id, who, amount), 16) == Some(who),
        value_at::<B>(asset_account_amount_input(id, who, amount), 16 + A::width()) == Some(
            amount,
        ),
{
    id.lemma_bytes();
    who.lemma_bytes();
    amount.lemma_bytes();
    let input = asset_account_amount_input(id, who, amount);
    lemma_value_round_trip::<u128>(Seq::empty(), id, who.bytes() + amount.bytes());
    assert(Seq::<u8>::empty() + id.bytes() + (who.bytes() + amount.bytes()) =~= input);
    lemma_value_round_trip::<A>(id.bytes(), who, amount.bytes());
    lemma_value_round_trip::<B>(id.bytes() + who.bytes(), amount, Seq::empty());
    assert(id.bytes() + who.bytes() + amount.bytes() + Seq::<u8>::empty() =~= input);
}

/// Each field of the input of an operation on an asset, two accounts and an
/// amount is read again at its offset.
pub proof fn lemma_asset_accounts_amount_input_round_trip<A: HostValue, B: HostValue>(
    id: u128,
    first: A,
    second: A,
    amount: B,
)
    ensures
        asset_accounts_amount_input(id, first, second, amount).len() == 16 + 2 * A::width()
            + B::width(),
        value_at::<u128>(asset_accounts_amount_input(id, first, second, amount), 0) == Some(id),
        value_at::<A>(asset_accounts_amount_input(id, first, second, amount), 16) == Some(first),
        value_at::<A>(asset_accounts_amount_input(id, first, second, amount), 16 + A::width())
            == Some(second),
        value_at::<B>(
            asset_accounts_amount_input(id, first, second, amount),
            16 + 2 * A::width(),
        ) == Some(amount),
{
    id.lemma_bytes();
    first.lemma_bytes();
    second.lemma_bytes();
    amount.lemma_bytes();
    let input = asset_accounts_amount_input(id, first, second, amount);
    lemma_value_round_trip::<u128>(
        Seq::empty(),
        id,
        first.bytes() + second.bytes() + amount.bytes(),
    );
    assert(Seq::<u8>::empty() + id.bytes() + (first.bytes() + second.bytes() + amount.bytes())
        =~= input);
    lemma_value_round_trip::<A>(id.bytes(), first, second.bytes() + amount.bytes());
    assert(id.bytes() + first.bytes() + (second.bytes() + amount.bytes()) =~= input);
    lemma_value_round_trip::<A>(id.bytes() + first.bytes(), second, amount.bytes());
    lemma_value_round_trip::<B>(
        id.bytes() + first.bytes() + second.bytes(),
        amount,
        Seq::empty(),
    );
    assert(id.bytes() + first.bytes() + second.bytes() + amount.bytes() + Seq::<u8>::empty()
        =~= input);
}

/// An answer with a status code other than `0` is a failure, whatever the
/// output holds; an answer with status code `0` is read from the output
/// alone.
pub proof fn lemma_status_before_output(status_code: u32, output: Seq<u8>)
    ensures
        status_code != 0 ==> fallible_outcome(status_code, output) is Err && fallible_outcome(
            status_code,
            output,
        ) == AssetsError::status_outcome(status_code),
        status_code == 0 ==> fallible_outcome(status_code, output) == unit_result_of(output),
{
}

/// A result without a value that is written as the format has it is read
/// again as it was.
pub proof fn lemma_unit_result_round_trip(result: Result<(), AssetsError>, after: Seq<u8>)
    ensures
        unit_result_of(unit_result_bytes(result) + after) == result,
{
    match result {
        Ok(unit) => {
            assert(unit == ());
            assert((seq![0u8] + after)[0] == 0u8);
        },
        Err(error) => {
            lemma_tag_round_trip(error);
            assert((seq![1u8, error.tag_of()] + after)[0] == 1u8);
            assert((seq![1u8, error.tag_of()] + after)[1] == error.tag_of());
        },
    }
}

/// The client of the asset family that the host numbers `ID`, for the host
/// environment `E`. It holds no state: every operation is one request and one
/// answer.
pub struct AssetsExtension<E, const ID: u16>(PhantomData<E>);

impl<E: Environment, const ID: u16> AssetsExtension<E, ID> {
    /// The identifier of the command with code `idx` in this family.
    pub fn get_func_id(idx: u16) -> (id: u32)
        ensures
            id == func_id_of(ID, idx),
    {
        encode_id(ID, idx)
    }

    fn asset_request(command: Command, id: u128) -> (request: Request)
        ensures
            request.func_id == func_id_of(ID, command.code_of()),
            request.input@ == asset_input(id),
    {
        let mut input: Vec<u8> = Vec::new();
        put_u128(&mut input, id);
        proof {
            assert(input@ =~= asset_input(id));
        }
        Request { func_id: Self::get_func_id(command.code()), input }
    }

    fn asset_account_amount_request(
        command: Command,
        id: u128,
        who: E::AccountId,
        amount: E::Balance,
    ) -> (request: Request)
        ensures
            request.func_id == func_id_of(ID, command.code_of()),
            request.input@ == asset_account_amount_input(id, who, amount),
    {
        let mut input: Vec<u8> = Vec::new();
        put_u128(&mut input, id);
        who.put(&mut input);
        amount.put(&mut input);
        proof {
            assert(input@ =~= asset_account_amount_input(id, who, amount));
        }
        Request { func_id: Self::get_func_id(command.code()), input }
    }

    /// Asks the host to move `amount` of asset `id` from the caller to `target`.
    pub fn transfer(id: u128, target: E::AccountId, amount: E::Balance) -> (request: Request)
        ensures
            request.func_id == func_id_of(ID, Command::Transfer.code_of()),
            request.input@ == asset_account_amount_input(id, target, amount),
    {
        Self::asset_account_amount_request(Command::Transfer, id, target, amount)
    }

    /// Asks the host to create `amount` of asset `id` for `beneficiary`.
    pub fn mint(id: u128, beneficiary: E::AccountId, amount: E::Balance) -> (request: Request)
        ensures
            request.func_id == func_id_of(ID, Command::Mint.code_of()),
            request.input@ == asset_account_amount_input(id, beneficiary, amount),
    {
        Self::asset_account_amount_request(Command::Mint, id, beneficiary, amount)
    }

    /// Asks the host to destroy `amount` of asset `id` held by `who`.
    pub fn burn(id: u128, who: E::AccountId, amount: E::Balance) -> (request: Request)
        ensures
            request.func_id == func_id_of(ID, Command::Burn.code_of()),
            request.input@ == asset_account_amount_input(id, who, amount),
    {
        Self::asset_account_amount_request(Command::Burn, id, who, amount)
    }

    /// Asks the host to let `delegate` move up to `amount` of asset `id` of the caller.
    pub fn approve_transfer(id: u128, delegate: E::AccountId, amount: E::Balance) -> (request: Request)
        ensures
            request.func_id == func_id_of(ID, Command::ApproveTransfer.code_of()),
            request.input@ == asset_account_amount_input(id, delegate, amount),
    {
        Self::asset_account_amount_request(Command::ApproveTransfer, id, delegate, amount)
    }

    /// Asks the host to move `amount` of asset `id` from `owner` to
    /// `destination`, on an approval that `owner` gave the caller.
    pub fn transfer_approved(
        id: u128,
        owner: E::AccountId,
        destination: E::AccountId,
        amount: E::Balance,
    ) -> (request: Request)
        ensures
            request.func_id == func_id_of(ID, Command::TransferApproved.code_of()),
            request.input@ == asset_accounts_amount_input(id, owner, destination, amount),
    {
        let mut input: Vec<u8> = Vec::new();
        put_u128(&mut input, id);
        owner.put(&mut input);
        destination.put(&mut input);
        amount.put(&mut input);
        proof {
            assert(input@ =~= asset_accounts_amount_input(id, owner, destination, amount));
        }
        Request { func_id: Self::get_func_id(Command::TransferApproved.code()), input }
    }

    /// Asks the host how much of asset `id` the account `who` holds.
    pub fn balance_of(id: u128, who: E::AccountId) -> (request: Request)
        ensures
            request.func_id == func_id_of(ID, Command::BalanceOf.code_of()),
            request.input@ == asset_account_input(id, who),
    {
        let mut input: Vec<u8> = Vec::new();
        put_u128(&mut input, id);
        who.put(&mut input);
        proof {
            assert(input@ =~= asset_account_input(id, who));
        }
        Request { func_id: Self::get_func_id(Command::BalanceOf.code()), input }
    }

    /// Asks the host how much of asset `id` of `owner` the account `delegate`
    /// may still move.
    pub fn allowance(id: u128, owner: E::AccountId, delegate: E::AccountId) -> (request: Request)
        ensures
            request.func_id == func_id_of(ID, Command::Allowance.code_of()),
            request.input@ == asset_accounts_input(id, owner, delegate),
    {
        let mut input: Vec<u8> = Vec::new();
        put_u128(&mut input, id);
        owner.put(&mut input);
        delegate.put(&mut input);
        proof {
            assert(input@ =~= asset_accounts_input(id, owner, delegate));
        }
        Request { func_id: Self::get_func_id(Command::Allowance.code()), input }
    }

    /// Asks the host how much of asset `id` exists.
    pub fn total_supply(id: u128) -> (request: Request)
        ensures
            request.func_id == func_id_of(ID, Command::TotalSupply.code_of()),
            request.input@ == asset_input(id),
    {
        Self::asset_request(Command::TotalSupply, id)
    }

    /// Asks the host for the name of asset `id`.
    pub fn metadata_name(id: u128) -> (request: Request)
        ensures
            request.func_id == func_id_of(ID, Command::MetadataName.code_of()),
            request.input@ == asset_input(id),
    {
        Self::asset_request(Command::MetadataName, id)
    }

    /// Asks the host for the symbol of asset `id`.
    pub fn metadata_symbol(id: u128) -> (request: Request)
        ensures
            request.func_id == func_id_of(ID, Command::MetadataSymbol.code_of()),
            request.input@ == asset_input(id),
    {
        Self::asset_request(Command::MetadataSymbol, id)
    }

    /// Asks the host for the number of decimals of asset `id`.
    pub fn metadata_decimals(id: u128) -> (request: Request)
        ensures
            request.func_id == func_id_of(ID, Command::MetadataDecimals.code_of()),
            request.input@ == asset_input(id),
    {
        Self::asset_request(Command::MetadataDecimals, id)
    }

    /// Asks the host for the least amount of asset `id` that an account may hold.
    pub fn minimum_balance(id: u128) -> (request: Request)
        ensures
            request.func_id == func_id_of(ID, Command::MinimumBalance.code_of()),
            request.input@ == asset_input(id),
    {
        Self::asset_request(Command::MinimumBalance, id)
    }
}

} // verus!
