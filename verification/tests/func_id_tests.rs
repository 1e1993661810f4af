use chain_extension_client::asset_contract::Mock;
use chain_extension_client::assets::{AssetsExtension, Command, ASSETS_FAMILY};
use chain_extension_client::environment::DefaultEnvironment;
use chain_extension_client::func_id::{decode_command, decode_family, encode_id};
use chain_extension_client::mapping_contract::UAMappingGetter;
use chain_extension_client::types::{AccountId, H160};
use chain_extension_client::unified_accounts::{
    Command as LookupCommand, UAExtension, UNIFIED_ACCOUNTS_FAMILY,
};

#[test]
fn id_packs_family_high_and_command_low() {
    assert_eq!(encode_id(2, 0), 0x0002_0000);
    assert_eq!(encode_id(2, 11), 0x0002_000b);
    assert_eq!(encode_id(3, 1), 0x0003_0001);
    assert_eq!(encode_id(1, 1), 0x0001_0001);
    assert_eq!(encode_id(0, 0), 0);
    assert_eq!(encode_id(0xffff, 0xffff), u32::MAX);
    assert_eq!(encode_id(0, 0xffff), 0x0000_ffff);
    assert_eq!(encode_id(0xffff, 0), 0xffff_0000);
}

#[test]
fn id_round_trips_on_a_grid_of_values() {
    let samples: [u16; 9] = [0, 1, 2, 3, 11, 255, 256, 0x7fff, 0xffff];
    for family in samples {
        for command in samples {
            let id = encode_id(family, command);
            assert_eq!(decode_family(id), family);
            assert_eq!(decode_command(id), command);
            assert_eq!(id, ((family as u32) << 16) | (command as u32));
        }
    }
}

#[test]
fn distinct_pairs_have_distinct_ids() {
    assert_ne!(encode_id(2, 3), encode_id(3, 2));
    assert_ne!(encode_id(1, 0), encode_id(0, 1));
    assert_ne!(encode_id(0, 0xffff), encode_id(1, 0));
}

#[test]
fn id_is_rebuilt_from_its_parts() {
    for id in [0u32, 1, 0x0002_0005, 0x0003_0003, 0xdead_beef, u32::MAX] {
        assert_eq!(encode_id(decode_family(id), decode_command(id)), id);
    }
}

#[test]
fn asset_command_codes_are_stable() {
    assert_eq!(Command::Transfer.code(), 0);
    assert_eq!(Command::TransferApproved.code(), 1);
    assert_eq!(Command::Mint.code(), 2);
    assert_eq!(Command::Burn.code(), 3);
    assert_eq!(Command::ApproveTransfer.code(), 4);
    assert_eq!(Command::BalanceOf.code(), 5);
    assert_eq!(Command::TotalSupply.code(), 6);
    assert_eq!(Command::Allowance.code(), 7);
    assert_eq!(Command::MetadataName.code(), 8);
    assert_eq!(Command::MetadataSymbol.code(), 9);
    assert_eq!(Command::MetadataDecimals.code(), 10);
    assert_eq!(Command::MinimumBalance.code(), 11);
}

#[test]
fn lookup_command_codes_are_stable() {
    assert_eq!(LookupCommand::GetEvmAddress.code(), 0);
    assert_eq!(LookupCommand::GetEvmAddressOrDefault.code(), 1);
    assert_eq!(LookupCommand::GetNativeAddress.code(), 2);
    assert_eq!(LookupCommand::GetNativeAddressOrDefault.code(), 3);
}

#[test]
fn family_numbers() {
    assert_eq!(ASSETS_FAMILY, 2);
    assert_eq!(UNIFIED_ACCOUNTS_FAMILY, 3);
    assert_eq!(AssetsExtension::<DefaultEnvironment, 2>::get_func_id(5), 0x0002_0005);
    assert_eq!(AssetsExtension::<DefaultEnvironment, 7>::get_func_id(5), 0x0007_0005);
    assert_eq!(UAExtension::<DefaultEnvironment, 3>::get_func_id(2), 0x0003_0002);
}

#[test]
fn families_never_share_an_id() {
    let who = AccountId { bytes: [9u8; 32] };
    let a = AssetsExtension::<DefaultEnvironment, 2>::balance_of(1, who);
    let b = AssetsExtension::<DefaultEnvironment, 4>::balance_of(1, who);
    assert_ne!(a.func_id, b.func_id);
    assert_eq!(a.input, b.input);
    assert_eq!(decode_family(b.func_id), 4);
    assert_eq!(decode_command(b.func_id), 5);
}

#[test]
fn asset_contract_uses_family_two() {
    let contract = Mock::new();
    let who = AccountId { bytes: [1u8; 32] };
    let other = AccountId { bytes: [2u8; 32] };
    assert_eq!(contract.transfer(1, who, 5).func_id, 0x0002_0000);
    assert_eq!(contract.transfer_approved(1, who, other, 5).func_id, 0x0002_0001);
    assert_eq!(contract.mint(1, who, 5).func_id, 0x0002_0002);
    assert_eq!(contract.burn(1, who, 5).func_id, 0x0002_0003);
    assert_eq!(contract.approve_transfer(1, who, 5).func_id, 0x0002_0004);
    assert_eq!(contract.balance_of(1, who).func_id, 0x0002_0005);
    assert_eq!(contract.total_supply(1).func_id, 0x0002_0006);
    assert_eq!(contract.allowance(1, who, other).func_id, 0x0002_0007);
    assert_eq!(contract.metadata_name(1).func_id, 0x0002_0008);
    assert_eq!(contract.metadata_symbol(1).func_id, 0x0002_0009);
    assert_eq!(contract.metadata_decimals(1).func_id, 0x0002_000a);
    assert_eq!(contract.minimum_balance(1).func_id, 0x0002_000b);
    assert_eq!(
        contract.transfer(1, who, 5),
        AssetsExtension::<DefaultEnvironment, 2>::transfer(1, who, 5)
    );
}

#[test]
fn mapping_contract_uses_family_three() {
    let contract = UAMappingGetter::new();
    let account = AccountId { bytes: [7u8; 32] };
    let address = H160 { bytes: [8u8; 20] };
    assert_eq!(contract.to_h160(account).func_id, 0x0003_0000);
    assert_eq!(contract.to_h160_or_default(account).func_id, 0x0003_0001);
    assert_eq!(contract.to_account_id(address).func_id, 0x0003_0002);
    assert_eq!(contract.to_account_id_or_default(address).func_id, 0x0003_0003);
    assert_eq!(contract.to_h160(account).input, vec![7u8; 32]);
    assert_eq!(contract.to_account_id(address).input, vec![8u8; 20]);
}
