use chain_extension_client::assets::{
    balance_reply, bytes_reply, decimals_reply, fallible_reply, try_balance_reply,
    try_bytes_reply, try_decimals_reply, unit_result, AssetsExtension,
};
use chain_extension_client::assets_error::AssetsError;
use chain_extension_client::environment::DefaultEnvironment;
use chain_extension_client::types::{AccountId, UnifiedAddress, H160};
use chain_extension_client::unified_accounts::{
    optional_reply, try_optional_reply, try_unified_reply, unified_reply,
};
use parity_scale_codec::Encode;

#[test]
fn transfer_with_status_one_is_balance_low() {
    let target = AccountId { bytes: [0x41; 32] };
    let request = AssetsExtension::<DefaultEnvironment, 2>::transfer(1, target, 100);
    assert_eq!(request.func_id, 0x0002_0000);
    assert_eq!(request.input, (1u128, [0x41u8; 32], 100u128).encode());
    assert_eq!(fallible_reply(1, &[]), Err(AssetsError::BalanceLow));
    assert_eq!(fallible_reply(1, &[0]), Err(AssetsError::BalanceLow));
    assert_eq!(fallible_reply(1, &[1, 3]), Err(AssetsError::BalanceLow));
}

#[test]
fn balance_query_returns_the_amount() {
    let who = AccountId { bytes: [0x41; 32] };
    let request = AssetsExtension::<DefaultEnvironment, 2>::balance_of(1, who);
    assert_eq!(request.func_id, 0x0002_0005);
    assert_eq!(request.input, (1u128, [0x41u8; 32]).encode());
    let output = 500u128.encode();
    assert_eq!(balance_reply::<u128>(0, &output), 500);
    assert_eq!(try_balance_reply::<u128>(0, &output), Some(500));
}

#[test]
fn fallible_reply_reads_status_first() {
    assert_eq!(fallible_reply(0, &[0]), Ok(()));
    assert_eq!(fallible_reply(4, &[0]), Err(AssetsError::Unknown));
    assert_eq!(fallible_reply(99, &[0]), Err(AssetsError::RuntimeError));
    assert_eq!(fallible_reply(250, &[0]), Err(AssetsError::UnknownStatusCode));
    assert_eq!(fallible_reply(250, &[]), Err(AssetsError::UnknownStatusCode));
    assert_eq!(fallible_reply(100, &[0]), Err(AssetsError::UnknownStatusCode));
    assert_eq!(fallible_reply(u32::MAX, &[1, 1]), Err(AssetsError::UnknownStatusCode));
}

#[test]
fn fallible_reply_reads_the_output_on_status_zero() {
    assert_eq!(fallible_reply(0, &[0, 9, 9]), Ok(()));
    assert_eq!(fallible_reply(0, &[1, 1]), Err(AssetsError::BalanceLow));
    assert_eq!(fallible_reply(0, &[1, 3]), Err(AssetsError::NoPermission));
    assert_eq!(fallible_reply(0, &[1, 20, 0]), Err(AssetsError::CallbackFailed));
    assert_eq!(fallible_reply(0, &[1, 99]), Err(AssetsError::RuntimeError));
    assert_eq!(fallible_reply(0, &[1, 21]), Err(AssetsError::UnknownStatusCode));
    assert_eq!(fallible_reply(0, &[1, 22]), Err(AssetsError::InvalidScaleEncoding));
}

#[test]
fn fallible_reply_with_bad_output_is_invalid_encoding() {
    assert_eq!(fallible_reply(0, &[]), Err(AssetsError::InvalidScaleEncoding));
    assert_eq!(fallible_reply(0, &[1]), Err(AssetsError::InvalidScaleEncoding));
    assert_eq!(fallible_reply(0, &[2]), Err(AssetsError::InvalidScaleEncoding));
    assert_eq!(fallible_reply(0, &[255, 0]), Err(AssetsError::InvalidScaleEncoding));
    assert_eq!(fallible_reply(0, &[1, 0]), Err(AssetsError::InvalidScaleEncoding));
    assert_eq!(fallible_reply(0, &[1, 23]), Err(AssetsError::InvalidScaleEncoding));
    assert_eq!(fallible_reply(0, &[1, 100]), Err(AssetsError::InvalidScaleEncoding));
    assert_eq!(fallible_reply(0, &[1, 101]), Err(AssetsError::InvalidScaleEncoding));
    assert_eq!(fallible_reply(0, &[1, 250]), Err(AssetsError::InvalidScaleEncoding));
}

#[test]
fn unit_result_agrees_with_the_codec_on_success() {
    let ok: Result<(), u8> = Ok(());
    assert_eq!(unit_result(&ok.encode()), Ok(()));
    for code in 0u8..=255 {
        let failure: Result<(), u8> = Err(code);
        let expected = match AssetsError::from_tag(code) {
            Some(error) => Err(error),
            None => Err(AssetsError::InvalidScaleEncoding),
        };
        assert_eq!(unit_result(&failure.encode()), expected);
    }
}

#[test]
fn balance_reply_edges() {
    assert_eq!(balance_reply::<u128>(0, &0u128.encode()), 0);
    assert_eq!(balance_reply::<u128>(0, &u128::MAX.encode()), u128::MAX);
    let mut long = 7u128.encode();
    long.push(0xff);
    assert_eq!(balance_reply::<u128>(0, &long), 7);
    assert_eq!(try_balance_reply::<u128>(0, &long), Some(7));
    assert_eq!(try_balance_reply::<u128>(0, &[0u8; 15]), None);
    assert_eq!(try_balance_reply::<u128>(0, &[]), None);
    assert_eq!(try_balance_reply::<u128>(1, &500u128.encode()), None);
    assert_eq!(try_balance_reply::<u128>(250, &500u128.encode()), None);
}

#[test]
fn bytes_reply_reads_a_length_and_the_bytes() {
    assert_eq!(bytes_reply(0, &[12, b'A', b'B', b'C']), b"ABC".to_vec());
    assert_eq!(try_bytes_reply(0, &[12, b'A', b'B', b'C']), Some(b"ABC".to_vec()));
    assert_eq!(bytes_reply(0, &[0]), Vec::<u8>::new());
    assert_eq!(try_bytes_reply(0, &[0]), Some(Vec::new()));
    assert_eq!(try_bytes_reply(0, &[4, 9, 8, 7]), Some(vec![9]));
    let name = b"Wrapped Token".to_vec();
    assert_eq!(bytes_reply(0, &name.encode()), name);
    let long = vec![0x5au8; 300];
    assert_eq!(try_bytes_reply(0, &long.encode()), Some(long));
}

#[test]
fn bytes_reply_faults() {
    assert_eq!(try_bytes_reply(0, &[]), None);
    assert_eq!(try_bytes_reply(0, &[12, b'A', b'B']), None);
    assert_eq!(try_bytes_reply(0, &[8, 1]), None);
    assert_eq!(try_bytes_reply(1, &[12, b'A', b'B', b'C']), None);
    assert_eq!(try_bytes_reply(99, &[0]), None);
}

#[test]
fn decimals_reply_reads_one_byte() {
    assert_eq!(decimals_reply(0, &[18]), 18);
    assert_eq!(decimals_reply(0, &[0]), 0);
    assert_eq!(decimals_reply(0, &[255, 1]), 255);
    assert_eq!(try_decimals_reply(0, &12u8.encode()), Some(12));
    assert_eq!(try_decimals_reply(0, &[]), None);
    assert_eq!(try_decimals_reply(3, &[18]), None);
}

#[test]
fn optional_none_is_absent() {
    assert_eq!(optional_reply::<H160>(0, &[0]), None);
    assert_eq!(optional_reply::<AccountId>(0, &[0]), None);
    assert_eq!(try_optional_reply::<H160>(0, &[0]), Some(None));
    assert_eq!(try_optional_reply::<AccountId>(0, &[0, 1, 2]), Some(None));
    let none: Option<[u8; 20]> = None;
    assert_eq!(optional_reply::<H160>(0, &none.encode()), None);
}

#[test]
fn optional_some_is_the_value_unchanged() {
    let mut bytes = [0u8; 20];
    for (at, b) in bytes.iter_mut().enumerate() {
        *b = at as u8 + 1;
    }
    let output = Some(bytes).encode();
    assert_eq!(output.len(), 21);
    assert_eq!(optional_reply::<H160>(0, &output), Some(H160 { bytes }));
    assert_eq!(try_optional_reply::<H160>(0, &output), Some(Some(H160 { bytes })));

    let mut bytes = [0u8; 32];
    for (at, b) in bytes.iter_mut().enumerate() {
        *b = 0xff - at as u8;
    }
    let output = Some(bytes).encode();
    assert_eq!(output.len(), 33);
    assert_eq!(optional_reply::<AccountId>(0, &output), Some(AccountId { bytes }));
    assert_eq!(try_optional_reply::<AccountId>(0, &output), Some(Some(AccountId { bytes })));
}

#[test]
fn optional_faults() {
    assert_eq!(try_optional_reply::<H160>(0, &[]), None);
    assert_eq!(try_optional_reply::<H160>(0, &[2]), None);
    assert_eq!(try_optional_reply::<H160>(0, &[1]), None);
    assert_eq!(try_optional_reply::<H160>(0, &[1u8; 20]), None);
    assert_eq!(try_optional_reply::<H160>(1, &[0]), None);
    assert_eq!(try_optional_reply::<AccountId>(0, &[1u8; 32]), None);
    assert_eq!(try_optional_reply::<AccountId>(0, &[255]), None);
    assert_eq!(try_optional_reply::<AccountId>(7, &[1u8; 33]), None);
    let mut ok = vec![1u8];
    ok.extend_from_slice(&[3u8; 32]);
    assert_eq!(
        try_optional_reply::<AccountId>(0, &ok),
        Some(Some(AccountId { bytes: [3u8; 32] }))
    );
}

#[test]
fn unified_reply_keeps_how_the_address_was_found() {
    let mut mapped = vec![0u8];
    mapped.extend_from_slice(&[0x33; 20]);
    let mut derived = vec![1u8];
    derived.extend_from_slice(&[0x44; 20]);
    assert_eq!(
        unified_reply::<H160>(0, &mapped),
        UnifiedAddress::Mapped(H160 { bytes: [0x33; 20] })
    );
    assert_eq!(
        unified_reply::<H160>(0, &derived),
        UnifiedAddress::Default(H160 { bytes: [0x44; 20] })
    );
    assert_eq!(
        try_unified_reply::<H160>(0, &derived),
        Some(UnifiedAddress::Default(H160 { bytes: [0x44; 20] }))
    );
    let mut account = vec![1u8];
    account.extend_from_slice(&[0x55; 32]);
    account.push(0);
    assert_eq!(
        unified_reply::<AccountId>(0, &account),
        UnifiedAddress::Default(AccountId { bytes: [0x55; 32] })
    );
    account[0] = 0;
    assert_eq!(
        try_unified_reply::<AccountId>(0, &account),
        Some(UnifiedAddress::Mapped(AccountId { bytes: [0x55; 32] }))
    );
}

#[test]
fn unified_reply_collapses_to_the_address() {
    let found = UnifiedAddress::Mapped(H160 { bytes: [1; 20] });
    let derived = UnifiedAddress::Default(H160 { bytes: [2; 20] });
    assert!(found.is_mapped());
    assert!(!derived.is_mapped());
    assert_eq!(found.into_address(), H160 { bytes: [1; 20] });
    assert_eq!(derived.into_address(), H160 { bytes: [2; 20] });
}

#[test]
fn unified_faults() {
    assert_eq!(try_unified_reply::<H160>(0, &[]), None);
    assert_eq!(try_unified_reply::<H160>(0, &[0]), None);
    assert_eq!(try_unified_reply::<H160>(0, &[0u8; 20]), None);
    assert_eq!(try_unified_reply::<H160>(0, &[2u8; 21]), None);
    assert_eq!(try_unified_reply::<H160>(5, &[0u8; 21]), None);
    assert_eq!(try_unified_reply::<AccountId>(0, &[1u8; 32]), None);
    assert_eq!(try_unified_reply::<AccountId>(0, &[9u8; 33]), None);
    assert_eq!(try_unified_reply::<AccountId>(1, &[1u8; 33]), None);
}

#[test]
fn bytes_reply_at_the_edges_of_the_length_forms() {
    for len in [0usize, 1, 63, 64, 65, 16383, 16384, 16385, 70000] {
        let mut name = vec![0u8; len];
        for (at, b) in name.iter_mut().enumerate() {
            *b = (at % 251) as u8;
        }
        let mut output = name.encode();
        assert_eq!(try_bytes_reply(0, &output), Some(name.clone()));
        output.push(0xee);
        assert_eq!(bytes_reply(0, &output), name);
        if len > 0 {
            output.truncate(output.len() - 2);
            assert_eq!(try_bytes_reply(0, &output), None);
        }
    }
}

#[test]
fn bytes_reply_refuses_a_length_that_is_not_in_its_shortest_form() {
    assert_eq!(try_bytes_reply(0, &[0x01, 0x00]), None);
    assert_eq!(try_bytes_reply(0, &[0xfd, 0x00]), None);
    assert_eq!(try_bytes_reply(0, &[0x02, 0x00, 0x00, 0x00]), None);
    assert_eq!(try_bytes_reply(0, &[0x03, 0x01, 0x00, 0x00, 0x00, 7]), None);
    assert_eq!(try_bytes_reply(0, &[0x07, 0xff, 0xff, 0xff, 0xff, 0xff]), None);
    assert_eq!(try_bytes_reply(0, &[0x01]), None);
    assert_eq!(try_bytes_reply(0, &[0x02, 0x00, 0x01]), None);
    assert_eq!(try_bytes_reply(0, &[0x03, 0xff, 0xff, 0xff, 0xff]), None);
}
