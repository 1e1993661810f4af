use chain_extension_client::assets_error::AssetsError;
use chain_extension_client::dummy_error::{DummyError, RevertError};
use chain_extension_client::xvm::{XvmCallError, MAX_STATUS};

fn asset_table() -> Vec<(u32, AssetsError)> {
    vec![
        (1, AssetsError::BalanceLow),
        (2, AssetsError::NoAccount),
        (3, AssetsError::NoPermission),
        (4, AssetsError::Unknown),
        (5, AssetsError::Frozen),
        (6, AssetsError::InUse),
        (7, AssetsError::BadWitness),
        (8, AssetsError::MinBalanceZero),
        (9, AssetsError::UnavailableConsumer),
        (10, AssetsError::BadMetadata),
        (11, AssetsError::Unapproved),
        (12, AssetsError::WouldDie),
        (13, AssetsError::AlreadyExists),
        (14, AssetsError::NoDeposit),
        (15, AssetsError::WouldBurn),
        (16, AssetsError::LiveAsset),
        (17, AssetsError::AssetNotLive),
        (18, AssetsError::IncorrectStatus),
        (19, AssetsError::NotFrozen),
        (20, AssetsError::CallbackFailed),
        (99, AssetsError::RuntimeError),
    ]
}

#[test]
fn asset_status_zero_is_success() {
    assert_eq!(AssetsError::from_status_code(0), Ok(()));
}

#[test]
fn asset_status_table_is_complete() {
    for (code, error) in asset_table() {
        assert_eq!(AssetsError::from_status_code(code), Err(error));
    }
}

#[test]
fn asset_status_outside_the_table_is_unknown() {
    for code in [21u32, 50, 98, 100, 101, 102, 250, 255, 256, 65536, u32::MAX] {
        assert_eq!(
            AssetsError::from_status_code(code),
            Err(AssetsError::UnknownStatusCode)
        );
    }
}

#[test]
fn asset_status_sweep_matches_the_table() {
    let table = asset_table();
    for code in 0u32..=300 {
        let expected = if code == 0 {
            Ok(())
        } else {
            match table.iter().find(|(c, _)| *c == code) {
                Some((_, error)) => Err(*error),
                None => Err(AssetsError::UnknownStatusCode),
            }
        };
        assert_eq!(AssetsError::from_status_code(code), expected);
    }
}

#[test]
fn asset_error_tags_of_enumerated_failures_are_the_status_codes() {
    for (code, error) in asset_table() {
        assert_eq!(error.tag() as u32, code);
        assert_eq!(AssetsError::from_tag(code as u8), Some(error));
    }
}

#[test]
fn asset_error_tags_of_the_two_failures_without_a_status_code() {
    assert_eq!(AssetsError::UnknownStatusCode.tag(), 21);
    assert_eq!(AssetsError::InvalidScaleEncoding.tag(), 22);
    assert_eq!(AssetsError::from_tag(21), Some(AssetsError::UnknownStatusCode));
    assert_eq!(AssetsError::from_tag(22), Some(AssetsError::InvalidScaleEncoding));
    assert_eq!(AssetsError::from_tag(100), None);
    assert_eq!(AssetsError::from_tag(101), None);
    assert_eq!(
        AssetsError::from_status_code(21),
        Err(AssetsError::UnknownStatusCode)
    );
    assert_eq!(
        AssetsError::from_status_code(22),
        Err(AssetsError::UnknownStatusCode)
    );
}

#[test]
fn asset_error_tags_round_trip() {
    let mut found = 0;
    for tag in 0u8..=255 {
        if let Some(error) = AssetsError::from_tag(tag) {
            assert_eq!(error.tag(), tag);
            found += 1;
        }
    }
    assert_eq!(found, 23);
    assert_eq!(AssetsError::from_tag(0), None);
    assert_eq!(AssetsError::from_tag(23), None);
    assert_eq!(AssetsError::from_tag(98), None);
    assert_eq!(AssetsError::from_tag(102), None);
}

#[test]
fn codec_error_becomes_invalid_encoding() {
    let error = parity_scale_codec::Error::from("broken");
    assert_eq!(AssetsError::from(error), AssetsError::InvalidScaleEncoding);
}

#[test]
fn xvm_status_table() {
    assert_eq!(XvmCallError::from_status_code(0), Ok(()));
    assert_eq!(XvmCallError::from_status_code(1), Err(XvmCallError::InvalidVmId));
    assert_eq!(
        XvmCallError::from_status_code(2),
        Err(XvmCallError::SameVmCallNotAllowed)
    );
    assert_eq!(XvmCallError::from_status_code(3), Err(XvmCallError::InvalidTarget));
    assert_eq!(XvmCallError::from_status_code(4), Err(XvmCallError::InputTooLarge));
    assert_eq!(XvmCallError::from_status_code(5), Err(XvmCallError::BadOrigin));
    assert_eq!(XvmCallError::from_status_code(6), Err(XvmCallError::ExecutionFailed));
}

#[test]
fn xvm_status_sweep() {
    assert_eq!(MAX_STATUS, 6);
    let mut failures = 0;
    for code in 0..=MAX_STATUS {
        match XvmCallError::from_status_code(code) {
            Ok(()) => assert_eq!(code, 0),
            Err(error) => {
                assert_eq!(error.tag() as u32 + 1, code);
                assert_ne!(error, XvmCallError::UnknownStatusCode);
                failures += 1;
            }
        }
    }
    assert_eq!(failures, 6);
}

#[test]
fn xvm_status_above_the_table_is_unknown() {
    for code in [7u32, 8, 100, 250, 255, 256, 65536, u32::MAX] {
        assert_eq!(
            XvmCallError::from_status_code(code),
            Err(XvmCallError::UnknownStatusCode)
        );
    }
}

#[test]
fn xvm_tags_are_the_places_in_the_declaration() {
    let all = [
        XvmCallError::InvalidVmId,
        XvmCallError::SameVmCallNotAllowed,
        XvmCallError::InvalidTarget,
        XvmCallError::InputTooLarge,
        XvmCallError::BadOrigin,
        XvmCallError::ExecutionFailed,
        XvmCallError::UnknownStatusCode,
    ];
    for (at, error) in all.iter().enumerate() {
        assert_eq!(error.tag(), at as u8);
        assert_eq!(XvmCallError::from_tag(at as u8), Some(*error));
    }
    for tag in 7u8..=255 {
        assert_eq!(XvmCallError::from_tag(tag), None);
    }
}

#[test]
fn revert_always_fails_with_tag_seven() {
    let contract = DummyError::new();
    assert_eq!(contract.do_revert(), Err(RevertError::DummyError));
    assert_eq!(RevertError::DummyError.tag(), 7);
    assert_eq!(RevertError::from_tag(7), Some(RevertError::DummyError));
    assert_eq!(RevertError::from_tag(0), None);
    assert_eq!(RevertError::from_tag(1), None);
    assert_eq!(RevertError::from_tag(8), None);
}
