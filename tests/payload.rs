use nodle_submit::payload::{
    build_fee_asset, committee_threshold, decode_transact, envelope_hex, surplus_beneficiary,
    AssetId, Fungibility, Junction, Junctions, MultiAsset, MultiLocation, TransactError,
    DOT_DECIMALS, NODL_DECIMALS, POT_FEE_QUOTA, POT_RESERVE_QUOTA, USER_FEE_QUOTA,
    USER_RESERVE_QUOTA,
};

#[test]
fn fee_asset_is_native_fungible() {
    assert_eq!(
        build_fee_asset(DOT_DECIMALS),
        MultiAsset {
            id: AssetId::Concrete(MultiLocation { parents: 0, interior: Junctions::Here }),
            fun: Fungibility::Fungible(10_000_000_000),
        }
    );
    assert_eq!(build_fee_asset(0).fun, Fungibility::Fungible(0));
}

#[test]
fn beneficiary_is_nodle_parachain() {
    assert_eq!(
        surplus_beneficiary(),
        MultiLocation { parents: 0, interior: Junctions::X1(Junction::Parachain(2026)) }
    );
}

#[test]
fn sponsorship_amounts() {
    assert_eq!(NODL_DECIMALS, 100_000_000_000);
    assert_eq!(POT_FEE_QUOTA, 12_300_000_000_000);
    assert_eq!(POT_RESERVE_QUOTA, 900_000_000_000);
    assert_eq!(USER_FEE_QUOTA, 4_300_000_000_000);
    assert_eq!(USER_RESERVE_QUOTA, 700_000_000_000);
}

#[test]
fn threshold_is_strict_majority() {
    assert_eq!(committee_threshold(0), 1);
    assert_eq!(committee_threshold(1), 1);
    assert_eq!(committee_threshold(4), 3);
    assert_eq!(committee_threshold(5), 3);
}

#[test]
fn transact_hex_decodes() {
    assert_eq!(
        decode_transact("4603ea070000d0070000").unwrap(),
        vec![0x46, 0x03, 0xea, 0x07, 0x00, 0x00, 0xd0, 0x07, 0x00, 0x00]
    );
    assert_eq!(decode_transact("ABcd").unwrap(), vec![0xab, 0xcd]);
    assert_eq!(decode_transact("").unwrap(), Vec::<u8>::new());
}

#[test]
fn transact_hex_errors() {
    assert_eq!(decode_transact("123"), Err(TransactError::OddLength));
    assert_eq!(decode_transact("zz"), Err(TransactError::InvalidHexCharacter));
    assert_eq!(decode_transact("0x12"), Err(TransactError::InvalidHexCharacter));
}

#[test]
fn envelope_hex_is_prefixed_lowercase() {
    assert_eq!(envelope_hex(&[0x00, 0xff, 0x1a]), "0x00ff1a");
    assert_eq!(envelope_hex(&[]), "0x");
}
