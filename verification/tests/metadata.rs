use nft_minter::metadata::{
    decode_use_method, merge, CollectionRef, MetadataCreator, MetadataRecord,
    PartialMetadataPatch, UseMethod, UsesInfo,
};
use nft_minter::types::{Address, MinterError};

fn record() -> MetadataRecord {
    MetadataRecord {
        name: "Old name".to_string(),
        symbol: "OLD".to_string(),
        uri: "https://old.example/1.json".to_string(),
        seller_fee_basis_points: 750,
        creators: Some(vec![
            MetadataCreator { address: Address { bytes: [1; 32] }, verified: true, share: 60 },
            MetadataCreator { address: Address { bytes: [2; 32] }, verified: false, share: 40 },
        ]),
        collection: Some(CollectionRef { verified: true, key: Address { bytes: [3; 32] } }),
        uses: Some(UsesInfo { method: UseMethod::Single, remaining_uses: 1, total_uses: 1 }),
    }
}

fn nothing() -> PartialMetadataPatch {
    PartialMetadataPatch { name: None, symbol: None, uri: None }
}

#[test]
fn empty_patch_returns_the_record_unchanged() {
    assert_eq!(merge(&record(), nothing()), record());
}

#[test]
fn present_fields_replace_and_absent_fields_stay() {
    let patch = PartialMetadataPatch { name: Some("New".to_string()), symbol: None, uri: None };
    let merged = merge(&record(), patch);
    assert_eq!(merged.name, "New");
    assert_eq!(merged.symbol, "OLD");
    assert_eq!(merged.uri, "https://old.example/1.json");
}

#[test]
fn all_three_texts_can_be_replaced() {
    let patch = PartialMetadataPatch {
        name: Some("N".to_string()),
        symbol: Some("S".to_string()),
        uri: Some("U".to_string()),
    };
    let merged = merge(&record(), patch);
    let mut expected = record();
    expected.name = "N".to_string();
    expected.symbol = "S".to_string();
    expected.uri = "U".to_string();
    assert_eq!(merged, expected);
}

#[test]
fn fixed_fields_are_carried_over() {
    let patch = PartialMetadataPatch {
        name: Some(String::new()),
        symbol: None,
        uri: Some("x".to_string()),
    };
    let merged = merge(&record(), patch);
    assert_eq!(merged.name, "");
    assert_eq!(merged.seller_fee_basis_points, 750);
    assert_eq!(merged.creators, record().creators);
    assert_eq!(merged.collection, record().collection);
    assert_eq!(merged.uses, record().uses);
}

#[test]
fn record_without_optional_parts_stays_without_them() {
    let bare = MetadataRecord {
        name: "a".to_string(),
        symbol: "b".to_string(),
        uri: "c".to_string(),
        seller_fee_basis_points: 0,
        creators: None,
        collection: None,
        uses: None,
    };
    let merged = merge(&bare, PartialMetadataPatch { name: None, symbol: Some("z".to_string()), uri: None });
    assert_eq!(merged.creators, None);
    assert_eq!(merged.collection, None);
    assert_eq!(merged.uses, None);
    assert_eq!(merged.symbol, "z");
}

#[test]
fn merging_twice_equals_merging_once() {
    let patch = PartialMetadataPatch {
        name: Some("Again".to_string()),
        symbol: None,
        uri: Some("ipfs://again".to_string()),
    };
    let once = merge(&record(), patch.clone());
    let twice = merge(&once, patch);
    assert_eq!(twice, once);
}

#[test]
fn use_method_codes_decode() {
    assert_eq!(decode_use_method(0), Ok(UseMethod::Burn));
    assert_eq!(decode_use_method(1), Ok(UseMethod::Multiple));
    assert_eq!(decode_use_method(2), Ok(UseMethod::Single));
}

#[test]
fn unknown_use_method_codes_are_rejected() {
    assert_eq!(decode_use_method(3), Err(MinterError::InvalidUseMethodCode));
    assert_eq!(decode_use_method(255), Err(MinterError::InvalidUseMethodCode));
}
