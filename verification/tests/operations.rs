use nft_minter::accounts::{Bumps, CreateAssetWithPlugins, ManageAssetPlugins, UpdateMetadata};
use nft_minter::advanced::{CreateProgrammableNFT, CreateUtilityNFT};
use nft_minter::metadata::{MetadataCreator, MetadataRecord, UseMethod, UsesInfo};
use nft_minter::plugin::{
    decode_plugin_type, royalties_plugin, Plugin, PluginType, Royalties, RuleSet,
};
use nft_minter::program::{
    add_burn_delegate_plugin, create_asset_with_royalties, create_asset_with_transfer_delegate,
    create_programmable_nft, create_utility_nft, derive_program_authority, remove_plugin,
    update_metadata, update_royalties_plugin, Context,
};
use nft_minter::request::{AtomicUnit, LedgerAccounts, LedgerRequest, RegistryAction};
use nft_minter::royalty::Creator;
use nft_minter::types::{Address, MinterError};

fn address(tag: u8) -> Address {
    Address { bytes: [tag; 32] }
}

fn program_id() -> Address {
    address(77)
}

fn bump() -> u8 {
    derive_program_authority(&program_id()).unwrap().bump
}

fn authority() -> Address {
    derive_program_authority(&program_id()).unwrap().identity
}

fn creation() -> Context<CreateAssetWithPlugins> {
    Context {
        program_id: program_id(),
        accounts: CreateAssetWithPlugins {
            asset: address(1),
            collection: address(2),
            owner: address(3),
            payer: address(4),
            mint_authority: address(5),
            system_program: address(6),
            mpl_core_program: address(7),
        },
    }
}

fn management() -> Context<ManageAssetPlugins> {
    Context {
        program_id: program_id(),
        accounts: ManageAssetPlugins {
            asset: address(1),
            collection: address(2),
            authority: address(3),
            payer: address(4),
            mint_authority: address(5),
            system_program: address(6),
            mpl_core_program: address(7),
        },
    }
}

fn plugin_accounts() -> LedgerAccounts {
    LedgerAccounts {
        asset: address(1),
        collection: Some(address(2)),
        payer: address(4),
        authority: Some(authority()),
        system_program: address(6),
    }
}

fn create_request(name: &str, uri: &str) -> LedgerRequest {
    LedgerRequest::Create {
        accounts: LedgerAccounts {
            asset: address(1),
            collection: Some(address(2)),
            payer: address(4),
            authority: None,
            system_program: address(6),
        },
        owner: Some(address(3)),
        name: name.to_string(),
        uri: uri.to_string(),
    }
}

#[test]
fn asset_with_royalties_is_created_then_given_one_royalties_plugin() {
    let c1 = address(21);
    let c2 = address(22);
    let unit = create_asset_with_royalties(
        creation(),
        "A".to_string(),
        "u".to_string(),
        500,
        vec![c1, c2],
    )
    .unwrap();
    let expected = AtomicUnit {
        signer_bump: bump(),
        requests: vec![
            create_request("A", "u"),
            LedgerRequest::AddPlugin {
                accounts: plugin_accounts(),
                plugin: Plugin::Royalties(Royalties {
                    basis_points: 500,
                    creators: vec![
                        Creator { address: c1, percentage: 50 },
                        Creator { address: c2, percentage: 50 },
                    ],
                    rule_set: RuleSet::Unconstrained,
                }),
                init_authority: None,
            },
        ],
    };
    assert_eq!(unit, expected);
}

#[test]
fn requests_name_the_derived_identity_as_authority() {
    assert_ne!(authority(), address(5));
    let unit = add_burn_delegate_plugin(management(), address(31)).unwrap();
    match &unit.requests[0] {
        LedgerRequest::AddPlugin { accounts, .. } => {
            assert_eq!(accounts.authority, Some(authority()));
        }
        other => panic!("unexpected request {:?}", other),
    }
}

#[test]
fn asset_with_royalties_rejects_an_empty_creator_list() {
    let r = create_asset_with_royalties(creation(), "A".to_string(), "u".to_string(), 500, vec![]);
    assert_eq!(r, Err(MinterError::InvalidCreatorCount));
}

#[test]
fn asset_with_royalties_rejects_excessive_basis_points() {
    let r = create_asset_with_royalties(
        creation(),
        "A".to_string(),
        "u".to_string(),
        10001,
        vec![address(21)],
    );
    assert_eq!(r, Err(MinterError::InvalidBasisPoints));
}

#[test]
fn asset_with_transfer_delegate_hands_the_plugin_to_the_delegate() {
    let delegate = address(30);
    let unit = create_asset_with_transfer_delegate(
        creation(),
        "Name".to_string(),
        "uri".to_string(),
        delegate,
    )
    .unwrap();
    assert_eq!(unit.signer_bump, bump());
    assert_eq!(
        unit.requests,
        vec![
            create_request("Name", "uri"),
            LedgerRequest::AddPlugin {
                accounts: plugin_accounts(),
                plugin: Plugin::TransferDelegate,
                init_authority: Some(delegate),
            },
        ]
    );
}

#[test]
fn creation_always_precedes_attachment() {
    let with_royalties = create_asset_with_royalties(
        creation(),
        "A".to_string(),
        "u".to_string(),
        1,
        vec![address(9)],
    )
    .unwrap();
    let with_delegate =
        create_asset_with_transfer_delegate(creation(), "A".to_string(), "u".to_string(), address(9))
            .unwrap();
    for unit in [with_royalties, with_delegate] {
        assert_eq!(unit.requests.len(), 2);
        assert!(matches!(unit.requests[0], LedgerRequest::Create { .. }));
        assert!(matches!(unit.requests[1], LedgerRequest::AddPlugin { .. }));
    }
}

#[test]
fn burn_delegate_is_added_under_the_delegate() {
    let delegate = address(31);
    let unit = add_burn_delegate_plugin(management(), delegate).unwrap();
    assert_eq!(
        unit,
        AtomicUnit {
            signer_bump: bump(),
            requests: vec![LedgerRequest::AddPlugin {
                accounts: plugin_accounts(),
                plugin: Plugin::BurnDelegate,
                init_authority: Some(delegate),
            }],
        }
    );
}

#[test]
fn remove_plugin_maps_each_code_to_its_variant() {
    let cases = [
        (0u8, PluginType::Royalties),
        (1u8, PluginType::TransferDelegate),
        (2u8, PluginType::BurnDelegate),
    ];
    for (code, plugin_type) in cases {
        let unit = remove_plugin(management(), code).unwrap();
        assert_eq!(
            unit,
            AtomicUnit {
                signer_bump: bump(),
                requests: vec![LedgerRequest::RemovePlugin {
                    accounts: plugin_accounts(),
                    plugin_type,
                }],
            }
        );
    }
}

#[test]
fn remove_plugin_rejects_code_five() {
    assert_eq!(remove_plugin(management(), 5), Err(MinterError::InvalidPluginTypeCode));
}

#[test]
fn remove_plugin_rejects_every_unknown_code() {
    for code in 3u8..=255 {
        assert_eq!(remove_plugin(management(), code), Err(MinterError::InvalidPluginTypeCode));
    }
}

#[test]
fn plugin_type_codes_decode() {
    assert_eq!(decode_plugin_type(0), Ok(PluginType::Royalties));
    assert_eq!(decode_plugin_type(1), Ok(PluginType::TransferDelegate));
    assert_eq!(decode_plugin_type(2), Ok(PluginType::BurnDelegate));
    assert_eq!(decode_plugin_type(3), Err(MinterError::InvalidPluginTypeCode));
}

#[test]
fn plugin_knows_its_type() {
    let royalties = royalties_plugin(&vec![address(1)], 10).unwrap();
    assert_eq!(royalties.plugin_type(), PluginType::Royalties);
    assert_eq!(Plugin::TransferDelegate.plugin_type(), PluginType::TransferDelegate);
    assert_eq!(Plugin::BurnDelegate.plugin_type(), PluginType::BurnDelegate);
}

#[test]
fn royalties_update_recomputes_the_split() {
    let unit =
        update_royalties_plugin(management(), 250, vec![address(1), address(2), address(3)])
            .unwrap();
    assert_eq!(
        unit,
        AtomicUnit {
            signer_bump: bump(),
            requests: vec![LedgerRequest::UpdatePlugin {
                accounts: plugin_accounts(),
                plugin: Plugin::Royalties(Royalties {
                    basis_points: 250,
                    creators: vec![
                        Creator { address: address(1), percentage: 33 },
                        Creator { address: address(2), percentage: 33 },
                        Creator { address: address(3), percentage: 33 },
                    ],
                    rule_set: RuleSet::Unconstrained,
                }),
            }],
        }
    );
}

#[test]
fn royalties_update_validates_its_arguments() {
    assert_eq!(
        update_royalties_plugin(management(), 250, vec![]),
        Err(MinterError::InvalidCreatorCount)
    );
    assert_eq!(
        update_royalties_plugin(management(), 20000, vec![address(1)]),
        Err(MinterError::InvalidBasisPoints)
    );
}

fn current_record() -> MetadataRecord {
    MetadataRecord {
        name: "Current".to_string(),
        symbol: "CUR".to_string(),
        uri: "https://example/current".to_string(),
        seller_fee_basis_points: 300,
        creators: Some(vec![MetadataCreator { address: address(8), verified: true, share: 100 }]),
        collection: None,
        uses: None,
    }
}

fn update() -> Context<UpdateMetadata> {
    Context {
        program_id: program_id(),
        accounts: UpdateMetadata {
            metadata: address(40),
            current: current_record(),
            mint: address(41),
            mint_authority: address(5),
            authority: address(42),
            system_program: address(6),
            token_metadata_program: address(43),
        },
    }
}

#[test]
fn metadata_update_replaces_the_whole_record() {
    let request = update_metadata(update(), None, Some("NEW".to_string()), None).unwrap();
    let mut record = current_record();
    record.symbol = "NEW".to_string();
    assert_eq!(request.signer_bump, bump());
    assert_eq!(request.action, RegistryAction::Replace);
    assert_eq!(request.metadata, address(40));
    assert_eq!(request.authority, authority());
    assert_eq!(request.record, record);
}

#[test]
fn metadata_update_without_fields_keeps_the_record() {
    let request = update_metadata(update(), None, None, None).unwrap();
    assert_eq!(request.record, current_record());
}

#[test]
fn utility_asset_carries_its_uses() {
    let ctx = Context {
        program_id: program_id(),
        accounts: CreateUtilityNFT {
            metadata: address(50),
            mint: address(51),
            mint_authority: address(5),
            payer: address(4),
        },
    };
    let request =
        create_utility_nft(ctx, "T".to_string(), "TK".to_string(), "u".to_string(), 1, 10, 10)
            .unwrap();
    assert_eq!(request.action, RegistryAction::Create);
    assert_eq!(request.signer_bump, bump());
    assert_eq!(request.metadata, address(50));
    assert_eq!(request.authority, authority());
    assert_eq!(
        request.record,
        MetadataRecord {
            name: "T".to_string(),
            symbol: "TK".to_string(),
            uri: "u".to_string(),
            seller_fee_basis_points: 0,
            creators: None,
            collection: None,
            uses: Some(UsesInfo {
                method: UseMethod::Multiple,
                remaining_uses: 10,
                total_uses: 10
            }),
        }
    );
}

#[test]
fn utility_asset_maps_each_code_to_its_method() {
    let cases = [(0u8, UseMethod::Burn), (1u8, UseMethod::Multiple), (2u8, UseMethod::Single)];
    for (code, method) in cases {
        let ctx = Context {
            program_id: program_id(),
            accounts: CreateUtilityNFT {
                metadata: address(50),
                mint: address(51),
                mint_authority: address(5),
                payer: address(4),
            },
        };
        let request =
            create_utility_nft(ctx, String::new(), String::new(), String::new(), code, 3, 7)
                .unwrap();
        assert_eq!(
            request.record.uses,
            Some(UsesInfo { method, remaining_uses: 3, total_uses: 7 })
        );
    }
}

#[test]
fn utility_asset_rejects_unknown_method_codes() {
    let ctx = Context {
        program_id: program_id(),
        accounts: CreateUtilityNFT {
            metadata: address(50),
            mint: address(51),
            mint_authority: address(5),
            payer: address(4),
        },
    };
    let r = create_utility_nft(ctx, String::new(), String::new(), String::new(), 3, 1, 1);
    assert_eq!(r, Err(MinterError::InvalidUseMethodCode));
}

#[test]
fn programmable_asset_carries_fee_and_creators() {
    let ctx = Context {
        program_id: program_id(),
        accounts: CreateProgrammableNFT {
            metadata: address(60),
            mint: address(61),
            mint_authority: address(5),
            payer: address(4),
        },
    };
    let request = create_programmable_nft(
        ctx,
        "P".to_string(),
        "PR".to_string(),
        "u".to_string(),
        900,
        vec![address(1), address(2), address(3), address(4)],
    )
    .unwrap();
    assert_eq!(request.action, RegistryAction::Create);
    assert_eq!(request.record.seller_fee_basis_points, 900);
    assert_eq!(
        request.record.creators,
        Some(
            (1u8..=4)
                .map(|tag| MetadataCreator { address: address(tag), verified: false, share: 25 })
                .collect::<Vec<MetadataCreator>>()
        )
    );
    assert_eq!(request.record.uses, None);
    assert_eq!(request.record.collection, None);
}

#[test]
fn programmable_asset_validates_like_a_royalty() {
    let ctx = Context {
        program_id: program_id(),
        accounts: CreateProgrammableNFT {
            metadata: address(60),
            mint: address(61),
            mint_authority: address(5),
            payer: address(4),
        },
    };
    let r = create_programmable_nft(
        ctx.clone(),
        String::new(),
        String::new(),
        String::new(),
        900,
        vec![],
    );
    assert_eq!(r, Err(MinterError::InvalidCreatorCount));
    let r = create_programmable_nft(
        ctx,
        String::new(),
        String::new(),
        String::new(),
        10001,
        vec![address(1)],
    );
    assert_eq!(r, Err(MinterError::InvalidBasisPoints));
}

#[test]
fn account_methods_use_the_accounts_and_bump_as_given() {
    let bumps = Bumps { mint_authority: 200 };
    let unit = management().accounts.remove_plugin(&bumps, PluginType::Royalties);
    assert_eq!(
        unit,
        AtomicUnit {
            signer_bump: 200,
            requests: vec![LedgerRequest::RemovePlugin {
                accounts: LedgerAccounts {
                    asset: address(1),
                    collection: Some(address(2)),
                    payer: address(4),
                    authority: Some(address(5)),
                    system_program: address(6),
                },
                plugin_type: PluginType::Royalties,
            }],
        }
    );
}

#[test]
fn with_authority_replaces_only_the_authority() {
    let accounts = creation().accounts.with_authority(address(99));
    let mut expected = creation().accounts;
    expected.mint_authority = address(99);
    assert_eq!(accounts, expected);
}

#[test]
fn programmable_asset_takes_a_split_table_as_it_is() {
    let accounts = CreateProgrammableNFT {
        metadata: address(60),
        mint: address(61),
        mint_authority: address(5),
        payer: address(4),
    };
    let table = vec![
        Creator { address: address(1), percentage: 70 },
        Creator { address: address(2), percentage: 30 },
    ];
    let request = accounts.create_with_split(
        &Bumps { mint_authority: 9 },
        "P".to_string(),
        "PR".to_string(),
        "u".to_string(),
        10,
        &table,
    );
    assert_eq!(request.signer_bump, 9);
    assert_eq!(request.authority, address(5));
    assert_eq!(
        request.record.creators,
        Some(vec![
            MetadataCreator { address: address(1), verified: false, share: 70 },
            MetadataCreator { address: address(2), verified: false, share: 30 },
        ])
    );
}
