//! Assets that are created through the metadata registry: programmable assets,
//! which carry their royalty in the record, and utility assets, which carry a
//! count of uses.

use vstd::prelude::*;
use crate::accounts::Bumps;
use crate::metadata::{MetadataCreator, MetadataRecord, MetadataRecordView, UseMethod, UsesInfo};
use crate::request::{
    registry_result_view, RegistryAction, RegistryRequest, RegistryRequestView,
};
use crate::royalty::{compute_splits, compute_splits_spec, Creator};
use crate::types::{Address, MinterError};

verus! {

/// The accounts of the creation of a programmable asset.
#[derive(Clone, Copy, Debug, PartialEq, Eq)]
pub struct CreateProgrammableNFT {
    pub metadata: Address,
    pub mint: Address,
    pub mint_authority: Address,
    pub payer: Address,
}

/// The accounts of the creation of a utility asset.
#[derive(Clone, Copy, Debug, PartialEq, Eq)]
pub struct CreateUtilityNFT {
    pub metadata: Address,
    pub mint: Address,
    pub mint_authority: Address,
    pub payer: Address,
}

/// A split entry as the registry stores it: unverified, with the percentage as
/// its share.
pub open spec fn registry_creator(creator: Creator) -> MetadataCreator {
    MetadataCreator { address: creator.address, verified: false, share: creator.percentage }
}

/// A split table as the registry stores it, entry by entry.
pub open spec fn registry_creators(table: Seq<Creator>) -> Seq<MetadataCreator> {
    table.map_values(|c: Creator| registry_creator(c))
}

/// Converts a split table to the registry's creators.
fn to_registry_creators(table: &Vec<Creator>) -> (list: Vec<MetadataCreator>)
    ensures
        list@ == registry_creators(table@),
{
    let mut list: Vec<MetadataCreator> = Vec::new();
    let mut i: usize = 0;
    while i < table.len()
        invariant
            i <= table.len(),
            list@.len() == i,
            forall|k: int| 0 <= k < i ==> list@[k] == registry_creator(table@[k]),
        decreases table.len() - i,
    {
        let creator = table[i];
        list.push(
            MetadataCreator {
                address: creator.address,
                verified: false,
                share: creator.percentage,
            },
        );
        i = i + 1;
    }
    assert(list@ =~= registry_creators(table@));
    list
}

impl CreateProgrammableNFT {
    /// These accounts with `identity` as the signing authority.
    pub open spec fn with_authority_spec(self, identity: Address) -> CreateProgrammableNFT {
        CreateProgrammableNFT { mint_authority: identity, ..self }
    }

    /// These accounts with `identity` as the signing authority.
    pub fn with_authority(&self, identity: Address) -> (accounts: CreateProgrammableNFT)
        ensures
            accounts == self.with_authority_spec(identity),
    {
        CreateProgrammableNFT {
            metadata: self.metadata,
            mint: self.mint,
            mint_authority: identity,
            payer: self.payer,
        }
    }

    /// What `create_with_split` returns for every input.
    pub open spec fn create_with_split_spec(
        self,
        bump: u8,
        name: Seq<char>,
        symbol: Seq<char>,
        uri: Seq<char>,
        seller_fee_basis_points: u16,
        table: Seq<Creator>,
    ) -> RegistryRequestView {
        RegistryRequestView {
            signer_bump: bump,
            action: RegistryAction::Create,
            metadata: self.metadata,
            authority: self.mint_authority,
            record: MetadataRecordView {
                name,
                symbol,
                uri,
                seller_fee_basis_points,
                creators: Some(registry_creators(table)),
                collection: None,
                uses: None,
            },
        }
    }

    /// What `create_programmable_nft` returns for every input.
    pub open spec fn create_programmable_nft_spec(
        self,
        bump: u8,
        name: Seq<char>,
        symbol: Seq<char>,
        uri: Seq<char>,
        seller_fee_basis_points: u16,
        creators: Seq<Address>,
    ) -> Result<RegistryRequestView, MinterError> {
        match compute_splits_spec(creators, seller_fee_basis_points) {
            Ok(table) => Ok(
                self.create_with_split_spec(bump, name, symbol, uri, seller_fee_basis_points, table),
            ),
            Err(e) => Err(e),
        }
    }

    /// Composes the creation of a programmable asset whose record carries the
    /// seller fee and the split table given.
    pub fn create_with_split(
        &self,
        bumps: &Bumps,
        name: String,
        symbol: String,
        uri: String,
        seller_fee_basis_points: u16,
        table: &Vec<Creator>,
    ) -> (request: RegistryRequest)
        ensures
            request@ == self.create_with_split_spec(
                bumps.mint_authority,
                name@,
                symbol@,
                uri@,
                seller_fee_basis_points,
                table@,
            ),
    {
        RegistryRequest {
            signer_bump: bumps.mint_authority,
            action: RegistryAction::Create,
            metadata: self.metadata,
            authority: self.mint_authority,
            record: MetadataRecord {
                name,
                symbol,
                uri,
                seller_fee_basis_points,
                creators: Some(to_registry_creators(table)),
                collection: None,
                uses: None,
            },
        }
    }

    /// Composes the creation of a programmable asset: its record carries the
    /// seller fee and the equal split among `creators`. The creators and the
    /// fee are validated as those of a royalty are.
    pub fn create_programmable_nft(
        &self,
        bumps: &Bumps,
        name: String,
        symbol: String,
        uri: String,
        seller_fee_basis_points: u16,
        creators: Vec<Address>,
    ) -> (r: Result<RegistryRequest, MinterError>)
        ensures
            registry_result_view(r) == self.create_programmable_nft_spec(
                bumps.mint_authority,
                name@,
                symbol@,
                uri@,
                seller_fee_basis_points,
                creators@,
            ),
    {
        match compute_splits(&creators, seller_fee_basis_points) {
            Ok(table) => Ok(
                self.create_with_split(bumps, name, symbol, uri, seller_fee_basis_points, &table),
            ),
            Err(e) => Err(e),
        }
    }
}

impl CreateUtilityNFT {
    /// These accounts with `identity` as the signing authority.
    pub open spec fn with_authority_spec(self, identity: Address) -> CreateUtilityNFT {
        CreateUtilityNFT { mint_authority: identity, ..self }
    }

    /// These accounts with `identity` as the signing authority.
    pub fn with_authority(&self, identity: Address) -> (accounts: CreateUtilityNFT)
        ensures
            accounts == self.with_authority_spec(identity),
    {
        CreateUtilityNFT {
            metadata: self.metadata,
            mint: self.mint,
            mint_authority: identity,
            payer: self.payer,
        }
    }

    /// What `create_utility_nft` returns for every input.
    pub open spec fn create_utility_nft_spec(
        self,
        bump: u8,
        name: Seq<char>,
        symbol: Seq<char>,
        uri: Seq<char>,
        use_method: UseMethod,
        remaining_uses: u64,
        total_uses: u64,
    ) -> RegistryRequestView {
        RegistryRequestView {
            signer_bump: bump,
            action: RegistryAction::Create,
            metadata: self.metadata,
            authority: self.mint_authority,
            record: MetadataRecordView {
                name,
                symbol,
                uri,
                seller_fee_basis_points: 0,
                creators: None,
                collection: None,
                uses: Some(UsesInfo { method: use_method, remaining_uses, total_uses }),
            },
        }
    }

    /// Composes the creation of a utility asset: its record carries the use
    /// block as given. That the remaining uses do not exceed the total is left
    /// to the registry.
    pub fn create_utility_nft(
        &self,
        bumps: &Bumps,
        name: String,
        symbol: String,
        uri: String,
        use_method: UseMethod,
        remaining_uses: u64,
        total_uses: u64,
    ) -> (request: RegistryRequest)
        ensures
            request@ == self.create_utility_nft_spec(
                bumps.mint_authority,
                name@,
                symbol@,
                uri@,
                use_method,
                remaining_uses,
                total_uses,
            ),
    {
        RegistryRequest {
            signer_bump: bumps.mint_authority,
            action: RegistryAction::Create,
            metadata: self.metadata,
            authority: self.mint_authority,
            record: MetadataRecord {
                name,
                symbol,
                uri,
                seller_fee_basis_points: 0,
                creators: None,
                collection: None,
                uses: Some(UsesInfo { method: use_method, remaining_uses, total_uses }),
            },
        }
    }
}

} // verus!
