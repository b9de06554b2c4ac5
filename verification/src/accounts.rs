//! The account sets of the operations, and the requests each operation
//! composes from them once the authority's bump is known.

use vstd::prelude::*;
use crate::metadata::{
    merge, merge_spec, MetadataRecord, MetadataRecordView, PartialMetadataPatch,
    PartialMetadataPatchView,
};
use crate::plugin::{royalties_plugin, royalties_plugin_spec, Plugin, PluginType, PluginView};
use crate::request::{
    request_pair, single_request, unit_result_view, AtomicUnit, AtomicUnitView, LedgerAccounts,
    LedgerRequest, LedgerRequestView, RegistryAction, RegistryRequest, RegistryRequestView,
};
use crate::types::{Address, MinterError};

verus! {

/// The bump of the authority that signs for an account set.
#[derive(Clone, Copy, Debug, PartialEq, Eq)]
pub struct Bumps {
    pub mint_authority: u8,
}

/// The accounts of an asset creation.
#[derive(Clone, Copy, Debug, PartialEq, Eq)]
pub struct CreateAssetWithPlugins {
    pub asset: Address,
    pub collection: Address,
    pub owner: Address,
    pub payer: Address,
    pub mint_authority: Address,
    pub system_program: Address,
    pub mpl_core_program: Address,
}

/// The accounts of a plugin operation on an existing asset.
#[derive(Clone, Copy, Debug, PartialEq, Eq)]
pub struct ManageAssetPlugins {
    pub asset: Address,
    pub collection: Address,
    pub authority: Address,
    pub payer: Address,
    pub mint_authority: Address,
    pub system_program: Address,
    pub mpl_core_program: Address,
}

/// The accounts of a metadata update, with the record that the metadata
/// account holds.
#[derive(Clone, Debug, PartialEq, Eq)]
pub struct UpdateMetadata {
    pub metadata: Address,
    pub current: MetadataRecord,
    pub mint: Address,
    pub mint_authority: Address,
    pub authority: Address,
    pub system_program: Address,
    pub token_metadata_program: Address,
}

impl CreateAssetWithPlugins {
    /// These accounts with `identity` as the signing authority.
    pub open spec fn with_authority_spec(self, identity: Address) -> CreateAssetWithPlugins {
        CreateAssetWithPlugins { mint_authority: identity, ..self }
    }

    /// These accounts with `identity` as the signing authority.
    pub fn with_authority(&self, identity: Address) -> (accounts: CreateAssetWithPlugins)
        ensures
            accounts == self.with_authority_spec(identity),
    {
        CreateAssetWithPlugins {
            asset: self.asset,
            collection: self.collection,
            owner: self.owner,
            payer: self.payer,
            mint_authority: identity,
            system_program: self.system_program,
            mpl_core_program: self.mpl_core_program,
        }
    }

    /// The accounts of the request that creates the asset: no authority is
    /// named.
    pub open spec fn create_accounts_spec(self) -> LedgerAccounts {
        LedgerAccounts {
            asset: self.asset,
            collection: Some(self.collection),
            payer: self.payer,
            authority: None,
            system_program: self.system_program,
        }
    }

    /// The accounts of a plugin request: the signing authority is named as
    /// the authority.
    pub open spec fn plugin_accounts_spec(self) -> LedgerAccounts {
        LedgerAccounts {
            asset: self.asset,
            collection: Some(self.collection),
            payer: self.payer,
            authority: Some(self.mint_authority),
            system_program: self.system_program,
        }
    }

    /// The request that creates the asset.
    pub open spec fn create_request_spec(self, name: Seq<char>, uri: Seq<char>) -> LedgerRequestView {
        LedgerRequestView::Create {
            accounts: self.create_accounts_spec(),
            owner: Some(self.owner),
            name,
            uri,
        }
    }

    /// The unit that creates the asset and then attaches `plugin`.
    pub open spec fn create_then_attach_spec(
        self,
        bump: u8,
        name: Seq<char>,
        uri: Seq<char>,
        plugin: PluginView,
        init_authority: Option<Address>,
    ) -> AtomicUnitView {
        AtomicUnitView {
            signer_bump: bump,
            requests: seq![
                self.create_request_spec(name, uri),
                LedgerRequestView::AddPlugin {
                    accounts: self.plugin_accounts_spec(),
                    plugin,
                    init_authority,
                },
            ],
        }
    }

    /// What `create_asset_with_royalties` returns for every input.
    pub open spec fn create_asset_with_royalties_spec(
        self,
        bump: u8,
        name: Seq<char>,
        uri: Seq<char>,
        royalty_basis_points: u16,
        creators: Seq<Address>,
    ) -> Result<AtomicUnitView, MinterError> {
        match royalties_plugin_spec(creators, royalty_basis_points) {
            Ok(plugin) => Ok(self.create_then_attach_spec(bump, name, uri, plugin, None)),
            Err(e) => Err(e),
        }
    }

    /// What `create_asset_with_transfer_delegate` returns for every input.
    pub open spec fn create_asset_with_transfer_delegate_spec(
        self,
        bump: u8,
        name: Seq<char>,
        uri: Seq<char>,
        delegate: Address,
    ) -> AtomicUnitView {
        self.create_then_attach_spec(bump, name, uri, PluginView::TransferDelegate, Some(delegate))
    }

    /// Composes the unit that creates the asset and attaches `plugin` to it:
    /// the creation comes first, whatever the plugin.
    pub fn create_then_attach(
        &self,
        bumps: &Bumps,
        name: String,
        uri: String,
        plugin: Plugin,
        init_authority: Option<Address>,
    ) -> (unit: AtomicUnit)
        ensures
            unit@ == self.create_then_attach_spec(
                bumps.mint_authority,
                name@,
                uri@,
                plugin@,
                init_authority,
            ),
    {
        let create = LedgerRequest::create(
            LedgerAccounts {
                asset: self.asset,
                collection: Some(self.collection),
                payer: self.payer,
                authority: None,
                system_program: self.system_program,
            },
            Some(self.owner),
            name,
            uri,
        );
        let attach = LedgerRequest::add_plugin(
            LedgerAccounts {
                asset: self.asset,
                collection: Some(self.collection),
                payer: self.payer,
                authority: Some(self.mint_authority),
                system_program: self.system_program,
            },
            plugin,
            init_authority,
        );
        request_pair(bumps.mint_authority, create, attach)
    }

    /// Composes the creation of an asset that bears royalties: the asset is
    /// created, then one royalties plugin is attached that splits the royalty
    /// equally among `creators`. An empty creator list or basis points above
    /// 10000 are rejected and no request is composed.
    pub fn create_asset_with_royalties(
        &self,
        bumps: &Bumps,
        name: String,
        uri: String,
        royalty_basis_points: u16,
        creators: Vec<Address>,
    ) -> (r: Result<AtomicUnit, MinterError>)
        ensures
            unit_result_view(r) == self.create_asset_with_royalties_spec(
                bumps.mint_authority,
                name@,
                uri@,
                royalty_basis_points,
                creators@,
            ),
    {
        match royalties_plugin(&creators, royalty_basis_points) {
            Ok(plugin) => Ok(self.create_then_attach(bumps, name, uri, plugin, None)),
            Err(e) => Err(e),
        }
    }

    /// Composes the creation of an asset whose transfers a delegate controls:
    /// the asset is created, then a transfer-delegate plugin is attached and
    /// its authority handed to `delegate`.
    pub fn create_asset_with_transfer_delegate(
        &self,
        bumps: &Bumps,
        name: String,
        uri: String,
        delegate: Address,
    ) -> (unit: AtomicUnit)
        ensures
            unit@ == self.create_asset_with_transfer_delegate_spec(
                bumps.mint_authority,
                name@,
                uri@,
                delegate,
            ),
    {
        self.create_then_attach(bumps, name, uri, Plugin::TransferDelegate, Some(delegate))
    }
}

/// In every unit that creates an asset and attaches a plugin, the creation is
/// the first request and the attachment of that plugin the second and last.
pub proof fn lemma_create_precedes_attach(
    accounts: CreateAssetWithPlugins,
    bump: u8,
    name: Seq<char>,
    uri: Seq<char>,
    plugin: PluginView,
    init_authority: Option<Address>,
)
    ensures
        ({
            let unit = accounts.create_then_attach_spec(bump, name, uri, plugin, init_authority);
            &&& unit.requests.len() == 2
            &&& unit.requests[0] == accounts.create_request_spec(name, uri)
            &&& unit.requests[0] is Create
            &&& unit.requests[1] is AddPlugin
            &&& unit.requests[1]->AddPlugin_plugin == plugin
            &&& unit.requests[1]->AddPlugin_init_authority == init_authority
        }),
{
}

impl ManageAssetPlugins {
    /// These accounts with `identity` as the signing authority.
    pub open spec fn with_authority_spec(self, identity: Address) -> ManageAssetPlugins {
        ManageAssetPlugins { mint_authority: identity, ..self }
    }

    /// These accounts with `identity` as the signing authority.
    pub fn with_authority(&self, identity: Address) -> (accounts: ManageAssetPlugins)
        ensures
            accounts == self.with_authority_spec(identity),
    {
        ManageAssetPlugins {
            asset: self.asset,
            collection: self.collection,
            authority: self.authority,
            payer: self.payer,
            mint_authority: identity,
            system_program: self.system_program,
            mpl_core_program: self.mpl_core_program,
        }
    }

    /// The accounts that every plugin request of this set carries.
    pub open spec fn plugin_accounts_spec(self) -> LedgerAccounts {
        LedgerAccounts {
            asset: self.asset,
            collection: Some(self.collection),
            payer: self.payer,
            authority: Some(self.mint_authority),
            system_program: self.system_program,
        }
    }

    /// The unit that holds `request` alone.
    pub open spec fn single_spec(bump: u8, request: LedgerRequestView) -> AtomicUnitView {
        AtomicUnitView { signer_bump: bump, requests: seq![request] }
    }

    /// What `add_plugin` returns for every input.
    pub open spec fn add_plugin_spec(
        self,
        bump: u8,
        plugin: PluginView,
        initial_authority: Option<Address>,
    ) -> AtomicUnitView {
        Self::single_spec(
            bump,
            LedgerRequestView::AddPlugin {
                accounts: self.plugin_accounts_spec(),
                plugin,
                init_authority: initial_authority,
            },
        )
    }

    /// What `add_burn_delegate_plugin` returns for every input.
    pub open spec fn add_burn_delegate_plugin_spec(self, bump: u8, delegate: Address) -> AtomicUnitView {
        self.add_plugin_spec(bump, PluginView::BurnDelegate, Some(delegate))
    }

    /// What `remove_plugin` returns for every input.
    pub open spec fn remove_plugin_spec(self, bump: u8, plugin_type: PluginType) -> AtomicUnitView {
        Self::single_spec(
            bump,
            LedgerRequestView::RemovePlugin { accounts: self.plugin_accounts_spec(), plugin_type },
        )
    }

    /// What `update_plugin` returns for every input.
    pub open spec fn update_plugin_spec(self, bump: u8, plugin: PluginView) -> AtomicUnitView {
        Self::single_spec(
            bump,
            LedgerRequestView::UpdatePlugin { accounts: self.plugin_accounts_spec(), plugin },
        )
    }

    /// What `update_royalties_plugin` returns for every input.
    pub open spec fn update_royalties_plugin_spec(
        self,
        bump: u8,
        new_basis_points: u16,
        new_creators: Seq<Address>,
    ) -> Result<AtomicUnitView, MinterError> {
        match royalties_plugin_spec(new_creators, new_basis_points) {
            Ok(plugin) => Ok(self.update_plugin_spec(bump, plugin)),
            Err(e) => Err(e),
        }
    }

    /// The accounts that every plugin request of this set carries.
    fn plugin_accounts(&self) -> (accounts: LedgerAccounts)
        ensures
            accounts == self.plugin_accounts_spec(),
    {
        LedgerAccounts {
            asset: self.asset,
            collection: Some(self.collection),
            payer: self.payer,
            authority: Some(self.mint_authority),
            system_program: self.system_program,
        }
    }

    /// Composes the request that attaches `plugin`. Where `initial_authority`
    /// is given, that address controls the plugin in place of the asset's own
    /// authority.
    pub fn add_plugin(
        &self,
        bumps: &Bumps,
        plugin: Plugin,
        initial_authority: Option<Address>,
    ) -> (unit: AtomicUnit)
        ensures
            unit@ == self.add_plugin_spec(bumps.mint_authority, plugin@, initial_authority),
    {
        single_request(
            bumps.mint_authority,
            LedgerRequest::add_plugin(self.plugin_accounts(), plugin, initial_authority),
        )
    }

    /// Composes the request that attaches a burn-delegate plugin and hands its
    /// authority to `delegate`.
    pub fn add_burn_delegate_plugin(&self, bumps: &Bumps, delegate: Address) -> (unit: AtomicUnit)
        ensures
            unit@ == self.add_burn_delegate_plugin_spec(bumps.mint_authority, delegate),
    {
        self.add_plugin(bumps, Plugin::BurnDelegate, Some(delegate))
    }

    /// Composes the request that removes the plugin of one variant.
    pub fn remove_plugin(&self, bumps: &Bumps, plugin_type: PluginType) -> (unit: AtomicUnit)
        ensures
            unit@ == self.remove_plugin_spec(bumps.mint_authority, plugin_type),
    {
        single_request(
            bumps.mint_authority,
            LedgerRequest::remove_plugin(self.plugin_accounts(), plugin_type),
        )
    }

    /// Composes the request that replaces the payload of the plugin of the
    /// same variant as `new_plugin_value`.
    pub fn update_plugin(&self, bumps: &Bumps, new_plugin_value: Plugin) -> (unit: AtomicUnit)
        ensures
            unit@ == self.update_plugin_spec(bumps.mint_authority, new_plugin_value@),
    {
        single_request(
            bumps.mint_authority,
            LedgerRequest::update_plugin(self.plugin_accounts(), new_plugin_value),
        )
    }

    /// Composes the request that replaces the royalties plugin by one that
    /// splits `new_basis_points` equally among `new_creators`. An empty creator
    /// list or basis points above 10000 are rejected and no request is
    /// composed.
    pub fn update_royalties_plugin(
        &self,
        bumps: &Bumps,
        new_basis_points: u16,
        new_creators: Vec<Address>,
    ) -> (r: Result<AtomicUnit, MinterError>)
        ensures
            unit_result_view(r) == self.update_royalties_plugin_spec(
                bumps.mint_authority,
                new_basis_points,
                new_creators@,
            ),
    {
        match royalties_plugin(&new_creators, new_basis_points) {
            Ok(plugin) => Ok(self.update_plugin(bumps, plugin)),
            Err(e) => Err(e),
        }
    }
}

/// The view of an `UpdateMetadata`: what its requests are composed from.
pub struct UpdateMetadataView {
    pub metadata: Address,
    pub current: MetadataRecordView,
    pub mint_authority: Address,
}

impl View for UpdateMetadata {
    type V = UpdateMetadataView;

    open spec fn view(&self) -> UpdateMetadataView {
        UpdateMetadataView {
            metadata: self.metadata,
            current: self.current@,
            mint_authority: self.mint_authority,
        }
    }
}

impl UpdateMetadataView {
    /// These accounts with `identity` as the signing authority.
    pub open spec fn with_authority_spec(self, identity: Address) -> UpdateMetadataView {
        UpdateMetadataView { mint_authority: identity, ..self }
    }

    /// What `update_metadata` returns for every input.
    pub open spec fn update_metadata_spec(
        self,
        bump: u8,
        patch: PartialMetadataPatchView,
    ) -> RegistryRequestView {
        RegistryRequestView {
            signer_bump: bump,
            action: RegistryAction::Replace,
            metadata: self.metadata,
            authority: self.mint_authority,
            record: merge_spec(self.current, patch),
        }
    }
}

impl UpdateMetadata {
    /// These accounts with `identity` as the signing authority.
    pub fn with_authority(self, identity: Address) -> (accounts: UpdateMetadata)
        ensures
            accounts@ == self@.with_authority_spec(identity),
    {
        UpdateMetadata {
            metadata: self.metadata,
            current: self.current,
            mint: self.mint,
            mint_authority: identity,
            authority: self.authority,
            system_program: self.system_program,
            token_metadata_program: self.token_metadata_program,
        }
    }

    /// Composes the replacement of the record in the metadata account: the
    /// texts given replace the current ones, every other field of the current
    /// record is carried over.
    pub fn update_metadata(
        &self,
        bumps: &Bumps,
        name: Option<String>,
        symbol: Option<String>,
        uri: Option<String>,
    ) -> (request: RegistryRequest)
        ensures
            request@ == self@.update_metadata_spec(
                bumps.mint_authority,
                (PartialMetadataPatch { name, symbol, uri })@,
            ),
    {
        let record = merge(&self.current, PartialMetadataPatch { name, symbol, uri });
        RegistryRequest {
            signer_bump: bumps.mint_authority,
            action: RegistryAction::Replace,
            metadata: self.metadata,
            authority: self.mint_authority,
            record,
        }
    }
}

} // verus!
