//! The requests this layer issues to the asset ledger and to the metadata
//! registry, and the atomic units that carry them.

use vstd::prelude::*;
use crate::metadata::{MetadataRecord, MetadataRecordView};
use crate::plugin::{Plugin, PluginType, PluginView};
use crate::types::{Address, MinterError};

verus! {

/// The accounts that every ledger request carries.
#[derive(Clone, Copy, Debug, PartialEq, Eq)]
pub struct LedgerAccounts {
    pub asset: Address,
    pub collection: Option<Address>,
    pub payer: Address,
    pub authority: Option<Address>,
    pub system_program: Address,
}

/// One request to the asset ledger.
#[derive(Clone, Debug, PartialEq, Eq)]
pub enum LedgerRequest {
    /// Establishes the asset record.
    Create { accounts: LedgerAccounts, owner: Option<Address>, name: String, uri: String },
    /// Attaches a plugin; `init_authority`, where given, hands its control to
    /// a delegate.
    AddPlugin { accounts: LedgerAccounts, plugin: Plugin, init_authority: Option<Address> },
    /// Removes the plugin of one variant.
    RemovePlugin { accounts: LedgerAccounts, plugin_type: PluginType },
    /// Replaces the payload of the plugin of the same variant.
    UpdatePlugin { accounts: LedgerAccounts, plugin: Plugin },
}

/// The mathematical value of a `LedgerRequest`.
pub enum LedgerRequestView {
    Create { accounts: LedgerAccounts, owner: Option<Address>, name: Seq<char>, uri: Seq<char> },
    AddPlugin { accounts: LedgerAccounts, plugin: PluginView, init_authority: Option<Address> },
    RemovePlugin { accounts: LedgerAccounts, plugin_type: PluginType },
    UpdatePlugin { accounts: LedgerAccounts, plugin: PluginView },
}

impl View for LedgerRequest {
    type V = LedgerRequestView;

    open spec fn view(&self) -> LedgerRequestView {
        match *self {
            LedgerRequest::Create { accounts, owner, name, uri } => LedgerRequestView::Create {
                accounts,
                owner,
                name: name@,
                uri: uri@,
            },
            LedgerRequest::AddPlugin {
                accounts,
                plugin,
                init_authority,
            } => LedgerRequestView::AddPlugin { accounts, plugin: plugin@, init_authority },
            LedgerRequest::RemovePlugin {
                accounts,
                plugin_type,
            } => LedgerRequestView::RemovePlugin { accounts, plugin_type },
            LedgerRequest::UpdatePlugin {
                accounts,
                plugin,
            } => LedgerRequestView::UpdatePlugin { accounts, plugin: plugin@ },
        }
    }
}

impl LedgerRequest {
    /// The request that establishes an asset for `owner`.
    pub fn create(accounts: LedgerAccounts, owner: Option<Address>, name: String, uri: String) -> (request:
        LedgerRequest)
        ensures
            request@ == (LedgerRequestView::Create { accounts, owner, name: name@, uri: uri@ }),
    {
        LedgerRequest::Create { accounts, owner, name, uri }
    }

    /// The request that attaches `plugin` to the asset of `accounts`. Where
    /// `initial_authority` is given, that address controls the plugin in place
    /// of the asset's own authority.
    pub fn add_plugin(
        accounts: LedgerAccounts,
        plugin: Plugin,
        initial_authority: Option<Address>,
    ) -> (request: LedgerRequest)
        ensures
            request@ == (LedgerRequestView::AddPlugin {
                accounts,
                plugin: plugin@,
                init_authority: initial_authority,
            }),
    {
        LedgerRequest::AddPlugin { accounts, plugin, init_authority: initial_authority }
    }

    /// The request that removes the plugin of the variant `plugin_type`.
    pub fn remove_plugin(accounts: LedgerAccounts, plugin_type: PluginType) -> (request:
        LedgerRequest)
        ensures
            request@ == (LedgerRequestView::RemovePlugin { accounts, plugin_type }),
    {
        LedgerRequest::RemovePlugin { accounts, plugin_type }
    }

    /// The request that replaces the payload of the plugin of the same variant
    /// as `new_plugin_value`.
    pub fn update_plugin(accounts: LedgerAccounts, new_plugin_value: Plugin) -> (request:
        LedgerRequest)
        ensures
            request@ == (LedgerRequestView::UpdatePlugin { accounts, plugin: new_plugin_value@ }),
    {
        LedgerRequest::UpdatePlugin { accounts, plugin: new_plugin_value }
    }
}

/// Ledger requests that succeed or fail together, in the order in which they
/// are to be submitted, all signed with the authority's label and `signer_bump`.
#[derive(Clone, Debug, PartialEq, Eq)]
pub struct AtomicUnit {
    pub signer_bump: u8,
    pub requests: Vec<LedgerRequest>,
}

/// The mathematical value of an `AtomicUnit`.
pub struct AtomicUnitView {
    pub signer_bump: u8,
    pub requests: Seq<LedgerRequestView>,
}

impl View for AtomicUnit {
    type V = AtomicUnitView;

    open spec fn view(&self) -> AtomicUnitView {
        AtomicUnitView {
            signer_bump: self.signer_bump,
            requests: self.requests@.map_values(|r: LedgerRequest| r@),
        }
    }
}

/// The view of a unit or an error.
pub open spec fn unit_result_view(r: Result<AtomicUnit, MinterError>) -> Result<
    AtomicUnitView,
    MinterError,
> {
    match r {
        Ok(unit) => Ok(unit@),
        Err(e) => Err(e),
    }
}

/// Puts one request into a unit of its own.
pub fn single_request(signer_bump: u8, request: LedgerRequest) -> (unit: AtomicUnit)
    ensures
        unit@ == (AtomicUnitView { signer_bump, requests: seq![request@] }),
{
    let mut requests: Vec<LedgerRequest> = Vec::new();
    requests.push(request);
    let unit = AtomicUnit { signer_bump, requests };
    assert(unit@.requests =~= seq![request@]);
    unit
}

/// Puts two requests into one unit, `first` before `second`.
pub fn request_pair(signer_bump: u8, first: LedgerRequest, second: LedgerRequest) -> (unit:
    AtomicUnit)
    ensures
        unit@ == (AtomicUnitView { signer_bump, requests: seq![first@, second@] }),
{
    let mut requests: Vec<LedgerRequest> = Vec::new();
    requests.push(first);
    requests.push(second);
    let unit = AtomicUnit { signer_bump, requests };
    assert(unit@.requests =~= seq![first@, second@]);
    unit
}

/// What is asked of the metadata registry.
#[derive(Clone, Copy, Debug, PartialEq, Eq, Structural)]
pub enum RegistryAction {
    /// Create the record of a new asset.
    Create,
    /// Replace the record held in the metadata account as a whole.
    Replace,
}

/// One request to the metadata registry, signed with the authority's label and
/// `signer_bump`. The registry takes complete records only.
#[derive(Clone, Debug, PartialEq, Eq)]
pub struct RegistryRequest {
    pub signer_bump: u8,
    pub action: RegistryAction,
    pub metadata: Address,
    pub authority: Address,
    pub record: MetadataRecord,
}

/// The mathematical value of a `RegistryRequest`.
pub struct RegistryRequestView {
    pub signer_bump: u8,
    pub action: RegistryAction,
    pub metadata: Address,
    pub authority: Address,
    pub record: MetadataRecordView,
}

impl View for RegistryRequest {
    type V = RegistryRequestView;

    open spec fn view(&self) -> RegistryRequestView {
        RegistryRequestView {
            signer_bump: self.signer_bump,
            action: self.action,
            metadata: self.metadata,
            authority: self.authority,
            record: self.record@,
        }
    }
}

/// The view of a registry request or an error.
pub open spec fn registry_result_view(r: Result<RegistryRequest, MinterError>) -> Result<
    RegistryRequestView,
    MinterError,
> {
    match r {
        Ok(request) => Ok(request@),
        Err(e) => Err(e),
    }
}

} // verus!
