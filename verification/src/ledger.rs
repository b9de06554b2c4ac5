//! The ledger's rule on the plugins of one asset: at most one plugin of each
//! variant, and only an attached plugin can be removed or updated.

use vstd::prelude::*;
use crate::accounts::{CreateAssetWithPlugins, ManageAssetPlugins};
use crate::plugin::{PluginType, PluginView};
use crate::request::{AtomicUnit, LedgerRequest, LedgerRequestView};
use crate::types::Address;

verus! {

/// Why the ledger refuses a plugin request.
#[derive(Clone, Copy, Debug, PartialEq, Eq, Structural)]
pub enum LedgerRejection {
    /// A plugin of the variant is attached already.
    PluginAlreadyExists,
    /// No plugin of the variant is attached.
    PluginNotFound,
}

/// The plugin variants attached to one asset.
#[derive(Clone, Copy, Debug, PartialEq, Eq, Structural)]
pub struct AttachedPlugins {
    pub royalties: bool,
    pub transfer_delegate: bool,
    pub burn_delegate: bool,
}

impl AttachedPlugins {
    /// The plugins of an asset that was just created: none.
    pub open spec fn empty() -> AttachedPlugins {
        AttachedPlugins { royalties: false, transfer_delegate: false, burn_delegate: false }
    }

    /// Whether a plugin of the variant is attached.
    pub open spec fn has(self, plugin_type: PluginType) -> bool {
        match plugin_type {
            PluginType::Royalties => self.royalties,
            PluginType::TransferDelegate => self.transfer_delegate,
            PluginType::BurnDelegate => self.burn_delegate,
        }
    }

    /// These plugins with the variant attached or not, as `attached` says.
    pub open spec fn with(self, plugin_type: PluginType, attached: bool) -> AttachedPlugins {
        match plugin_type {
            PluginType::Royalties => AttachedPlugins { royalties: attached, ..self },
            PluginType::TransferDelegate => AttachedPlugins { transfer_delegate: attached, ..self },
            PluginType::BurnDelegate => AttachedPlugins { burn_delegate: attached, ..self },
        }
    }

    /// The plugins after an `add_plugin` of the variant, or the rejection.
    pub open spec fn add_spec(self, plugin_type: PluginType) -> Result<
        AttachedPlugins,
        LedgerRejection,
    > {
        if self.has(plugin_type) {
            Err(LedgerRejection::PluginAlreadyExists)
        } else {
            Ok(self.with(plugin_type, true))
        }
    }

    /// The plugins after a `remove_plugin` of the variant, or the rejection.
    pub open spec fn remove_spec(self, plugin_type: PluginType) -> Result<
        AttachedPlugins,
        LedgerRejection,
    > {
        if self.has(plugin_type) {
            Ok(self.with(plugin_type, false))
        } else {
            Err(LedgerRejection::PluginNotFound)
        }
    }

    /// The plugins after an `update_plugin` of the variant, or the rejection.
    pub open spec fn update_spec(self, plugin_type: PluginType) -> Result<
        AttachedPlugins,
        LedgerRejection,
    > {
        if self.has(plugin_type) {
            Ok(self)
        } else {
            Err(LedgerRejection::PluginNotFound)
        }
    }

    /// The plugins after one request, or the rejection. The creation of the
    /// asset leaves it without plugins.
    pub open spec fn apply_spec(self, request: LedgerRequestView) -> Result<
        AttachedPlugins,
        LedgerRejection,
    > {
        match request {
            LedgerRequestView::Create { .. } => Ok(Self::empty()),
            LedgerRequestView::AddPlugin { plugin, .. } => self.add_spec(plugin.plugin_type()),
            LedgerRequestView::RemovePlugin { plugin_type, .. } => self.remove_spec(plugin_type),
            LedgerRequestView::UpdatePlugin { plugin, .. } => self.update_spec(plugin.plugin_type()),
        }
    }

    /// The plugins after the requests of a unit, applied in their order, or
    /// the first rejection.
    pub open spec fn apply_all_spec(self, requests: Seq<LedgerRequestView>) -> Result<
        AttachedPlugins,
        LedgerRejection,
    >
        decreases requests.len(),
    {
        if requests.len() == 0 {
            Ok(self)
        } else {
            match self.apply_spec(requests.first()) {
                Ok(next) => next.apply_all_spec(requests.drop_first()),
                Err(e) => Err(e),
            }
        }
    }

    /// The plugins of an asset that was just created.
    pub fn new() -> (plugins: AttachedPlugins)
        ensures
            plugins == Self::empty(),
    {
        AttachedPlugins { royalties: false, transfer_delegate: false, burn_delegate: false }
    }

    /// Whether a plugin of the variant is attached.
    pub fn contains(&self, plugin_type: PluginType) -> (attached: bool)
        ensures
            attached == self.has(plugin_type),
    {
        match plugin_type {
            PluginType::Royalties => self.royalties,
            PluginType::TransferDelegate => self.transfer_delegate,
            PluginType::BurnDelegate => self.burn_delegate,
        }
    }

    /// These plugins with the variant attached or not.
    fn set(&self, plugin_type: PluginType, attached: bool) -> (plugins: AttachedPlugins)
        ensures
            plugins == self.with(plugin_type, attached),
    {
        match plugin_type {
            PluginType::Royalties => AttachedPlugins {
                royalties: attached,
                transfer_delegate: self.transfer_delegate,
                burn_delegate: self.burn_delegate,
            },
            PluginType::TransferDelegate => AttachedPlugins {
                royalties: self.royalties,
                transfer_delegate: attached,
                burn_delegate: self.burn_delegate,
            },
            PluginType::BurnDelegate => AttachedPlugins {
                royalties: self.royalties,
                transfer_delegate: self.transfer_delegate,
                burn_delegate: attached,
            },
        }
    }

    /// Foresees what the ledger does with one request on an asset with these
    /// plugins: the plugins afterwards, or the rejection. A rejection is an
    /// ordinary outcome that the caller reports.
    pub fn apply(&self, request: &LedgerRequest) -> (r: Result<AttachedPlugins, LedgerRejection>)
        ensures
            r == self.apply_spec(request@),
    {
        match request {
            LedgerRequest::Create { .. } => Ok(Self::new()),
            LedgerRequest::AddPlugin { plugin, .. } => {
                let plugin_type = plugin.plugin_type();
                if self.contains(plugin_type) {
                    Err(LedgerRejection::PluginAlreadyExists)
                } else {
                    Ok(self.set(plugin_type, true))
                }
            },
            LedgerRequest::RemovePlugin { plugin_type, .. } => {
                if self.contains(*plugin_type) {
                    Ok(self.set(*plugin_type, false))
                } else {
                    Err(LedgerRejection::PluginNotFound)
                }
            },
            LedgerRequest::UpdatePlugin { plugin, .. } => {
                if self.contains(plugin.plugin_type()) {
                    Ok(*self)
                } else {
                    Err(LedgerRejection::PluginNotFound)
                }
            },
        }
    }
}

impl AttachedPlugins {
    /// Foresees what the ledger does with a unit: the plugins after all of its
    /// requests, or the first rejection, on which the whole unit is discarded
    /// and the plugins stay as they were.
    pub fn apply_unit(&self, unit: &AtomicUnit) -> (r: Result<AttachedPlugins, LedgerRejection>)
        ensures
            r == self.apply_all_spec(unit@.requests),
    {
        let ghost requests = unit@.requests;
        let mut plugins = *self;
        let mut i: usize = 0;
        assert(requests.skip(0) =~= requests);
        while i < unit.requests.len()
            invariant
                i <= unit.requests.len(),
                requests == unit@.requests,
                requests.len() == unit.requests.len(),
                self.apply_all_spec(requests) == plugins.apply_all_spec(requests.skip(i as int)),
            decreases unit.requests.len() - i,
        {
            proof {
                let rest = requests.skip(i as int);
                assert(rest.first() == unit.requests@[i as int]@);
                assert(rest.drop_first() =~= requests.skip(i + 1));
            }
            match plugins.apply(&unit.requests[i]) {
                Ok(next) => {
                    plugins = next;
                },
                Err(e) => {
                    return Err(e);
                },
            }
            i = i + 1;
        }
        assert(requests.skip(i as int).len() == 0);
        Ok(plugins)
    }
}

/// Removing a plugin after adding one of the same variant succeeds, and gives
/// back the plugins from before the two requests.
pub proof fn lemma_remove_after_add(plugins: AttachedPlugins, plugin_type: PluginType)
    requires
        plugins.add_spec(plugin_type).is_ok(),
    ensures
        plugins.add_spec(plugin_type).unwrap().remove_spec(plugin_type) == Ok::<
            AttachedPlugins,
            LedgerRejection,
        >(plugins),
{
}

/// Removing a plugin that was never added fails with `PluginNotFound`: on a
/// fresh asset for every variant, and on any asset for a variant that is not
/// attached.
pub proof fn lemma_remove_without_add(plugins: AttachedPlugins, plugin_type: PluginType)
    ensures
        AttachedPlugins::empty().remove_spec(plugin_type) == Err::<
            AttachedPlugins,
            LedgerRejection,
        >(LedgerRejection::PluginNotFound),
        !plugins.has(plugin_type) ==> plugins.remove_spec(plugin_type) == Err::<
            AttachedPlugins,
            LedgerRejection,
        >(LedgerRejection::PluginNotFound),
{
}

/// At most one plugin of each variant: adding a variant that is attached is
/// refused, and leaves every other variant as it was where it succeeds.
pub proof fn lemma_add_is_exclusive(
    plugins: AttachedPlugins,
    plugin_type: PluginType,
    other: PluginType,
)
    ensures
        plugins.has(plugin_type) ==> plugins.add_spec(plugin_type) == Err::<
            AttachedPlugins,
            LedgerRejection,
        >(LedgerRejection::PluginAlreadyExists),
        !plugins.has(plugin_type) && other != plugin_type ==> plugins.add_spec(
            plugin_type,
        ).unwrap().has(other) == plugins.has(other),
        !plugins.has(plugin_type) ==> plugins.add_spec(plugin_type).unwrap().has(plugin_type),
{
}

/// The two requests of a pair, applied in their order.
proof fn lemma_apply_pair(plugins: AttachedPlugins, first: LedgerRequestView, second: LedgerRequestView)
    ensures
        plugins.apply_all_spec(seq![first, second]) == match plugins.apply_spec(first) {
            Ok(next) => next.apply_spec(second),
            Err(e) => Err(e),
        },
{
    let pair = seq![first, second];
    assert(pair.first() == first);
    assert(pair.drop_first() =~= seq![second]);
    assert(seq![second].first() == second);
    assert(seq![second].drop_first() =~= Seq::<LedgerRequestView>::empty());
    reveal_with_fuel(AttachedPlugins::apply_all_spec, 3);
}

/// The one request of a unit that holds nothing else.
proof fn lemma_apply_single(plugins: AttachedPlugins, request: LedgerRequestView)
    ensures
        plugins.apply_all_spec(seq![request]) == plugins.apply_spec(request),
{
    let single = seq![request];
    assert(single.first() == request);
    assert(single.drop_first() =~= Seq::<LedgerRequestView>::empty());
    reveal_with_fuel(AttachedPlugins::apply_all_spec, 2);
}

/// Because the creation comes first, the ledger accepts every unit that
/// creates an asset and attaches a plugin, whatever was known of the asset
/// before, and the asset then holds that plugin and no other.
pub proof fn lemma_create_then_attach_is_accepted(
    plugins: AttachedPlugins,
    accounts: CreateAssetWithPlugins,
    bump: u8,
    name: Seq<char>,
    uri: Seq<char>,
    plugin: PluginView,
    init_authority: Option<Address>,
)
    ensures
        plugins.apply_all_spec(
            accounts.create_then_attach_spec(bump, name, uri, plugin, init_authority).requests,
        ) == Ok::<AttachedPlugins, LedgerRejection>(
            AttachedPlugins::empty().with(plugin.plugin_type(), true),
        ),
{
    let unit = accounts.create_then_attach_spec(bump, name, uri, plugin, init_authority);
    lemma_apply_pair(plugins, unit.requests[0], unit.requests[1]);
    assert(unit.requests =~= seq![unit.requests[0], unit.requests[1]]);
}

/// Where no plugin of its variant is attached, the request that adds a plugin
/// is accepted, and the request that removes that variant is accepted after
/// it and gives back the plugins from before. A request that removes a variant
/// that is not attached fails with `PluginNotFound`.
pub proof fn lemma_remove_request_after_add_request(
    plugins: AttachedPlugins,
    accounts: ManageAssetPlugins,
    bump: u8,
    plugin: PluginView,
    initial_authority: Option<Address>,
)
    requires
        !plugins.has(plugin.plugin_type()),
    ensures
        ({
            let variant = plugin.plugin_type();
            let added = plugins.apply_all_spec(
                accounts.add_plugin_spec(bump, plugin, initial_authority).requests,
            );
            let removal = accounts.remove_plugin_spec(bump, variant).requests;
            &&& added == Ok::<AttachedPlugins, LedgerRejection>(plugins.with(variant, true))
            &&& added.unwrap().apply_all_spec(removal) == Ok::<AttachedPlugins, LedgerRejection>(
                plugins,
            )
            &&& plugins.apply_all_spec(removal) == Err::<AttachedPlugins, LedgerRejection>(
                LedgerRejection::PluginNotFound,
            )
        }),
{
    let variant = plugin.plugin_type();
    let add = accounts.add_plugin_spec(bump, plugin, initial_authority).requests;
    let removal = accounts.remove_plugin_spec(bump, variant).requests;
    assert(add =~= seq![add[0]]);
    assert(removal =~= seq![removal[0]]);
    lemma_apply_single(plugins, add[0]);
    lemma_apply_single(plugins, removal[0]);
    lemma_apply_single(plugins.with(variant, true), removal[0]);
}

} // verus!
