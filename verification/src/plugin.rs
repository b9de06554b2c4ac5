//! The closed set of plugins this layer manages, and the integer codes under
//! which callers name them.

use vstd::prelude::*;
use crate::royalty::{
    compute_splits, compute_splits_spec, percentage_sum, Creator, MAX_BASIS_POINTS,
};
use crate::types::{Address, MinterError};

verus! {

/// The transfer constraints that go with a royalty. This layer attaches none.
#[derive(Clone, Copy, Debug, PartialEq, Eq, Structural)]
pub enum RuleSet {
    /// No constraint on transfers.
    Unconstrained,
}

/// The tag of a plugin variant.
#[derive(Clone, Copy, Debug, PartialEq, Eq, Structural)]
pub enum PluginType {
    Royalties,
    TransferDelegate,
    BurnDelegate,
}

/// The payload of a royalties plugin.
#[derive(Clone, Debug, PartialEq, Eq)]
pub struct Royalties {
    pub basis_points: u16,
    pub creators: Vec<Creator>,
    pub rule_set: RuleSet,
}

/// A plugin with its payload.
#[derive(Clone, Debug, PartialEq, Eq)]
pub enum Plugin {
    Royalties(Royalties),
    TransferDelegate,
    BurnDelegate,
}

/// The mathematical value of a `Royalties`.
pub struct RoyaltiesView {
    pub basis_points: u16,
    pub creators: Seq<Creator>,
    pub rule_set: RuleSet,
}

/// The mathematical value of a `Plugin`.
pub enum PluginView {
    Royalties(RoyaltiesView),
    TransferDelegate,
    BurnDelegate,
}

impl View for Royalties {
    type V = RoyaltiesView;

    open spec fn view(&self) -> RoyaltiesView {
        RoyaltiesView {
            basis_points: self.basis_points,
            creators: self.creators@,
            rule_set: self.rule_set,
        }
    }
}

impl View for Plugin {
    type V = PluginView;

    open spec fn view(&self) -> PluginView {
        match *self {
            Plugin::Royalties(r) => PluginView::Royalties(r@),
            Plugin::TransferDelegate => PluginView::TransferDelegate,
            Plugin::BurnDelegate => PluginView::BurnDelegate,
        }
    }
}

impl RoyaltiesView {
    /// What holds of every royalty this layer composes: the basis points are
    /// at most 10000, there is a creator, no rule set constrains transfers, and
    /// the percentages sum to 100 less what an equal split leaves over.
    pub open spec fn well_formed(self) -> bool {
        &&& self.basis_points <= MAX_BASIS_POINTS
        &&& self.creators.len() > 0
        &&& self.rule_set == RuleSet::Unconstrained
        &&& percentage_sum(self.creators) == 100 - 100nat % self.creators.len()
    }
}

impl PluginView {
    /// Whether this plugin is fit to be sent: a royalty is well formed, a
    /// delegate marker always is.
    pub open spec fn well_formed(self) -> bool {
        match self {
            PluginView::Royalties(royalties) => royalties.well_formed(),
            PluginView::TransferDelegate => true,
            PluginView::BurnDelegate => true,
        }
    }

    /// The tag of this plugin's variant.
    pub open spec fn plugin_type(self) -> PluginType {
        match self {
            PluginView::Royalties(_) => PluginType::Royalties,
            PluginView::TransferDelegate => PluginType::TransferDelegate,
            PluginView::BurnDelegate => PluginType::BurnDelegate,
        }
    }
}

impl Plugin {
    /// The tag of this plugin's variant.
    pub fn plugin_type(&self) -> (tag: PluginType)
        ensures
            tag == self@.plugin_type(),
    {
        match self {
            Plugin::Royalties(_) => PluginType::Royalties,
            Plugin::TransferDelegate => PluginType::TransferDelegate,
            Plugin::BurnDelegate => PluginType::BurnDelegate,
        }
    }
}

/// The variant that a plugin type code names: 0, 1 and 2 name the three
/// variants, every other code is rejected.
pub open spec fn decode_plugin_type_spec(code: u8) -> Result<PluginType, MinterError> {
    if code == 0 {
        Ok(PluginType::Royalties)
    } else if code == 1 {
        Ok(PluginType::TransferDelegate)
    } else if code == 2 {
        Ok(PluginType::BurnDelegate)
    } else {
        Err(MinterError::InvalidPluginTypeCode)
    }
}

/// Decodes a plugin type code.
pub fn decode_plugin_type(code: u8) -> (r: Result<PluginType, MinterError>)
    ensures
        r == decode_plugin_type_spec(code),
{
    match code {
        0 => Ok(PluginType::Royalties),
        1 => Ok(PluginType::TransferDelegate),
        2 => Ok(PluginType::BurnDelegate),
        _ => Err(MinterError::InvalidPluginTypeCode),
    }
}

/// The royalties plugin for a creator list and basis points, or the error of
/// the split computation.
pub open spec fn royalties_plugin_spec(creators: Seq<Address>, basis_points: u16) -> Result<
    PluginView,
    MinterError,
> {
    match compute_splits_spec(creators, basis_points) {
        Ok(table) => Ok(
            PluginView::Royalties(
                RoyaltiesView { basis_points, creators: table, rule_set: RuleSet::Unconstrained },
            ),
        ),
        Err(e) => Err(e),
    }
}

/// The view of a plugin or an error.
pub open spec fn plugin_result_view(r: Result<Plugin, MinterError>) -> Result<
    PluginView,
    MinterError,
> {
    match r {
        Ok(plugin) => Ok(plugin@),
        Err(e) => Err(e),
    }
}

/// Builds the royalties plugin that splits `basis_points` equally among
/// `creators`, with no rule set.
pub fn royalties_plugin(creators: &Vec<Address>, basis_points: u16) -> (r: Result<
    Plugin,
    MinterError,
>)
    ensures
        plugin_result_view(r) == royalties_plugin_spec(creators@, basis_points),
        r.is_ok() ==> r.unwrap()@.well_formed() && r.unwrap()@.plugin_type()
            == PluginType::Royalties,
{
    match compute_splits(creators, basis_points) {
        Ok(table) => Ok(
            Plugin::Royalties(Royalties { basis_points, creators: table, rule_set: RuleSet::Unconstrained }),
        ),
        Err(e) => Err(e),
    }
}

} // verus!
