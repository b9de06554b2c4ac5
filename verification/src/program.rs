//! The operations offered to callers. Each validates what it was given,
//! derives the signing authority afresh, and composes the requests to submit.
//! The requests name the derived identity as their authority and carry its
//! bump, whatever `mint_authority` the accounts came with.

use vstd::prelude::*;
use crate::accounts::{Bumps, CreateAssetWithPlugins, ManageAssetPlugins, UpdateMetadata};
use crate::advanced::{CreateProgrammableNFT, CreateUtilityNFT};
use crate::authority::{
    authority_seed, authority_seed_spec, derive_authority, derive_authority_spec,
    AuthorityIdentity,
};
use crate::metadata::{
    decode_use_method, decode_use_method_spec, PartialMetadataPatch, PartialMetadataPatchView,
};
use crate::plugin::{
    decode_plugin_type, decode_plugin_type_spec, royalties_plugin, royalties_plugin_spec,
};
use crate::request::{
    registry_result_view, unit_result_view, AtomicUnit, AtomicUnitView, RegistryRequest,
    RegistryRequestView,
};
use crate::royalty::{compute_splits, compute_splits_spec};
use crate::types::{Address, MinterError};

verus! {

/// What an operation is called with: the program under which the authority is
/// derived, and the operation's accounts.
#[derive(Clone, Debug, PartialEq, Eq)]
pub struct Context<T> {
    pub program_id: Address,
    pub accounts: T,
}

/// What `derive_program_authority` returns for every program.
pub open spec fn program_authority_spec(program_id: Address) -> Result<
    AuthorityIdentity,
    MinterError,
> {
    derive_authority_spec(authority_seed_spec(), program_id)
}

/// Derives the authority of a program under the fixed label.
pub fn derive_program_authority(program_id: &Address) -> (r: Result<AuthorityIdentity, MinterError>)
    ensures
        r == program_authority_spec(*program_id),
{
    let seed = authority_seed();
    derive_authority(seed.as_slice(), program_id)
}

/// What `update_metadata` returns for every input.
pub open spec fn update_metadata_spec(
    ctx: Context<UpdateMetadata>,
    patch: PartialMetadataPatchView,
) -> Result<RegistryRequestView, MinterError> {
    match program_authority_spec(ctx.program_id) {
        Ok(authority) => Ok(
            ctx.accounts@.with_authority_spec(authority.identity).update_metadata_spec(
                authority.bump,
                patch,
            ),
        ),
        Err(e) => Err(e),
    }
}

/// Replaces the texts given in the record of the metadata account and keeps
/// every other field. Fails only where the authority cannot be derived.
pub fn update_metadata(
    ctx: Context<UpdateMetadata>,
    name: Option<String>,
    symbol: Option<String>,
    uri: Option<String>,
) -> (r: Result<RegistryRequest, MinterError>)
    ensures
        registry_result_view(r) == update_metadata_spec(
            ctx,
            (PartialMetadataPatch { name, symbol, uri })@,
        ),
{
    match derive_program_authority(&ctx.program_id) {
        Ok(authority) => Ok(
            ctx.accounts.with_authority(authority.identity).update_metadata(
                &Bumps { mint_authority: authority.bump },
                name,
                symbol,
                uri,
            ),
        ),
        Err(e) => Err(e),
    }
}

/// What `create_asset_with_royalties` returns for every input: the creators
/// and the basis points are validated before the authority is derived.
pub open spec fn create_asset_with_royalties_spec(
    ctx: Context<CreateAssetWithPlugins>,
    name: Seq<char>,
    uri: Seq<char>,
    royalty_basis_points: u16,
    creators: Seq<Address>,
) -> Result<AtomicUnitView, MinterError> {
    match royalties_plugin_spec(creators, royalty_basis_points) {
        Ok(plugin) => match program_authority_spec(ctx.program_id) {
            Ok(authority) => Ok(
                ctx.accounts.with_authority_spec(authority.identity).create_then_attach_spec(
                    authority.bump,
                    name,
                    uri,
                    plugin,
                    None,
                ),
            ),
            Err(e) => Err(e),
        },
        Err(e) => Err(e),
    }
}

/// Creates an asset and attaches a royalties plugin that splits
/// `royalty_basis_points` equally among `creators`.
pub fn create_asset_with_royalties(
    ctx: Context<CreateAssetWithPlugins>,
    name: String,
    uri: String,
    royalty_basis_points: u16,
    creators: Vec<Address>,
) -> (r: Result<AtomicUnit, MinterError>)
    ensures
        unit_result_view(r) == create_asset_with_royalties_spec(
            ctx,
            name@,
            uri@,
            royalty_basis_points,
            creators@,
        ),
        creators@.len() == 0 ==> r == Err::<AtomicUnit, MinterError>(
            MinterError::InvalidCreatorCount,
        ),
{
    let plugin = match royalties_plugin(&creators, royalty_basis_points) {
        Ok(plugin) => plugin,
        Err(e) => {
            return Err(e);
        },
    };
    match derive_program_authority(&ctx.program_id) {
        Ok(authority) => Ok(
            ctx.accounts.with_authority(authority.identity).create_then_attach(
                &Bumps { mint_authority: authority.bump },
                name,
                uri,
                plugin,
                None,
            ),
        ),
        Err(e) => Err(e),
    }
}

/// What `create_asset_with_transfer_delegate` returns for every input.
pub open spec fn create_asset_with_transfer_delegate_spec(
    ctx: Context<CreateAssetWithPlugins>,
    name: Seq<char>,
    uri: Seq<char>,
    delegate: Address,
) -> Result<AtomicUnitView, MinterError> {
    match program_authority_spec(ctx.program_id) {
        Ok(authority) => Ok(
            ctx.accounts.with_authority_spec(
                authority.identity,
            ).create_asset_with_transfer_delegate_spec(authority.bump, name, uri, delegate),
        ),
        Err(e) => Err(e),
    }
}

/// Creates an asset and attaches a transfer-delegate plugin under the control
/// of `delegate`.
pub fn create_asset_with_transfer_delegate(
    ctx: Context<CreateAssetWithPlugins>,
    name: String,
    uri: String,
    delegate: Address,
) -> (r: Result<AtomicUnit, MinterError>)
    ensures
        unit_result_view(r) == create_asset_with_transfer_delegate_spec(ctx, name@, uri@, delegate),
{
    match derive_program_authority(&ctx.program_id) {
        Ok(authority) => Ok(
            ctx.accounts.with_authority(authority.identity).create_asset_with_transfer_delegate(
                &Bumps { mint_authority: authority.bump },
                name,
                uri,
                delegate,
            ),
        ),
        Err(e) => Err(e),
    }
}

/// What `add_burn_delegate_plugin` returns for every input.
pub open spec fn add_burn_delegate_plugin_spec(
    ctx: Context<ManageAssetPlugins>,
    delegate: Address,
) -> Result<AtomicUnitView, MinterError> {
    match program_authority_spec(ctx.program_id) {
        Ok(authority) => Ok(
            ctx.accounts.with_authority_spec(authority.identity).add_burn_delegate_plugin_spec(
                authority.bump,
                delegate,
            ),
        ),
        Err(e) => Err(e),
    }
}

/// Attaches a burn-delegate plugin under the control of `delegate`.
pub fn add_burn_delegate_plugin(ctx: Context<ManageAssetPlugins>, delegate: Address) -> (r: Result<
    AtomicUnit,
    MinterError,
>)
    ensures
        unit_result_view(r) == add_burn_delegate_plugin_spec(ctx, delegate),
{
    match derive_program_authority(&ctx.program_id) {
        Ok(authority) => Ok(
            ctx.accounts.with_authority(authority.identity).add_burn_delegate_plugin(
                &Bumps { mint_authority: authority.bump },
                delegate,
            ),
        ),
        Err(e) => Err(e),
    }
}

/// What `remove_plugin` returns for every input: a code other than 0, 1, 2 is
/// rejected before anything else is done.
pub open spec fn remove_plugin_spec(ctx: Context<ManageAssetPlugins>, plugin_type: u8) -> Result<
    AtomicUnitView,
    MinterError,
> {
    match decode_plugin_type_spec(plugin_type) {
        Ok(variant) => match program_authority_spec(ctx.program_id) {
            Ok(authority) => Ok(
                ctx.accounts.with_authority_spec(authority.identity).remove_plugin_spec(
                    authority.bump,
                    variant,
                ),
            ),
            Err(e) => Err(e),
        },
        Err(e) => Err(e),
    }
}

/// Removes the plugin that the code names: 0 the royalties, 1 the transfer
/// delegate, 2 the burn delegate. Any other code fails with
/// `InvalidPluginTypeCode` and no request is composed.
pub fn remove_plugin(ctx: Context<ManageAssetPlugins>, plugin_type: u8) -> (r: Result<
    AtomicUnit,
    MinterError,
>)
    ensures
        unit_result_view(r) == remove_plugin_spec(ctx, plugin_type),
        plugin_type > 2 ==> r == Err::<AtomicUnit, MinterError>(
            MinterError::InvalidPluginTypeCode,
        ),
{
    let variant = match decode_plugin_type(plugin_type) {
        Ok(variant) => variant,
        Err(e) => {
            return Err(e);
        },
    };
    match derive_program_authority(&ctx.program_id) {
        Ok(authority) => Ok(
            ctx.accounts.with_authority(authority.identity).remove_plugin(
                &Bumps { mint_authority: authority.bump },
                variant,
            ),
        ),
        Err(e) => Err(e),
    }
}

/// What `update_royalties_plugin` returns for every input: the creators and
/// the basis points are validated before the authority is derived.
pub open spec fn update_royalties_plugin_spec(
    ctx: Context<ManageAssetPlugins>,
    new_basis_points: u16,
    new_creators: Seq<Address>,
) -> Result<AtomicUnitView, MinterError> {
    match royalties_plugin_spec(new_creators, new_basis_points) {
        Ok(plugin) => match program_authority_spec(ctx.program_id) {
            Ok(authority) => Ok(
                ctx.accounts.with_authority_spec(authority.identity).update_plugin_spec(
                    authority.bump,
                    plugin,
                ),
            ),
            Err(e) => Err(e),
        },
        Err(e) => Err(e),
    }
}

/// Replaces the royalties plugin by one that splits `new_basis_points` equally
/// among `new_creators`.
pub fn update_royalties_plugin(
    ctx: Context<ManageAssetPlugins>,
    new_basis_points: u16,
    new_creators: Vec<Address>,
) -> (r: Result<AtomicUnit, MinterError>)
    ensures
        unit_result_view(r) == update_royalties_plugin_spec(ctx, new_basis_points, new_creators@),
        new_creators@.len() == 0 ==> r == Err::<AtomicUnit, MinterError>(
            MinterError::InvalidCreatorCount,
        ),
{
    let plugin = match royalties_plugin(&new_creators, new_basis_points) {
        Ok(plugin) => plugin,
        Err(e) => {
            return Err(e);
        },
    };
    match derive_program_authority(&ctx.program_id) {
        Ok(authority) => Ok(
            ctx.accounts.with_authority(authority.identity).update_plugin(
                &Bumps { mint_authority: authority.bump },
                plugin,
            ),
        ),
        Err(e) => Err(e),
    }
}

/// What `create_programmable_nft` returns for every input: the creators and
/// the fee are validated before the authority is derived.
pub open spec fn create_programmable_nft_spec(
    ctx: Context<CreateProgrammableNFT>,
    name: Seq<char>,
    symbol: Seq<char>,
    uri: Seq<char>,
    seller_fee_basis_points: u16,
    creators: Seq<Address>,
) -> Result<RegistryRequestView, MinterError> {
    match compute_splits_spec(creators, seller_fee_basis_points) {
        Ok(table) => match program_authority_spec(ctx.program_id) {
            Ok(authority) => Ok(
                ctx.accounts.with_authority_spec(authority.identity).create_with_split_spec(
                    authority.bump,
                    name,
                    symbol,
                    uri,
                    seller_fee_basis_points,
                    table,
                ),
            ),
            Err(e) => Err(e),
        },
        Err(e) => Err(e),
    }
}

/// Creates a programmable asset whose record carries the seller fee and the
/// equal split among `creators`.
pub fn create_programmable_nft(
    ctx: Context<CreateProgrammableNFT>,
    name: String,
    symbol: String,
    uri: String,
    seller_fee_basis_points: u16,
    creators: Vec<Address>,
) -> (r: Result<RegistryRequest, MinterError>)
    ensures
        registry_result_view(r) == create_programmable_nft_spec(
            ctx,
            name@,
            symbol@,
            uri@,
            seller_fee_basis_points,
            creators@,
        ),
        creators@.len() == 0 ==> r == Err::<RegistryRequest, MinterError>(
            MinterError::InvalidCreatorCount,
        ),
{
    let table = match compute_splits(&creators, seller_fee_basis_points) {
        Ok(table) => table,
        Err(e) => {
            return Err(e);
        },
    };
    match derive_program_authority(&ctx.program_id) {
        Ok(authority) => Ok(
            ctx.accounts.with_authority(authority.identity).create_with_split(
                &Bumps { mint_authority: authority.bump },
                name,
                symbol,
                uri,
                seller_fee_basis_points,
                &table,
            ),
        ),
        Err(e) => Err(e),
    }
}

/// What `create_utility_nft` returns for every input: a code other than 0, 1,
/// 2 is rejected before anything else is done.
pub open spec fn create_utility_nft_spec(
    ctx: Context<CreateUtilityNFT>,
    name: Seq<char>,
    symbol: Seq<char>,
    uri: Seq<char>,
    use_method: u8,
    remaining_uses: u64,
    total_uses: u64,
) -> Result<RegistryRequestView, MinterError> {
    match decode_use_method_spec(use_method) {
        Ok(method) => match program_authority_spec(ctx.program_id) {
            Ok(authority) => Ok(
                ctx.accounts.with_authority_spec(authority.identity).create_utility_nft_spec(
                    authority.bump,
                    name,
                    symbol,
                    uri,
                    method,
                    remaining_uses,
                    total_uses,
                ),
            ),
            Err(e) => Err(e),
        },
        Err(e) => Err(e),
    }
}

/// Creates a utility asset with its use block. The code names the use method:
/// 0 burn, 1 multiple, 2 single. Any other code fails with
/// `InvalidUseMethodCode` and no request is composed.
pub fn create_utility_nft(
    ctx: Context<CreateUtilityNFT>,
    name: String,
    symbol: String,
    uri: String,
    use_method: u8,
    remaining_uses: u64,
    total_uses: u64,
) -> (r: Result<RegistryRequest, MinterError>)
    ensures
        registry_result_view(r) == create_utility_nft_spec(
            ctx,
            name@,
            symbol@,
            uri@,
            use_method,
            remaining_uses,
            total_uses,
        ),
        use_method > 2 ==> r == Err::<RegistryRequest, MinterError>(
            MinterError::InvalidUseMethodCode,
        ),
{
    let method = match decode_use_method(use_method) {
        Ok(method) => method,
        Err(e) => {
            return Err(e);
        },
    };
    match derive_program_authority(&ctx.program_id) {
        Ok(authority) => Ok(
            ctx.accounts.with_authority(authority.identity).create_utility_nft(
                &Bumps { mint_authority: authority.bump },
                name,
                symbol,
                uri,
                method,
                remaining_uses,
                total_uses,
            ),
        ),
        Err(e) => Err(e),
    }
}

} // verus!
