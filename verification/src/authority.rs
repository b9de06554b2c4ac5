//! Derivation of the program-owned signing authority.

use vstd::prelude::*;
use anchor_lang::prelude::Pubkey;
use crate::types::{Address, MinterError};

verus! {

/// The longest seed the ledger's derivation rule admits, in bytes.
pub const MAX_SEED_LEN: usize = 32;

/// The signing identity of the program: the address derived from a seed label,
/// and the bump that makes it an address no private key controls.
#[derive(Clone, Copy, Debug, PartialEq, Eq)]
pub struct AuthorityIdentity {
    pub identity: Address,
    pub bump: u8,
}

/// The address and bump that the ledger's derivation rule gives for one seed
/// and a program's address, or `None` where no bump yields a valid address.
pub uninterp spec fn program_address(seed: Seq<u8>, program: Seq<u8>) -> Option<(Seq<u8>, u8)>;

/// The fixed label under which the program's authority is derived: the bytes
/// of the word "authority".
pub open spec fn authority_seed_spec() -> Seq<u8> {
    seq![97u8, 117u8, 116u8, 104u8, 111u8, 114u8, 105u8, 116u8, 121u8]
}

/// The fixed label as bytes.
pub fn authority_seed() -> (seed: [u8; 9])
    ensures
        seed@ == authority_seed_spec(),
{
    let seed: [u8; 9] = [97, 117, 116, 104, 111, 114, 105, 116, 121];
    assert(seed@ =~= authority_seed_spec());
    seed
}

/// The outcome of a derivation as plain bytes.
pub open spec fn derivation_view(found: Option<(Address, u8)>) -> Option<(Seq<u8>, u8)> {
    match found {
        Some((address, bump)) => Some((address.bytes@, bump)),
        None => None,
    }
}

/// Calls `Pubkey::try_find_program_address` of solana-pubkey, which
/// anchor-lang hands on, with the single seed given. Believed without proof:
/// the outcome is the named derivation of the seed's and the program's bytes,
/// and a seed longer than 32 bytes has none (the search ends at the first
/// bump, on the length error).
#[verifier::external_body]
fn find_program_address(seed: &[u8], program: &Address) -> (found: Option<(Address, u8)>)
    ensures
        derivation_view(found) == program_address(seed@, program.bytes@),
        seed@.len() > MAX_SEED_LEN ==> found.is_none(),
{
    let program_id = Pubkey::new_from_array(program.bytes);
    match Pubkey::try_find_program_address(&[seed], &program_id) {
        Some((key, bump)) => Some((Address { bytes: key.to_bytes() }, bump)),
        None => None,
    }
}

/// What `authority_from` returns for every outcome of a derivation.
pub open spec fn authority_from_spec(found: Option<(Address, u8)>) -> Result<
    AuthorityIdentity,
    MinterError,
> {
    match found {
        Some((identity, bump)) => Ok(AuthorityIdentity { identity, bump }),
        None => Err(MinterError::AuthorityDerivationError),
    }
}

/// Turns the outcome of a derivation into the authority, or into the error
/// that reports a label without a valid bump.
pub fn authority_from(found: Option<(Address, u8)>) -> (r: Result<AuthorityIdentity, MinterError>)
    ensures
        r == authority_from_spec(found),
{
    match found {
        Some((identity, bump)) => Ok(AuthorityIdentity { identity, bump }),
        None => Err(MinterError::AuthorityDerivationError),
    }
}

/// Whether `authority` is the one that the derivation rule gives for the label
/// under the program.
pub open spec fn is_authority_of(authority: AuthorityIdentity, seed: Seq<u8>, program: Address) -> bool {
    program_address(seed, program.bytes@) == Some((authority.identity.bytes@, authority.bump))
}

/// The authority that the derivation rule gives for the label under the
/// program, or `None` where it gives none.
pub open spec fn derived_authority(seed: Seq<u8>, program: Address) -> Option<AuthorityIdentity> {
    if exists|authority: AuthorityIdentity| is_authority_of(authority, seed, program) {
        Some(choose|authority: AuthorityIdentity| is_authority_of(authority, seed, program))
    } else {
        None
    }
}

/// What `derive_authority` returns for every label and program.
pub open spec fn derive_authority_spec(seed: Seq<u8>, program: Address) -> Result<
    AuthorityIdentity,
    MinterError,
> {
    match derived_authority(seed, program) {
        Some(authority) => Ok(authority),
        None => Err(MinterError::AuthorityDerivationError),
    }
}

/// For one label and one program there is at most one authority: two that the
/// derivation rule gives are the same identity with the same bump.
pub proof fn lemma_authority_is_unique(
    first: AuthorityIdentity,
    second: AuthorityIdentity,
    seed: Seq<u8>,
    program: Address,
)
    requires
        is_authority_of(first, seed, program),
        is_authority_of(second, seed, program),
    ensures
        first == second,
{
    assert(first.identity.bytes@ == second.identity.bytes@);
    assert(first.identity.bytes =~= second.identity.bytes);
}

/// Derives the program's signing authority from a seed label. Stateless: the
/// same label and program give the same authority on every call. Fails only
/// where no bump exists for the label, which a label of more than 32 bytes
/// always is.
pub fn derive_authority(seed_label: &[u8], program: &Address) -> (r: Result<
    AuthorityIdentity,
    MinterError,
>)
    ensures
        r == derive_authority_spec(seed_label@, *program),
        r.is_ok() <==> program_address(seed_label@, program.bytes@).is_some(),
        r.is_ok() ==> is_authority_of(r.unwrap(), seed_label@, *program),
        seed_label@.len() > MAX_SEED_LEN ==> r.is_err(),
{
    let r = authority_from(find_program_address(seed_label, program));
    proof {
        match r {
            Ok(authority) => {
                assert(is_authority_of(authority, seed_label@, *program));
                lemma_authority_is_unique(
                    authority,
                    derived_authority(seed_label@, *program).unwrap(),
                    seed_label@,
                    *program,
                );
            },
            Err(_) => {},
        }
    }
    r
}

} // verus!
