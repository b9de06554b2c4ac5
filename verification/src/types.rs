//! Plain data shared by every component.

use vstd::prelude::*;

verus! {

/// A 32-byte ledger address.
#[derive(Clone, Copy, Debug, PartialEq, Eq)]
pub struct Address {
    pub bytes: [u8; 32],
}

/// Everything that can go wrong before a request reaches an external system.
#[derive(Clone, Copy, Debug, PartialEq, Eq, Structural)]
pub enum MinterError {
    /// No bump yields a program-owned address for the seed label.
    AuthorityDerivationError,
    /// The creator list is empty.
    InvalidCreatorCount,
    /// The basis points exceed 10000.
    InvalidBasisPoints,
    /// The plugin type code is none of 0, 1, 2.
    InvalidPluginTypeCode,
    /// The use method code is none of 0, 1, 2.
    InvalidUseMethodCode,
}

} // verus!
