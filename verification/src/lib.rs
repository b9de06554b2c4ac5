//! Request composition for minting assets on an external asset ledger and
//! managing the royalty, transfer-delegate and burn-delegate plugins attached
//! to them.

pub mod types;
pub mod royalty;
pub mod authority;
pub mod plugin;
pub mod metadata;
pub mod request;
pub mod accounts;
pub mod advanced;
pub mod ledger;
pub mod program;
