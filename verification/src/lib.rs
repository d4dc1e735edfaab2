//! A two-party conditional value-transfer protocol: an initializer deposits a
//! quantity of a fungible asset into a custodial holding account controlled by
//! a keyless, deterministically derived authority, and may later reclaim the
//! deposit unilaterally.  The modules below model the accounts, the escrow
//! record, the authority derivation, the asset-ledger transfer primitive, and
//! the two operations (initialize and cancel), each with a proved contract.

pub mod account;
pub mod authority;
pub mod error;
pub mod escrow;
pub mod ledger;
pub mod ops;
pub mod state;
