use vstd::prelude::*;

verus! {

/// A 256-bit account identifier, held as four 64-bit words.  It stands for an
/// address on the asset ledger: a personal account, the custodial holding
/// account, the escrow record's address, or the protocol's own identifier.
/// Only equality of identifiers ever matters to the protocol's logic.
#[derive(Clone, Copy, Debug, PartialEq, Eq, Structural)]
pub struct AccountId {
    pub w0: u64,
    pub w1: u64,
    pub w2: u64,
    pub w3: u64,
}

/// The state of one asset-ledger token account: its own address, the asset
/// type it holds, the identity permitted to authorize outbound transfers, and
/// its balance.
#[derive(Clone, Copy, Debug, PartialEq, Eq, Structural)]
pub struct TokenAccount {
    /// The address of this account on the ledger.
    pub id: AccountId,
    /// The asset type this account holds.
    pub mint: AccountId,
    /// The identity that may authorize transfers out of this account.
    pub authority: AccountId,
    /// The current balance.
    pub amount: u64,
}

} // verus!
