use vstd::prelude::*;
use crate::account::AccountId;

verus! {

/// The durable description of one pending trade.  It is created by a
/// successful initialization and its useful life ends with a successful
/// cancellation (or, in a complete protocol, a completed exchange).
#[derive(Clone, Copy, Debug, PartialEq, Eq, Structural)]
pub struct EscrowAccount {
    /// Who opened the trade; the sole identity permitted to cancel it.
    pub initializer_key: AccountId,
    /// The initializer's personal account debited at initialization and
    /// refunded at cancellation.
    pub initializer_deposit_token_account: AccountId,
    /// The initializer's personal account intended to receive the counterpart
    /// asset if the exchange ever completes.
    pub initializer_receive_token_account: AccountId,
    /// The quantity locked in custody.
    pub initializer_amount: u64,
    /// The quantity the initializer expects in return.
    pub taker_amount: u64,
}

} // verus!
