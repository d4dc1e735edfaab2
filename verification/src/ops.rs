use vstd::prelude::*;
use crate::account::AccountId;
use crate::account::TokenAccount;
use crate::authority::derive_authority;
use crate::authority::escrow_seed;
use crate::authority::spec_derive_authority;
use crate::authority::spec_escrow_seed;
use crate::authority::spec_vault_seed;
use crate::authority::vault_seed;
use crate::error::ProgramError;
use crate::ledger::transfer;
use crate::state::EscrowAccount;

verus! {

/// The accounts an initialization touches: the protocol identifier, the
/// authorizing caller, the asset type, the freshly allocated custodial
/// holding account together with the disambiguator its address was derived
/// under, the initializer's two personal accounts, and the freshly allocated
/// escrow record.
#[derive(Clone, Copy, Debug, PartialEq, Eq, Structural)]
pub struct Initialize {
    /// The protocol's own identifier, injected at startup.
    pub program_id: AccountId,
    /// The identity that cryptographically authorized this call.
    pub initializer: AccountId,
    /// The asset type being deposited.
    pub mint: AccountId,
    /// The disambiguator under which the custodial account's address was
    /// derived by the account allocator.
    pub vault_bump: u8,
    /// The freshly allocated custodial holding account.
    pub vault_account: TokenAccount,
    /// The initializer's personal account to be debited.
    pub initializer_deposit_token_account: TokenAccount,
    /// The initializer's personal account intended to receive the counterpart
    /// asset on completion.
    pub initializer_receive_token_account: TokenAccount,
    /// The freshly allocated escrow record.
    pub escrow_account: EscrowAccount,
}

/// The accounts a cancellation touches: the protocol identifier, the
/// authorizing caller, the custodial holding account, the personal account to
/// refund into, and the escrow record together with the address it is stored
/// at.
#[derive(Clone, Copy, Debug, PartialEq, Eq, Structural)]
pub struct Cancel {
    /// The protocol's own identifier, injected at startup.
    pub program_id: AccountId,
    /// The identity that cryptographically authorized this call.
    pub initializer: AccountId,
    /// The asset type of the trade's deposit side.
    pub mint: AccountId,
    /// The custodial holding account to be drained.
    pub vault_account: TokenAccount,
    /// The personal account the deposit is refunded into.
    pub initializer_deposit_token_account: TokenAccount,
    /// The address at which the escrow record is stored.
    pub escrow_address: AccountId,
    /// The escrow record of the trade being cancelled.
    pub escrow_account: EscrowAccount,
}

/// What a well-formed initialization call looks like: the custodial account
/// was freshly allocated (empty) at the address the account allocator derived
/// from the vault seed and the given disambiguator, and the deposit source is
/// the initializer's own account of the traded asset type.
pub open spec fn spec_initialize_pre(pre: Initialize) -> bool {
    &&& pre.vault_account.id == spec_derive_authority(
        pre.program_id,
        spec_vault_seed(),
        pre.vault_bump,
    )
    &&& pre.vault_account.amount == 0
    &&& pre.initializer_deposit_token_account.authority == pre.initializer
    &&& pre.initializer_deposit_token_account.mint == pre.mint
}

/// The post-state of a successful initialization: the escrow record is
/// populated with the five fields of the trade, the custodial account is
/// bound to the asset type and to the derived authority and holds exactly the
/// deposited amount, the deposit source is debited by exactly that amount,
/// and nothing else changes.
pub open spec fn spec_initialize_ok_post(
    pre: Initialize,
    post: Initialize,
    deposited_amount: u64,
    requested_amount: u64,
) -> bool {
    &&& post.program_id == pre.program_id
    &&& post.initializer == pre.initializer
    &&& post.mint == pre.mint
    &&& post.vault_bump == pre.vault_bump
    &&& post.escrow_account == (EscrowAccount {
        initializer_key: pre.initializer,
        initializer_deposit_token_account: pre.initializer_deposit_token_account.id,
        initializer_receive_token_account: pre.initializer_receive_token_account.id,
        initializer_amount: deposited_amount,
        taker_amount: requested_amount,
    })
    &&& post.vault_account == (TokenAccount {
        id: pre.vault_account.id,
        mint: pre.mint,
        authority: pre.vault_account.id,
        amount: deposited_amount,
    })
    &&& post.initializer_deposit_token_account == (TokenAccount {
        amount: (pre.initializer_deposit_token_account.amount - deposited_amount) as u64,
        ..pre.initializer_deposit_token_account
    })
    &&& post.initializer_receive_token_account == pre.initializer_receive_token_account
}

/// Open a trade.  Validation happens before any ledger mutation: if the
/// deposit source holds less than `initializer_amount` the call fails with
/// `InsufficientBalance` and changes nothing.  Otherwise the escrow record is
/// populated, the custodial account is bound to the derived authority, and
/// the deposit moves from the initializer's personal account into custody.
pub fn initialize_handler(
    ctx: &mut Initialize,
    initializer_amount: u64,
    taker_amount: u64,
) -> (r: Result<(), ProgramError>)
    requires
        spec_initialize_pre(*old(ctx)),
    ensures
        r is Ok <==> old(ctx).initializer_deposit_token_account.amount >= initializer_amount,
        r is Ok ==> spec_initialize_ok_post(*old(ctx), *final(ctx), initializer_amount, taker_amount),
        r is Err ==> r == Err::<(), ProgramError>(ProgramError::InsufficientBalance)
            && *final(ctx) == *old(ctx),
{
    if ctx.initializer_deposit_token_account.amount < initializer_amount {
        return Err(ProgramError::InsufficientBalance);
    }
    ctx.escrow_account.initializer_key = ctx.initializer;
    ctx.escrow_account.initializer_deposit_token_account = ctx.initializer_deposit_token_account.id;
    ctx.escrow_account.initializer_receive_token_account = ctx.initializer_receive_token_account.id;
    ctx.escrow_account.initializer_amount = initializer_amount;
    ctx.escrow_account.taker_amount = taker_amount;
    ctx.vault_account.mint = ctx.mint;
    ctx.vault_account.authority = ctx.vault_account.id;
    let initializer = ctx.initializer;
    let res = transfer(
        &mut ctx.initializer_deposit_token_account,
        &initializer,
        &mut ctx.vault_account,
        initializer_amount,
    );
    match res {
        Ok(()) => Ok(()),
        Err(_) => Err(ProgramError::InsufficientBalance),
    }
}

/// What a well-formed cancellation call looks like: the custody invariant a
/// successful initialization establishes (the vault holds exactly the
/// recorded deposit), and room on the ledger for the refund.
pub open spec fn spec_cancel_pre(pre: Cancel) -> bool {
    &&& pre.vault_account.amount == pre.escrow_account.initializer_amount
    &&& pre.initializer_deposit_token_account.amount + pre.escrow_account.initializer_amount
        <= u64::MAX
}

/// Whether the caller of a cancellation is the recorded initializer.
pub open spec fn spec_cancel_authorized(pre: Cancel) -> bool {
    pre.escrow_account.initializer_key == pre.initializer
}

/// Whether the caller-supplied derivation parameters and account references
/// of a cancellation hold up: the vault seed and `bump1` re-derive to the
/// authority bound to the custodial account, the escrow seed and `bump2`
/// re-derive to the address the escrow record is stored at, and the account
/// to refund into is the one the record names.
pub open spec fn spec_cancel_constraints_ok(pre: Cancel, bump1: u8, bump2: u8) -> bool {
    &&& spec_derive_authority(pre.program_id, spec_vault_seed(), bump1)
        == pre.vault_account.authority
    &&& spec_derive_authority(pre.program_id, spec_escrow_seed(), bump2) == pre.escrow_address
    &&& pre.initializer_deposit_token_account.id
        == pre.escrow_account.initializer_deposit_token_account
}

/// The post-state of a successful cancellation: the custodial account is
/// drained to zero, the recorded deposit is credited back to the
/// initializer's personal account in full, and nothing else changes.
pub open spec fn spec_cancel_ok_post(pre: Cancel, post: Cancel) -> bool {
    &&& post.program_id == pre.program_id
    &&& post.initializer == pre.initializer
    &&& post.mint == pre.mint
    &&& post.vault_account == (TokenAccount { amount: 0u64, ..pre.vault_account })
    &&& post.initializer_deposit_token_account == (TokenAccount {
        amount: (pre.initializer_deposit_token_account.amount
            + pre.escrow_account.initializer_amount) as u64,
        ..pre.initializer_deposit_token_account
    })
    &&& post.escrow_address == pre.escrow_address
    &&& post.escrow_account == pre.escrow_account
}

/// Close a trade unilaterally.  Validation happens before any ledger
/// mutation: a caller other than the recorded initializer is refused with
/// `Unauthorized`; derivation parameters that do not re-derive to the bound
/// authority and stored address, or a refund account other than the one the
/// record names, are refused with `ConstraintViolation`; either refusal
/// changes nothing.  Otherwise the derived authority — proved by
/// recomputation, not by a signature — moves the full recorded deposit from
/// custody back to the initializer's personal account.
pub fn cancel_handler(ctx: &mut Cancel, bump1: u8, bump2: u8) -> (r: Result<(), ProgramError>)
    requires
        spec_cancel_pre(*old(ctx)),
    ensures
        r is Ok <==> spec_cancel_authorized(*old(ctx))
            && spec_cancel_constraints_ok(*old(ctx), bump1, bump2),
        r is Ok ==> spec_cancel_ok_post(*old(ctx), *final(ctx)),
        r == Err::<(), ProgramError>(ProgramError::Unauthorized)
            <==> !spec_cancel_authorized(*old(ctx)),
        r == Err::<(), ProgramError>(ProgramError::ConstraintViolation)
            <==> spec_cancel_authorized(*old(ctx))
                && !spec_cancel_constraints_ok(*old(ctx), bump1, bump2),
        r is Err ==> *final(ctx) == *old(ctx),
{
    if ctx.escrow_account.initializer_key != ctx.initializer {
        return Err(ProgramError::Unauthorized);
    }
    let seed = vault_seed();
    let vault_authority = derive_authority(&ctx.program_id, &seed, bump1);
    if vault_authority != ctx.vault_account.authority {
        return Err(ProgramError::ConstraintViolation);
    }
    let seed2 = escrow_seed();
    let escrow_addr = derive_authority(&ctx.program_id, &seed2, bump2);
    if escrow_addr != ctx.escrow_address {
        return Err(ProgramError::ConstraintViolation);
    }
    if ctx.initializer_deposit_token_account.id
        != ctx.escrow_account.initializer_deposit_token_account {
        return Err(ProgramError::ConstraintViolation);
    }
    let amount = ctx.escrow_account.initializer_amount;
    let res = transfer(
        &mut ctx.vault_account,
        &vault_authority,
        &mut ctx.initializer_deposit_token_account,
        amount,
    );
    match res {
        Ok(()) => Ok(()),
        Err(_) => Err(ProgramError::ConstraintViolation),
    }
}

/// Law: a successful initialization hands a cancellation exactly the state it
/// relies on — the vault holds the recorded deposit, and refunding that
/// deposit cannot overflow the source account it was debited from.
pub proof fn lemma_initialize_establishes_cancel_pre(
    pre: Initialize,
    post: Initialize,
    cpre: Cancel,
    deposited_amount: u64,
    requested_amount: u64,
)
    requires
        pre.initializer_deposit_token_account.amount >= deposited_amount,
        spec_initialize_ok_post(pre, post, deposited_amount, requested_amount),
        cpre.vault_account == post.vault_account,
        cpre.initializer_deposit_token_account == post.initializer_deposit_token_account,
        cpre.escrow_account == post.escrow_account,
    ensures
        spec_cancel_pre(cpre),
{
}

/// Law: over an initialization followed by a successful cancellation of the
/// same trade, the initializer's deposit account ends exactly where it began
/// and the custodial account ends empty — the round trip's net balance change
/// is zero.
pub proof fn lemma_round_trip_restores_balance(
    pre: Initialize,
    post: Initialize,
    cpre: Cancel,
    cpost: Cancel,
    deposited_amount: u64,
    requested_amount: u64,
)
    requires
        pre.initializer_deposit_token_account.amount >= deposited_amount,
        spec_initialize_ok_post(pre, post, deposited_amount, requested_amount),
        cpre.vault_account == post.vault_account,
        cpre.initializer_deposit_token_account == post.initializer_deposit_token_account,
        cpre.escrow_account == post.escrow_account,
        spec_cancel_ok_post(cpre, cpost),
    ensures
        cpost.initializer_deposit_token_account.amount
            == pre.initializer_deposit_token_account.amount,
        cpost.vault_account.amount == 0,
{
}

} // verus!
