use vstd::prelude::*;
use crate::error::ProgramError;
use crate::ops::Cancel;
use crate::ops::Initialize;
use crate::ops::cancel_handler;
use crate::ops::initialize_handler;
use crate::ops::spec_cancel_authorized;
use crate::ops::spec_cancel_constraints_ok;
use crate::ops::spec_cancel_ok_post;
use crate::ops::spec_cancel_pre;
use crate::ops::spec_initialize_ok_post;
use crate::ops::spec_initialize_pre;

verus! {

/// The protocol's first entry point: open a trade by depositing
/// `initializer_amount` into custody and recording that `taker_amount` of the
/// counterpart asset is expected in return.
pub fn initialize(
    ctx: &mut Initialize,
    initializer_amount: u64,
    taker_amount: u64,
) -> (r: Result<(), ProgramError>)
    requires
        spec_initialize_pre(*old(ctx)),
    ensures
        r is Ok <==> old(ctx).initializer_deposit_token_account.amount >= initializer_amount,
        r is Ok ==> spec_initialize_ok_post(*old(ctx), *final(ctx), initializer_amount, taker_amount),
        r is Err ==> r == Err::<(), ProgramError>(ProgramError::InsufficientBalance)
            && *final(ctx) == *old(ctx),
{
    initialize_handler(ctx, initializer_amount, taker_amount)
}

/// The protocol's second entry point: close a trade unilaterally, refunding
/// the recorded deposit to the initializer.  `bump1` and `bump2` are the
/// derivation disambiguators for the custodial authority and the escrow
/// record's address.
pub fn cancel(ctx: &mut Cancel, bump1: u8, bump2: u8) -> (r: Result<(), ProgramError>)
    requires
        spec_cancel_pre(*old(ctx)),
    ensures
        r is Ok <==> spec_cancel_authorized(*old(ctx))
            && spec_cancel_constraints_ok(*old(ctx), bump1, bump2),
        r is Ok ==> spec_cancel_ok_post(*old(ctx), *final(ctx)),
        r == Err::<(), ProgramError>(ProgramError::Unauthorized)
            <==> !spec_cancel_authorized(*old(ctx)),
        r == Err::<(), ProgramError>(ProgramError::ConstraintViolation)
            <==> spec_cancel_authorized(*old(ctx))
                && !spec_cancel_constraints_ok(*old(ctx), bump1, bump2),
        r is Err ==> *final(ctx) == *old(ctx),
{
    cancel_handler(ctx, bump1, bump2)
}

} // verus!
