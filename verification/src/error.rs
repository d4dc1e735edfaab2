use vstd::prelude::*;

verus! {

/// Every way an operation can be refused.  All failures are detected before
/// any ledger mutation is issued, so a failed operation leaves every balance
/// and every record unchanged.
#[derive(Clone, Copy, Debug, PartialEq, Eq, Structural)]
pub enum ProgramError {
    /// The deposited amount exceeds what the deposit source account holds.
    InsufficientBalance,
    /// The caller of a cancellation is not the recorded initializer.
    Unauthorized,
    /// The supplied derivation parameters do not re-derive to the authority
    /// bound to the custodial account, or a referenced account does not match
    /// the record it claims to belong to.
    ConstraintViolation,
}

impl ProgramError {
    /// A human-readable description of the error.
    pub fn message(&self) -> (r: String)
        ensures
            *self is InsufficientBalance ==> r@ == "insufficient balance"@,
            *self is Unauthorized ==> r@ == "unauthorized"@,
            *self is ConstraintViolation ==> r@ == "constraint violation"@,
    {
        match self {
            ProgramError::InsufficientBalance => "insufficient balance".to_string(),
            ProgramError::Unauthorized => "unauthorized".to_string(),
            ProgramError::ConstraintViolation => "constraint violation".to_string(),
        }
    }
}

} // verus!
